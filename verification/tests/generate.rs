use pong::subcmd::gen::GenError;
use pong::subcmd::SubCmd;
use pong::ColorMode;
use pong::GlobalOpts;

fn opts() -> GlobalOpts {
    GlobalOpts {
        debug: false,
        simulate: false,
        quiet: false,
        yes: false,
        color: None,
        config: None,
        dbpath: None,
        gpgdir: None,
        aur_helper: None,
    }
}

fn line(sub: SubCmd, global: &GlobalOpts, terminal: bool) -> String {
    sub.generate_command(global, terminal).unwrap().joined()
}

fn upgrade_default() -> SubCmd {
    SubCmd::Upgrade { no_refresh: false, refresh: false, download: false, no_aur: false }
}

fn tree_of(package: &str) -> SubCmd {
    SubCmd::Tree {
        package: package.to_string(),
        ascii: false,
        depth: None,
        depth_optional: None,
        reverse: false,
    }
}

#[test]
fn upgrade() {
    let upgrade = |color: Option<ColorMode>, simulate: bool| -> String {
        let mut o = opts();
        o.color = color;
        o.simulate = simulate;
        line(upgrade_default(), &o, false)
    };
    assert_eq!(upgrade(None, false), "pacman --color auto -Syu");
    assert_eq!(upgrade(Some(ColorMode::Never), false), "pacman --color never -Syu");
    assert_eq!(upgrade(Some(ColorMode::Auto), false), "pacman --color auto -Syu");
    assert_eq!(upgrade(Some(ColorMode::Auto), false), "pacman --color auto -Syu");
    assert_eq!(upgrade(Some(ColorMode::Always), false), "pacman --color always -Syu");
    assert_eq!(upgrade(Some(ColorMode::Always), true), "pacman --print --color always -Syu");
}

#[test]
fn tree() {
    assert_eq!(line(tree_of("abc"), &opts(), true), "pactree -c abc");

    let mut never = opts();
    never.color = Some(ColorMode::Never);
    assert_eq!(line(tree_of("abc"), &never, true), "pactree abc");
}

#[test]
fn tree_color_resolution() {
    // unspecified or auto: color exactly when stdout is a terminal
    assert_eq!(line(tree_of("abc"), &opts(), false), "pactree abc");
    let mut auto = opts();
    auto.color = Some(ColorMode::Auto);
    assert_eq!(line(tree_of("abc"), &auto, true), "pactree -c abc");
    assert_eq!(line(tree_of("abc"), &auto, false), "pactree abc");
    // explicit always wins even without a terminal
    let mut always = opts();
    always.color = Some(ColorMode::Always);
    assert_eq!(line(tree_of("abc"), &always, false), "pactree -c abc");
    // explicit never wins even on a terminal
    let mut never = opts();
    never.color = Some(ColorMode::Never);
    assert_eq!(line(tree_of("abc"), &never, true), "pactree abc");
}

#[test]
fn tree_flags_and_depths() {
    let t = SubCmd::Tree {
        package: "abc".to_string(),
        ascii: true,
        depth: Some(3),
        depth_optional: Some(30),
        reverse: true,
    };
    let mut never = opts();
    never.color = Some(ColorMode::Never);
    assert_eq!(line(t, &never, false), "pactree -ar -d 3 --optional 30 abc");

    let t2 = SubCmd::Tree {
        package: "abc".to_string(),
        ascii: false,
        depth: Some(1234567890),
        depth_optional: None,
        reverse: false,
    };
    assert_eq!(line(t2, &opts(), true), "pactree -c -d 1234567890 abc");
}

#[test]
fn tree_forwards_paths_but_not_pacman_flags() {
    let mut o = opts();
    o.debug = true;
    o.simulate = true;
    o.quiet = true;
    o.yes = true;
    o.config = Some("/c".to_string());
    o.dbpath = Some("/d".to_string());
    o.gpgdir = Some("/g".to_string());
    o.color = Some(ColorMode::Never);
    assert_eq!(
        line(tree_of("abc"), &o, false),
        "pactree --debug --config /c --dbpath /d --gpgdir /g abc",
    );
}

#[test]
fn upgrade_modifiers() {
    let mut o = opts();
    let up = |no_refresh: bool, refresh: bool, download: bool| SubCmd::Upgrade {
        no_refresh,
        refresh,
        download,
        no_aur: false,
    };
    assert_eq!(line(up(true, false, false), &o, false), "pacman --color auto -Su");
    assert_eq!(line(up(false, true, false), &o, false), "pacman --color auto -Sy");
    assert_eq!(line(up(false, false, true), &o, false), "pacman --color auto -Swyu");
    o.quiet = true;
    assert_eq!(line(up(false, false, false), &o, false), "pacman --color auto -Sqyu");
}

#[test]
fn upgrade_refresh_conflict() {
    let conflicted = SubCmd::Upgrade {
        no_refresh: true,
        refresh: true,
        download: false,
        no_aur: false,
    };
    match conflicted.generate_command(&opts(), false) {
        Err(e) => {
            assert_eq!(e, GenError::RefreshConflict);
            assert_eq!(e.message(), "--refresh and --no-refresh cannot be used together");
        },
        Ok(_) => panic!("the conflicting combination must be rejected"),
    }
}

#[test]
fn global_option_order() {
    let mut o = opts();
    o.simulate = true;
    o.debug = true;
    o.yes = true;
    o.config = Some("/etc/pacman.conf".to_string());
    o.dbpath = Some("/var/lib/pacman".to_string());
    o.gpgdir = Some("/etc/pacman.d/gnupg".to_string());
    assert_eq!(
        line(upgrade_default(), &o, false),
        "pacman --print --debug --noconfirm --color auto \
         --config /etc/pacman.conf --dbpath /var/lib/pacman \
         --gpgdir /etc/pacman.d/gnupg -Syu",
    );
}

#[test]
fn install_flag_order() {
    let inst = |reinstall: bool, download: bool| SubCmd::Install {
        packages: vec!["foo".to_string(), "bar".to_string()],
        reinstall,
        download,
        aur: false,
    };
    assert_eq!(line(inst(false, false), &opts(), false), "pacman --color auto -S --needed foo bar");
    assert_eq!(line(inst(true, false), &opts(), false), "pacman --color auto -S foo bar");
    let mut quiet = opts();
    quiet.quiet = true;
    // quiet, then download-only: a fixed order, never a permutation
    assert_eq!(line(inst(false, true), &quiet, false), "pacman --color auto -Sqw --needed foo bar");
}

#[test]
fn remove_flag_order() {
    let rm = |cascade: bool, keep_orphans: bool, explicit: bool, save: bool| SubCmd::Remove {
        packages: vec!["foo".to_string()],
        cascade,
        keep_orphans,
        explicit,
        save,
        no_aur: false,
    };
    assert_eq!(line(rm(false, false, false, false), &opts(), false), "pacman --color auto -Rns foo");
    assert_eq!(line(rm(false, false, true, false), &opts(), false), "pacman --color auto -Rnss foo");
    assert_eq!(line(rm(true, false, false, false), &opts(), false), "pacman --color auto -Rnsc foo");
    assert_eq!(line(rm(false, true, false, false), &opts(), false), "pacman --color auto -Rn foo");
    assert_eq!(line(rm(false, false, false, true), &opts(), false), "pacman --color auto -Rs foo");
}

#[test]
fn clean_variants() {
    assert_eq!(
        line(SubCmd::Clean { all: false, no_aur: false }, &opts(), false),
        "pacman --color auto -Sc",
    );
    assert_eq!(
        line(SubCmd::Clean { all: true, no_aur: false }, &opts(), false),
        "pacman --color auto -Scc",
    );
}

#[test]
fn pin_variants() {
    let pin = |remove: bool| SubCmd::Pin { packages: vec!["foo".to_string()], remove };
    assert_eq!(line(pin(false), &opts(), false), "pacman --color auto -D --asexplicit foo");
    assert_eq!(line(pin(true), &opts(), false), "pacman --color auto -D --asdeps foo");
    let mut quiet = opts();
    quiet.quiet = true;
    assert_eq!(line(pin(false), &quiet, false), "pacman --color auto -Dq --asexplicit foo");
}

#[test]
fn search_variants() {
    let search = |installed: bool| SubCmd::Search {
        queries: vec!["alpha".to_string(), "beta".to_string()],
        installed,
        aur: false,
    };
    assert_eq!(line(search(false), &opts(), false), "pacman --color auto -Ss alpha beta");
    assert_eq!(line(search(true), &opts(), false), "pacman --color auto -Qs alpha beta");
    let mut quiet = opts();
    quiet.quiet = true;
    assert_eq!(line(search(false), &quiet, false), "pacman --color auto -Ssq alpha beta");
}

#[test]
fn list_filter_order() {
    let list = |explicit: bool, deps: bool, free: bool, sync: bool, no_sync: bool, upgrades: bool|
        SubCmd::List { explicit, deps, free, sync, no_sync, upgrades };
    assert_eq!(line(list(false, false, false, false, false, false), &opts(), false), "pacman --color auto -Q");
    assert_eq!(line(list(true, false, false, false, false, true), &opts(), false), "pacman --color auto -Qeu");
    assert_eq!(line(list(false, true, true, false, true, false), &opts(), false), "pacman --color auto -Qdmt");
    assert_eq!(line(list(false, false, false, true, false, false), &opts(), false), "pacman --color auto -Qn");
    let mut quiet = opts();
    quiet.quiet = true;
    assert_eq!(line(list(true, false, false, false, false, false), &quiet, false), "pacman --color auto -Qqe");
}

#[test]
fn which_variants() {
    let which = |sync: bool, regex: bool| SubCmd::Which {
        files: vec!["/usr/bin/ls".to_string()],
        sync,
        aur: false,
        regex,
    };
    assert_eq!(line(which(false, false), &opts(), false), "pacman --color auto -Qo /usr/bin/ls");
    assert_eq!(line(which(true, false), &opts(), false), "pacman --color auto -F /usr/bin/ls");
    assert_eq!(line(which(true, true), &opts(), false), "pacman --color auto -Fx /usr/bin/ls");
    let mut quiet = opts();
    quiet.quiet = true;
    assert_eq!(line(which(false, false), &quiet, false), "pacman --color auto -Qoq /usr/bin/ls");
}

#[test]
fn view_variants() {
    let view = |sync: bool, package_file: bool, more: bool, files: bool, changelog: bool|
        SubCmd::View {
            packages: vec!["foo".to_string()],
            sync,
            package_file,
            more,
            files,
            changelog,
        };
    assert_eq!(line(view(false, false, false, false, false), &opts(), false), "pacman --color auto -Qi foo");
    assert_eq!(line(view(true, false, false, false, false), &opts(), false), "pacman --color auto -Si foo");
    assert_eq!(line(view(true, false, false, true, false), &opts(), false), "pacman --color auto -Fli foo");
    assert_eq!(line(view(false, true, false, false, false), &opts(), false), "pacman --color auto -Qpi foo");
    assert_eq!(line(view(false, false, false, false, true), &opts(), false), "pacman --color auto -Qci foo");
    assert_eq!(line(view(false, false, false, true, true), &opts(), false), "pacman --color auto -Qcl foo");
    assert_eq!(line(view(false, false, true, false, false), &opts(), false), "pacman --color auto -Qii foo");
}

#[test]
fn root_exactly_for_mutating_operations() {
    let cases: Vec<(SubCmd, bool)> = vec![
        (SubCmd::Install { packages: vec![], reinstall: false, download: false, aur: false }, true),
        (
            SubCmd::Remove {
                packages: vec![],
                cascade: false,
                keep_orphans: false,
                explicit: false,
                save: false,
                no_aur: false,
            },
            true,
        ),
        (upgrade_default(), true),
        (SubCmd::Clean { all: false, no_aur: false }, true),
        (SubCmd::Pin { packages: vec![], remove: false }, true),
        (SubCmd::Search { queries: vec![], installed: false, aur: true }, false),
        (SubCmd::List {
            explicit: false,
            deps: false,
            free: false,
            sync: false,
            no_sync: false,
            upgrades: false,
        }, false),
        (SubCmd::Which { files: vec![], sync: false, aur: false, regex: false }, false),
        (SubCmd::View {
            packages: vec![],
            sync: false,
            package_file: false,
            more: false,
            files: false,
            changelog: false,
        }, false),
        (tree_of("abc"), false),
    ];
    for (sub, expected) in cases {
        let cli = sub.generate_command(&opts(), false).unwrap();
        assert_eq!(cli.root, expected);
    }
}

#[test]
fn delegation_side_channel() {
    let install = |aur: bool| SubCmd::Install {
        packages: vec![],
        reinstall: false,
        download: false,
        aur,
    };
    assert!(!install(false).generate_command(&opts(), false).unwrap().delegate);
    assert!(install(true).generate_command(&opts(), false).unwrap().delegate);

    // mutating operations delegate unless excluded
    let up = |no_aur: bool| SubCmd::Upgrade {
        no_refresh: false,
        refresh: false,
        download: false,
        no_aur,
    };
    assert!(up(false).generate_command(&opts(), false).unwrap().delegate);
    assert!(!up(true).generate_command(&opts(), false).unwrap().delegate);

    // read-only operations delegate only when asked
    let search = |aur: bool| SubCmd::Search { queries: vec![], installed: false, aur };
    assert!(!search(false).generate_command(&opts(), false).unwrap().delegate);
    assert!(search(true).generate_command(&opts(), false).unwrap().delegate);

    assert!(!tree_of("abc").generate_command(&opts(), false).unwrap().delegate);
}

#[test]
fn generation_repeats_identically() {
    let sub = SubCmd::Install {
        packages: vec!["foo".to_string()],
        reinstall: false,
        download: true,
        aur: false,
    };
    let mut o = opts();
    o.quiet = true;
    o.config = Some("/c".to_string());
    let first = sub.clone().generate_command(&o, true).unwrap();
    let second = sub.generate_command(&o, true).unwrap();
    assert_eq!(first.cmd, second.cmd);
    assert_eq!(first.root, second.root);
    assert_eq!(first.delegate, second.delegate);
}
