use pong::aur::apply_delegation;
use pong::aur::Aur;
use pong::aur::AurPassthrough;
use pong::cli::Cli;
use pong::subcmd::gen::decimal_string;
use pong::subcmd::SubCmd;
use pong::GlobalOpts;

fn opts_with_helper(helper: Option<&str>) -> GlobalOpts {
    GlobalOpts {
        debug: false,
        simulate: false,
        quiet: false,
        yes: false,
        color: None,
        config: None,
        dbpath: None,
        gpgdir: None,
        aur_helper: helper.map(|h| h.to_string()),
    }
}

#[test]
fn builder_primitives() {
    let mut cli = Cli::new("prog");
    assert_eq!(cli.cmd, vec!["prog".to_string()]);
    assert!(!cli.root);
    assert!(!cli.delegate);

    cli.arg("-X", true);
    cli.arg("--skipped", false);
    cli.flag('a', true);
    cli.flag('b', false);
    cli.flag('c', true);
    cli.arg_opt("--with", &Some("value".to_string()));
    cli.arg_opt("--without", &None);
    cli.args(vec!["one".to_string(), "two".to_string()]);
    assert_eq!(
        cli.cmd,
        vec!["prog", "-Xac", "--with", "value", "one", "two"]
            .into_iter()
            .map(str::to_string)
            .collect::<Vec<String>>(),
    );
}

#[test]
fn joined_renders_tokens_space_separated() {
    let cli = Cli::new("prog");
    assert_eq!(cli.joined(), "prog");

    let mut cli = Cli::new("prog");
    cli.arg("-a", true);
    cli.args(vec!["x y".to_string(), "z".to_string()]);
    assert_eq!(cli.joined(), "prog -a x y z");
}

#[test]
fn transform_replaces_program_name() {
    let mut cli = Cli::new("pacman");
    cli.arg("-Syu", true);
    AurPassthrough("paru").transform(&mut cli);
    assert_eq!(cli.cmd, vec!["paru".to_string(), "-Syu".to_string()]);
}

#[test]
fn delegation_applies_only_with_helper_and_request() {
    let upgrade = SubCmd::Upgrade {
        no_refresh: false,
        refresh: false,
        download: false,
        no_aur: false,
    };

    // delegation requested and helper configured: the program is swapped
    let o = opts_with_helper(Some("paru"));
    let mut cli = upgrade.clone().generate_command(&o, false).unwrap();
    assert!(cli.delegate);
    apply_delegation(&mut cli, &o.aur_helper);
    assert_eq!(cli.joined(), "paru --color auto -Syu");

    // no helper configured: delegation is silently ignored
    let bare = opts_with_helper(None);
    let mut cli = upgrade.clone().generate_command(&bare, false).unwrap();
    apply_delegation(&mut cli, &bare.aur_helper);
    assert_eq!(cli.joined(), "pacman --color auto -Syu");

    // helper configured but delegation excluded: the base program is kept
    let excluded = SubCmd::Upgrade {
        no_refresh: false,
        refresh: false,
        download: false,
        no_aur: true,
    };
    let mut cli = excluded.generate_command(&o, false).unwrap();
    assert!(!cli.delegate);
    apply_delegation(&mut cli, &o.aur_helper);
    assert_eq!(cli.joined(), "pacman --color auto -Syu");
}

#[test]
fn decimal_rendering() {
    assert_eq!(decimal_string(0), "0");
    assert_eq!(decimal_string(7), "7");
    assert_eq!(decimal_string(10), "10");
    assert_eq!(decimal_string(105), "105");
    assert_eq!(decimal_string(4294967295), "4294967295");
}
