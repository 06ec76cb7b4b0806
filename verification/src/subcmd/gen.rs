//! Generation rules: from an intent and the global options to the exact
//! argument vector of the underlying command.
//!
//! One rule per [`SubCmd`] variant drives the [`Cli`] accumulator.  The
//! spec functions in this module pin down, token by token, the command each
//! rule produces, together with the privilege and delegation side-channels.

use crate::cli::ch_if;
use crate::cli::opt_tokens;
use crate::cli::tok_if;
use crate::cli::Cli;
use crate::subcmd::SubCmd;
use crate::ColorMode;
use crate::GlobalOpts;
use vstd::prelude::*;
use vstd::string::StringExecFns;

verus! {

broadcast use crate::cli::lemma_snoc_parts;

/// Error raised by a generation rule for an option combination the
/// argument parser cannot reject itself.
#[derive(Clone, Copy, Debug, PartialEq, Eq, Structural)]
pub enum GenError {
    /// The upgrade operation was asked both to only refresh the sync
    /// database and to skip refreshing it.
    RefreshConflict,
}

/// The diagnostic line reported for a generation error.
pub open spec fn spec_message(e: GenError) -> Seq<char> {
    match e {
        GenError::RefreshConflict => "--refresh and --no-refresh cannot be used together"@,
    }
}

impl GenError {
    /// The diagnostic line to print before terminating unsuccessfully.
    pub fn message(&self) -> (m: &'static str)
        ensures
            m@ == spec_message(*self),
    {
        match self {
            GenError::RefreshConflict => "--refresh and --no-refresh cannot be used together",
        }
    }
}

/// Whether the dependency-tree command should colorize its output:
/// an explicit `always` turns color on, an explicit `never` turns it off,
/// and an unspecified or `auto` mode turns it on exactly when standard
/// output is attached to a terminal.
pub open spec fn spec_color_on(color: Option<ColorMode>, terminal: bool) -> bool {
    match color {
        Some(ColorMode::Always) => true,
        Some(ColorMode::Never) => false,
        _ => terminal,
    }
}

/// The value handed to the package manager's `--color` option:
/// the requested mode's name, or `auto` when none was requested.
pub open spec fn spec_color_name(color: Option<ColorMode>) -> Seq<char> {
    match color {
        Some(ColorMode::Always) => "always"@,
        Some(ColorMode::Never) => "never"@,
        _ => "auto"@,
    }
}

/// The textual form of the `--color` value for the package manager.
pub fn color_name(color: &Option<ColorMode>) -> (name: &'static str)
    ensures
        name@ == spec_color_name(*color),
{
    match color {
        Some(ColorMode::Always) => "always",
        Some(ColorMode::Never) => "never",
        _ => "auto",
    }
}

/// The decimal digit `d` as a character.
pub open spec fn spec_digit(d: nat) -> Seq<char> {
    if d == 0 {
        "0"@
    } else if d == 1 {
        "1"@
    } else if d == 2 {
        "2"@
    } else if d == 3 {
        "3"@
    } else if d == 4 {
        "4"@
    } else if d == 5 {
        "5"@
    } else if d == 6 {
        "6"@
    } else if d == 7 {
        "7"@
    } else if d == 8 {
        "8"@
    } else {
        "9"@
    }
}

/// The decimal representation of `n`, most significant digit first and
/// without leading zeros (a single `0` for zero itself).
pub open spec fn spec_decimal(n: nat) -> Seq<char>
    decreases n,
{
    if n < 10 {
        spec_digit(n)
    } else {
        spec_decimal(n / 10) + spec_digit(n % 10)
    }
}

/// The decimal representation of an optional numeric option value.
pub open spec fn spec_decimal_opt(v: Option<u32>) -> Option<Seq<char>> {
    match v {
        Some(n) => Some(spec_decimal(n as nat)),
        None => None,
    }
}

/// The decimal digit `d` as a one-character string slice.
fn digit_str(d: u32) -> (s: &'static str)
    requires
        d < 10,
    ensures
        s@ == spec_digit(d as nat),
{
    match d {
        0 => "0",
        1 => "1",
        2 => "2",
        3 => "3",
        4 => "4",
        5 => "5",
        6 => "6",
        7 => "7",
        8 => "8",
        _ => "9",
    }
}

/// Formats `n` in decimal, most significant digit first.
pub fn decimal_string(n: u32) -> (s: String)
    ensures
        s@ == spec_decimal(n as nat),
    decreases n,
{
    if n < 10 {
        digit_str(n).to_owned()
    } else {
        proof {
            assert(n / 10 < n) by (nonlinear_arith)
                requires
                    n >= 10,
            ;
        }
        let mut s = decimal_string(n / 10);
        s.append(digit_str(n % 10));
        s
    }
}

/// Formats an optional numeric option value in decimal.
fn decimal_opt(v: &Option<u32>) -> (s: Option<String>)
    ensures
        s.deep_view() == spec_decimal_opt(*v),
{
    match v {
        Some(n) => Some(decimal_string(*n)),
        None => None,
    }
}

/// The global tokens every package-manager command starts with: the program
/// name, the forwarded global flags, the resolved color mode and the
/// configured path overrides, in this fixed order.
pub open spec fn spec_prelude(g: GlobalOpts) -> Seq<Seq<char>> {
    seq!["pacman"@] + tok_if("--print"@, g.simulate) + tok_if("--debug"@, g.debug) + tok_if(
        "--noconfirm"@,
        g.yes,
    ) + seq!["--color"@] + seq![spec_color_name(g.color)] + opt_tokens(
        "--config"@,
        g.config.deep_view(),
    ) + opt_tokens("--dbpath"@, g.dbpath.deep_view()) + opt_tokens(
        "--gpgdir"@,
        g.gpgdir.deep_view(),
    )
}

/// The global tokens the dependency-tree command starts with.  The
/// secondary program has a disjoint flag surface, so the simulate, quiet,
/// confirmation and color options are not forwarded; debug and the path
/// overrides are.
pub open spec fn spec_tree_prelude(g: GlobalOpts) -> Seq<Seq<char>> {
    seq!["pactree"@] + tok_if("--debug"@, g.debug) + opt_tokens("--config"@, g.config.deep_view())
        + opt_tokens("--dbpath"@, g.dbpath.deep_view()) + opt_tokens(
        "--gpgdir"@,
        g.gpgdir.deep_view(),
    )
}

/// The dependency-tree command's combined-flag token.  It is emitted only
/// when at least one flag character is present: a bare flag marker with no
/// letters is discarded.
pub open spec fn spec_tree_flags(ascii: bool, color: bool, reverse: bool) -> Seq<Seq<char>> {
    if ascii || color || reverse {
        seq!["-"@ + ch_if('a', ascii) + ch_if('c', color) + ch_if('r', reverse)]
    } else {
        seq![]
    }
}

/// Whether the intent's operation mutates system state and therefore
/// needs elevated privileges.
pub open spec fn spec_root(cmd: SubCmd) -> bool {
    cmd is Install || cmd is Remove || cmd is Upgrade || cmd is Clean || cmd is Pin
}

/// Whether the generated command asks to be delegated to the AUR helper:
/// the mutating operations delegate unless explicitly excluded, the
/// informational ones only when explicitly asked.
pub open spec fn spec_delegate(cmd: SubCmd) -> bool {
    match cmd {
        SubCmd::Install { aur, .. } => aur,
        SubCmd::Remove { no_aur, .. } => !no_aur,
        SubCmd::Upgrade { no_aur, .. } => !no_aur,
        SubCmd::Clean { no_aur, .. } => !no_aur,
        SubCmd::Search { aur, .. } => aur,
        SubCmd::Which { aur, .. } => aur,
        _ => false,
    }
}

/// The option combination a generation rule rejects itself: asking the
/// upgrade operation both to only refresh and to skip refreshing.
pub open spec fn spec_incompatible(cmd: SubCmd) -> bool {
    cmd matches SubCmd::Upgrade { no_refresh: true, refresh: true, .. }
}

/// The full argument vector generated for `cmd` under the options `g`,
/// token by token and in order, assuming the combination is accepted.
/// `terminal` tells whether standard output is attached to a terminal,
/// which decides the dependency-tree command's automatic color mode.
pub open spec fn spec_tokens(cmd: SubCmd, g: GlobalOpts, terminal: bool) -> Seq<Seq<char>> {
    match cmd {
        SubCmd::Install { packages, reinstall, download, .. } => spec_prelude(g) + seq![
            "-S"@ + ch_if('q', g.quiet) + ch_if('w', download),
        ] + tok_if("--needed"@, !reinstall) + packages.deep_view(),
        SubCmd::Remove { packages, cascade, keep_orphans, explicit, save, .. } => spec_prelude(g)
            + seq![
            "-R"@ + ch_if('n', !save) + ch_if('s', !keep_orphans) + ch_if('s', explicit) + ch_if(
                'c',
                cascade,
            ),
        ] + packages.deep_view(),
        SubCmd::Upgrade { no_refresh, refresh, download, .. } => spec_prelude(g) + seq![
            "-S"@ + ch_if('q', g.quiet) + ch_if('w', download) + ch_if('y', !no_refresh) + ch_if(
                'u',
                !refresh,
            ),
        ],
        SubCmd::Clean { all, .. } => spec_prelude(g) + seq!["-Sc"@ + ch_if('c', all)],
        SubCmd::Search { queries, installed, .. } => spec_prelude(g) + seq![
            (if installed {
                "-Qs"@
            } else {
                "-Ss"@
            }) + ch_if('q', g.quiet),
        ] + queries.deep_view(),
        SubCmd::List { explicit, deps, free, sync, no_sync, upgrades } => spec_prelude(g) + seq![
            "-Q"@ + ch_if('q', g.quiet) + ch_if('e', explicit) + ch_if('d', deps) + ch_if(
                'm',
                no_sync,
            ) + ch_if('n', sync) + ch_if('t', free) + ch_if('u', upgrades),
        ],
        SubCmd::Which { files, sync, regex, .. } => spec_prelude(g) + seq![
            (if sync {
                "-F"@
            } else {
                "-Qo"@
            }) + ch_if('x', regex) + ch_if('q', g.quiet),
        ] + files.deep_view(),
        SubCmd::View { packages, sync, package_file, more, files, changelog } => spec_prelude(g)
            + seq![
            (if sync && !files {
                "-S"@
            } else if sync && files {
                "-F"@
            } else {
                "-Q"@
            }) + ch_if('q', g.quiet) + ch_if('p', package_file) + ch_if('c', changelog) + ch_if(
                'l',
                files,
            ) + ch_if('i', !(changelog && files)) + ch_if('i', more),
        ] + packages.deep_view(),
        SubCmd::Tree { package, ascii, depth, depth_optional, reverse } => spec_tree_prelude(g)
            + spec_tree_flags(ascii, spec_color_on(g.color, terminal), reverse) + opt_tokens(
            "-d"@,
            spec_decimal_opt(depth),
        ) + opt_tokens("--optional"@, spec_decimal_opt(depth_optional)) + seq![package@],
        SubCmd::Pin { packages, remove } => spec_prelude(g) + seq!["-D"@ + ch_if('q', g.quiet)]
            + tok_if("--asexplicit"@, !remove) + tok_if("--asdeps"@, remove)
            + packages.deep_view(),
    }
}

/// What a successful generation guarantees: the exact token sequence for
/// the intent and options at hand, and the two fixed side-channels.
pub open spec fn generated(cmd: SubCmd, g: GlobalOpts, terminal: bool, cli: Cli) -> bool {
    &&& cli.cmd.deep_view() == spec_tokens(cmd, g, terminal)
    &&& cli.root == spec_root(cmd)
    &&& cli.delegate == spec_delegate(cmd)
}

/// Builds the package manager's global token prefix.
fn pacman_prelude(global: &GlobalOpts) -> (cli: Cli)
    ensures
        cli.cmd.deep_view() == spec_prelude(*global),
        cli.cmd.deep_view().len() > 0,
        !cli.root,
        !cli.delegate,
{
    let mut cli = Cli::new("pacman");
    cli.arg("--print", global.simulate);
    cli.arg("--debug", global.debug);
    cli.arg("--noconfirm", global.yes);
    cli.arg("--color", true);
    cli.arg(color_name(&global.color), true);
    cli.arg_opt("--config", &global.config);
    cli.arg_opt("--dbpath", &global.dbpath);
    cli.arg_opt("--gpgdir", &global.gpgdir);
    proof {
        assert(cli.cmd.deep_view() =~~= spec_prelude(*global));
        assert(cli.cmd@.len() == cli.cmd.deep_view().len());
    }
    cli
}

/// Builds the dependency-tree command's global token prefix.
fn pactree_prelude(global: &GlobalOpts) -> (cli: Cli)
    ensures
        cli.cmd.deep_view() == spec_tree_prelude(*global),
        cli.cmd.deep_view().len() > 0,
        !cli.root,
        !cli.delegate,
{
    let mut cli = Cli::new("pactree");
    cli.arg("--debug", global.debug);
    cli.arg_opt("--config", &global.config);
    cli.arg_opt("--dbpath", &global.dbpath);
    cli.arg_opt("--gpgdir", &global.gpgdir);
    proof {
        assert(cli.cmd.deep_view() =~~= spec_tree_prelude(*global));
        assert(cli.cmd@.len() == cli.cmd.deep_view().len());
    }
    cli
}

/// Whatever the global options, a generated command's first token is the
/// name of the program to invoke: the dependency-tree program for the tree
/// intent, the package manager for every other intent.
proof fn lemma_prelude_head(g: GlobalOpts)
    ensures
        spec_prelude(g).len() > 0,
        spec_prelude(g)[0] == "pacman"@,
{
    assert(spec_prelude(g)[0] == "pacman"@);
}

proof fn lemma_tree_prelude_head(g: GlobalOpts)
    ensures
        spec_tree_prelude(g).len() > 0,
        spec_tree_prelude(g)[0] == "pactree"@,
{
    assert(spec_tree_prelude(g)[0] == "pactree"@);
}

pub proof fn lemma_program_name(cmd: SubCmd, g: GlobalOpts, terminal: bool, cli: Cli)
    requires
        generated(cmd, g, terminal, cli),
    ensures
        cli.cmd.deep_view().len() > 0,
        cli.cmd.deep_view()[0] == if cmd is Tree {
            "pactree"@
        } else {
            "pacman"@
        },
{
    lemma_prelude_head(g);
    lemma_tree_prelude_head(g);
}

/// Root privileges are demanded exactly for the mutating operations —
/// install, remove, upgrade, clean and pin — never for the read-only ones,
/// independent of every option value.
pub proof fn lemma_root_iff_mutating(cmd: SubCmd, g: GlobalOpts, terminal: bool, cli: Cli)
    requires
        generated(cmd, g, terminal, cli),
    ensures
        cli.root <==> (cmd is Install || cmd is Remove || cmd is Upgrade || cmd is Clean
            || cmd is Pin),
{
}

/// Generation is deterministic: two commands generated from the same
/// intent, the same options and the same terminal state carry identical
/// tokens and identical side-channels.
pub proof fn lemma_generation_deterministic(
    cmd: SubCmd,
    g: GlobalOpts,
    terminal: bool,
    a: Cli,
    b: Cli,
)
    requires
        generated(cmd, g, terminal, a),
        generated(cmd, g, terminal, b),
    ensures
        a.cmd.deep_view() == b.cmd.deep_view(),
        a.root == b.root,
        a.delegate == b.delegate,
{
}

/// The install rule: sync-install the packages, with quiet, download-only
/// and needed modifiers in this order.
fn install_rule(global: &GlobalOpts, terminal: bool, packages: Vec<String>, reinstall: bool, download: bool, aur: bool) -> (cli: Cli)
    ensures
        generated(
            SubCmd::Install { packages, reinstall, download, aur },
            *global,
            terminal,
            cli,
        ),
{
    let ghost c0 = SubCmd::Install { packages, reinstall, download, aur };
    let mut cli = pacman_prelude(global);
    cli.root = true;
    cli.delegate = aur;
    cli.arg("-S", true);
    cli.flag('q', global.quiet);
    cli.flag('w', download);
    cli.arg("--needed", !reinstall);
    cli.args(packages);
    proof {
        assert(cli.cmd.deep_view() =~~= spec_tokens(c0, *global, terminal));
    }
    cli
}

/// The remove rule: remove the packages, dropping configuration files and
/// orphaned dependencies unless told otherwise.
fn remove_rule(global: &GlobalOpts, terminal: bool, packages: Vec<String>, cascade: bool, keep_orphans: bool, explicit: bool, save: bool, no_aur: bool) -> (cli: Cli)
    ensures
        generated(
            SubCmd::Remove { packages, cascade, keep_orphans, explicit, save, no_aur },
            *global,
            terminal,
            cli,
        ),
{
    let ghost c0 = SubCmd::Remove { packages, cascade, keep_orphans, explicit, save, no_aur };
    let mut cli = pacman_prelude(global);
    cli.root = true;
    cli.delegate = !no_aur;
    cli.arg("-R", true);
    cli.flag('n', !save);
    cli.flag('s', !keep_orphans);
    cli.flag('s', explicit);
    cli.flag('c', cascade);
    cli.args(packages);
    proof {
        assert(cli.cmd.deep_view() =~~= spec_tokens(c0, *global, terminal));
    }
    cli
}

/// The upgrade rule: refresh the sync database and upgrade, unless one of
/// the two halves is switched off.  The conflicting combination is
/// rejected by the caller before this rule runs.
fn upgrade_rule(global: &GlobalOpts, terminal: bool, no_refresh: bool, refresh: bool, download: bool, no_aur: bool) -> (cli: Cli)
    requires
        !(no_refresh && refresh),
    ensures
        generated(
            SubCmd::Upgrade { no_refresh, refresh, download, no_aur },
            *global,
            terminal,
            cli,
        ),
{
    let ghost c0 = SubCmd::Upgrade { no_refresh, refresh, download, no_aur };
    let mut cli = pacman_prelude(global);
    cli.root = true;
    cli.delegate = !no_aur;
    cli.arg("-S", true);
    cli.flag('q', global.quiet);
    cli.flag('w', download);
    cli.flag('y', !no_refresh);
    cli.flag('u', !refresh);
    proof {
        assert(cli.cmd.deep_view() =~~= spec_tokens(c0, *global, terminal));
    }
    cli
}

/// The clean rule: clean the caches, including installed packages when
/// asked for a full clean.
fn clean_rule(global: &GlobalOpts, terminal: bool, all: bool, no_aur: bool) -> (cli: Cli)
    ensures
        generated(SubCmd::Clean { all, no_aur }, *global, terminal, cli),
{
    let ghost c0 = SubCmd::Clean { all, no_aur };
    let mut cli = pacman_prelude(global);
    cli.root = true;
    cli.delegate = !no_aur;
    cli.arg("-Sc", true);
    cli.flag('c', all);
    proof {
        assert(cli.cmd.deep_view() =~~= spec_tokens(c0, *global, terminal));
    }
    cli
}

/// The search rule: query the sync databases, or the installed packages
/// when asked.
fn search_rule(global: &GlobalOpts, terminal: bool, queries: Vec<String>, installed: bool, aur: bool) -> (cli: Cli)
    ensures
        generated(SubCmd::Search { queries, installed, aur }, *global, terminal, cli),
{
    let ghost c0 = SubCmd::Search { queries, installed, aur };
    let mut cli = pacman_prelude(global);
    cli.delegate = aur;
    cli.arg(if installed { "-Qs" } else { "-Ss" }, true);
    cli.flag('q', global.quiet);
    cli.args(queries);
    proof {
        assert(cli.cmd.deep_view() =~~= spec_tokens(c0, *global, terminal));
    }
    cli
}

/// The list rule: list installed packages, narrowed by the given filters
/// in a fixed order.
fn list_rule(global: &GlobalOpts, terminal: bool, explicit: bool, deps: bool, free: bool, sync: bool, no_sync: bool, upgrades: bool) -> (cli: Cli)
    ensures
        generated(
            SubCmd::List { explicit, deps, free, sync, no_sync, upgrades },
            *global,
            terminal,
            cli,
        ),
{
    let ghost c0 = SubCmd::List { explicit, deps, free, sync, no_sync, upgrades };
    let mut cli = pacman_prelude(global);
    cli.arg("-Q", true);
    cli.flag('q', global.quiet);
    cli.flag('e', explicit);
    cli.flag('d', deps);
    cli.flag('m', no_sync);
    cli.flag('n', sync);
    cli.flag('t', free);
    cli.flag('u', upgrades);
    proof {
        assert(cli.cmd.deep_view() =~~= spec_tokens(c0, *global, terminal));
    }
    cli
}

/// The file-owner rule: find the packages owning the given files, in the
/// local database or — with regex filtering if asked — the sync databases.
fn which_rule(global: &GlobalOpts, terminal: bool, files: Vec<String>, sync: bool, aur: bool, regex: bool) -> (cli: Cli)
    ensures
        generated(SubCmd::Which { files, sync, aur, regex }, *global, terminal, cli),
{
    let ghost c0 = SubCmd::Which { files, sync, aur, regex };
    let mut cli = pacman_prelude(global);
    cli.delegate = aur;
    cli.arg(if sync { "-F" } else { "-Qo" }, true);
    cli.flag('x', regex);
    cli.flag('q', global.quiet);
    cli.args(files);
    proof {
        assert(cli.cmd.deep_view() =~~= spec_tokens(c0, *global, terminal));
    }
    cli
}

/// The view rule: display information about packages from the chosen
/// database, with the extra-information toggles in a fixed order.
fn view_rule(global: &GlobalOpts, terminal: bool, packages: Vec<String>, sync: bool, package_file: bool, more: bool, files: bool, changelog: bool) -> (cli: Cli)
    ensures
        generated(
            SubCmd::View { packages, sync, package_file, more, files, changelog },
            *global,
            terminal,
            cli,
        ),
{
    let ghost c0 = SubCmd::View { packages, sync, package_file, more, files, changelog };
    let mut cli = pacman_prelude(global);
    cli.arg(
        if sync && !files {
            "-S"
        } else if sync && files {
            "-F"
        } else {
            "-Q"
        },
        true,
    );
    cli.flag('q', global.quiet);
    cli.flag('p', package_file);
    cli.flag('c', changelog);
    cli.flag('l', files);
    cli.flag('i', !(changelog && files));
    cli.flag('i', more);
    cli.args(packages);
    proof {
        assert(cli.cmd.deep_view() =~~= spec_tokens(c0, *global, terminal));
    }
    cli
}

/// The dependency-tree rule: run the secondary program on one package,
/// with the combined-flag token discarded if no flag character was added.
fn tree_rule(global: &GlobalOpts, terminal: bool, package: String, ascii: bool, depth: Option<u32>, depth_optional: Option<u32>, reverse: bool) -> (cli: Cli)
    ensures
        generated(
            SubCmd::Tree { package, ascii, depth, depth_optional, reverse },
            *global,
            terminal,
            cli,
        ),
{
    let ghost c0 = SubCmd::Tree { package, ascii, depth, depth_optional, reverse };
    let ghost pkg = package@;
    let mut cli = pactree_prelude(global);
    let color = match global.color {
        Some(ColorMode::Always) => true,
        Some(ColorMode::Never) => false,
        _ => terminal,
    };
    cli.arg("-", true);
    cli.flag('a', ascii);
    cli.flag('c', color);
    cli.flag('r', reverse);
    if !(ascii || color || reverse) {
        // the combined-flag token received no characters: discard the
        // bare marker instead of emitting it
        cli.cmd.pop();
    }
    proof {
        assert(cli.cmd.deep_view() =~~= spec_tree_prelude(*global) + spec_tree_flags(
            ascii,
            spec_color_on(global.color, terminal),
            reverse,
        ));
    }
    let depth_s = decimal_opt(&depth);
    cli.arg_opt("-d", &depth_s);
    let depth_optional_s = decimal_opt(&depth_optional);
    cli.arg_opt("--optional", &depth_optional_s);
    let mut subject: Vec<String> = Vec::new();
    subject.push(package);
    proof {
        assert(subject.deep_view() =~~= seq![pkg]);
    }
    cli.args(subject);
    proof {
        assert(cli.cmd.deep_view() =~~= spec_tokens(c0, *global, terminal));
    }
    cli
}

/// The pin rule: change the packages' install reason to explicit, or back
/// to dependency when asked.
fn pin_rule(global: &GlobalOpts, terminal: bool, packages: Vec<String>, remove: bool) -> (cli: Cli)
    ensures
        generated(SubCmd::Pin { packages, remove }, *global, terminal, cli),
{
    let ghost c0 = SubCmd::Pin { packages, remove };
    let mut cli = pacman_prelude(global);
    cli.root = true;
    cli.arg("-D", true);
    cli.flag('q', global.quiet);
    cli.arg("--asexplicit", !remove);
    cli.arg("--asdeps", remove);
    cli.args(packages);
    proof {
        assert(cli.cmd.deep_view() =~~= spec_tokens(c0, *global, terminal));
    }
    cli
}

impl SubCmd {
    /// Generates the underlying command for this intent: the exact argument
    /// vector (program name first), whether root privileges are required to
    /// run it, and whether it should be delegated to the AUR helper.
    ///
    /// `terminal` reports whether standard output is attached to a
    /// terminal; it only influences the dependency-tree command's
    /// automatic color mode.  The one option combination the argument
    /// parser cannot reject — upgrade with both the refresh-only and the
    /// no-refresh modifier — is rejected here, and no command is produced
    /// for it.
    pub fn generate_command(self, global: &GlobalOpts, terminal: bool) -> (r: Result<Cli, GenError>)
        ensures
            r is Err <==> spec_incompatible(self),
            r matches Ok(cli) ==> generated(self, *global, terminal, cli),
            r matches Err(e) ==> e == GenError::RefreshConflict,
    {
        match self {
            SubCmd::Install { packages, reinstall, download, aur } => Ok(
                install_rule(global, terminal, packages, reinstall, download, aur),
            ),
            SubCmd::Remove { packages, cascade, keep_orphans, explicit, save, no_aur } => Ok(
                remove_rule(global, terminal, packages, cascade, keep_orphans, explicit, save, no_aur),
            ),
            SubCmd::Upgrade { no_refresh, refresh, download, no_aur } => {
                if refresh && no_refresh {
                    Err(GenError::RefreshConflict)
                } else {
                    Ok(upgrade_rule(global, terminal, no_refresh, refresh, download, no_aur))
                }
            },
            SubCmd::Clean { all, no_aur } => Ok(clean_rule(global, terminal, all, no_aur)),
            SubCmd::Search { queries, installed, aur } => Ok(
                search_rule(global, terminal, queries, installed, aur),
            ),
            SubCmd::List { explicit, deps, free, sync, no_sync, upgrades } => Ok(
                list_rule(global, terminal, explicit, deps, free, sync, no_sync, upgrades),
            ),
            SubCmd::Which { files, sync, aur, regex } => Ok(
                which_rule(global, terminal, files, sync, aur, regex),
            ),
            SubCmd::View { packages, sync, package_file, more, files, changelog } => Ok(
                view_rule(global, terminal, packages, sync, package_file, more, files, changelog),
            ),
            SubCmd::Tree { package, ascii, depth, depth_optional, reverse } => Ok(
                tree_rule(global, terminal, package, ascii, depth, depth_optional, reverse),
            ),
            SubCmd::Pin { packages, remove } => Ok(pin_rule(global, terminal, packages, remove)),
        }
    }
}

} // verus!

