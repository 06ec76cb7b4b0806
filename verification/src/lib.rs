//! Command-generation engine for a pacman front end.
//!
//! The library maps a validated operation (a [`subcmd::SubCmd`] value) and a
//! snapshot of the global options ([`GlobalOpts`]) to the exact argument
//! vector of the underlying package-manager invocation, and decides whether
//! the invocation needs root privileges and whether it should be delegated to
//! a configured AUR helper program.

use vstd::prelude::*;

pub mod aur;
pub mod cli;
pub mod subcmd;

verus! {

/// How the underlying programs should colorize their output.
#[derive(Clone, Copy, Debug, PartialEq, Eq, Structural)]
pub enum ColorMode {
    Auto,
    Always,
    Never,
}

/// Immutable snapshot of the global command-line options.
///
/// One value is built per invocation and read by every generation rule;
/// `None` in `color` means the user left the color mode unspecified.
#[derive(Clone, Debug)]
pub struct GlobalOpts {
    /// Pass `--debug` through to the underlying program.
    pub debug: bool,
    /// Print the underlying command instead of performing it (`--print`).
    pub simulate: bool,
    /// Ask the underlying program for terse output.
    pub quiet: bool,
    /// Skip the underlying program's confirmation prompts (`--noconfirm`).
    pub yes: bool,
    /// Requested color mode, if any was given.
    pub color: Option<ColorMode>,
    /// Alternate configuration file.
    pub config: Option<String>,
    /// Alternate database path.
    pub dbpath: Option<String>,
    /// Alternate GnuPG directory.
    pub gpgdir: Option<String>,
    /// Name of the AUR helper program commands may be delegated to.
    pub aur_helper: Option<String>,
}

} // verus!
