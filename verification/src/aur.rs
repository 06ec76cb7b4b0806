//! Delegation to an AUR helper program.
//!
//! When a generated command asks for delegation and a helper program is
//! configured, the command's first token — the program name — is rewritten
//! to the helper's name while every other token stays as it is.

use crate::cli::Cli;
use vstd::prelude::*;

verus! {

/// The delegated form of a generated command: when the command asks for
/// delegation and a helper program is configured, its first token is
/// replaced by the helper's name; otherwise the command stays as it is.
pub open spec fn spec_delegated(
    toks: Seq<Seq<char>>,
    delegate: bool,
    helper: Option<Seq<char>>,
) -> Seq<Seq<char>> {
    match helper {
        Some(h) => {
            if delegate {
                toks.update(0, h)
            } else {
                toks
            }
        },
        None => toks,
    }
}

/// A rewrite of a generated command towards an AUR helper.
pub trait Aur {
    /// The name the command's program token is rewritten to.
    spec fn helper_name(&self) -> Seq<char>;

    /// Replaces the command's first token with [`Self::helper_name`],
    /// leaving all other tokens and both side-channels unchanged.
    fn transform(&self, cli: &mut Cli)
        requires
            old(cli).cmd.deep_view().len() > 0,
        ensures
            final(cli).cmd.deep_view() == old(cli).cmd.deep_view().update(0, self.helper_name()),
            final(cli).root == old(cli).root,
            final(cli).delegate == old(cli).delegate,
    ;
}

/// Delegation that swaps the program name for the configured helper and
/// forwards every argument token untouched.
pub struct AurPassthrough<'a>(pub &'a str);

/// Rewrites the command for the configured AUR helper when it asks for
/// delegation.  With no helper configured, delegation is silently ignored
/// and the base program is kept: delegation is an optional enhancement,
/// not an error.
pub fn apply_delegation(cli: &mut Cli, helper: &Option<String>)
    requires
        old(cli).cmd.deep_view().len() > 0,
    ensures
        final(cli).cmd.deep_view() == spec_delegated(
            old(cli).cmd.deep_view(),
            old(cli).delegate,
            helper.deep_view(),
        ),
        final(cli).root == old(cli).root,
        final(cli).delegate == old(cli).delegate,
{
    if cli.delegate {
        if let Some(h) = helper {
            AurPassthrough(h.as_str()).transform(cli);
        }
    }
}

impl<'a> Aur for AurPassthrough<'a> {
    open spec fn helper_name(&self) -> Seq<char> {
        self.0@
    }

    fn transform(&self, cli: &mut Cli) {
        proof {
            assert(cli.cmd@.len() == cli.cmd.deep_view().len());
        }
        cli.cmd[0] = self.0.to_owned();
        proof {
            assert(cli.cmd.deep_view() =~~= old(cli).cmd.deep_view().update(
                0,
                self.helper_name(),
            ));
        }
    }
}

} // verus!
