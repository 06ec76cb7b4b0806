//! The argument accumulator.
//!
//! A [`Cli`] value collects the tokens of one command invocation in order:
//! the program name first, then flags and positional arguments.  Beside the
//! tokens it carries two booleans: whether the finished command needs root
//! privileges and whether it should be delegated to an AUR helper program.
//! Tokens are only ever appended; the generation rules alone decide the
//! order in which the primitives are called.

use vstd::prelude::*;
use vstd::string::StringExecFns;

verus! {

/// The token sequence a conditional argument contributes: the token itself
/// when `guard` holds, nothing otherwise.
pub open spec fn tok_if(t: Seq<char>, guard: bool) -> Seq<Seq<char>> {
    if guard {
        seq![t]
    } else {
        seq![]
    }
}

/// The characters a conditional flag contributes to a combined-flag token:
/// the single character when `guard` holds, nothing otherwise.
pub open spec fn ch_if(c: char, guard: bool) -> Seq<char> {
    if guard {
        seq![c]
    } else {
        seq![]
    }
}

/// The token sequence a valued option contributes: the option name followed
/// by the value when one is present, nothing otherwise.
pub open spec fn opt_tokens(name: Seq<char>, value: Option<Seq<char>>) -> Seq<Seq<char>> {
    match value {
        Some(v) => seq![name, v],
        None => seq![],
    }
}

/// The tokens of a command rendered as one diagnostic line: the tokens in
/// order, separated by single spaces.
pub open spec fn spec_joined(toks: Seq<Seq<char>>) -> Seq<char>
    decreases toks.len(),
{
    if toks.len() == 0 {
        Seq::empty()
    } else if toks.len() == 1 {
        toks[0]
    } else {
        spec_joined(toks.drop_last()) + " "@ + toks.last()
    }
}

/// A sequence that ends in a known element splits back into its parts.
pub broadcast proof fn lemma_snoc_parts<A>(s: Seq<A>, x: A)
    ensures
        #[trigger] (s + seq![x]).drop_last() == s,
        (s + seq![x]).last() == x,
{
    assert((s + seq![x]).drop_last() =~= s);
}

/// Relies on `String::push`: appends the given character to the end of the
/// string.
#[verifier::external_body]
fn push_char(s: &mut String, c: char)
    ensures
        final(s)@ == old(s)@.push(c),
{
    s.push(c);
}

/// Ordered accumulator for the tokens of one command invocation.
///
/// `cmd` holds the tokens, program name first.  `root` records that the
/// command mutates system state and therefore needs elevated privileges;
/// `delegate` records that it should be handed to the configured AUR helper
/// instead of the base program.
#[derive(Debug)]
pub struct Cli {
    pub cmd: Vec<String>,
    pub root: bool,
    pub delegate: bool,
}

impl Cli {
    /// A fresh accumulator holding only the program name, with both
    /// side-channels cleared.
    pub fn new(base: &str) -> (cli: Cli)
        ensures
            cli.cmd.deep_view() == seq![base@],
            !cli.root,
            !cli.delegate,
    {
        let mut cmd: Vec<String> = Vec::new();
        cmd.push(base.to_owned());
        proof {
            assert(cmd.deep_view() =~~= seq![base@]);
        }
        Cli { cmd, root: false, delegate: false }
    }

    /// Appends the character `f` to the last token (the combined-flag token
    /// under construction) when `guard` holds.
    ///
    /// Calling this on an empty accumulator would be a programming error, so
    /// a non-empty accumulator is demanded up front.
    pub fn flag(&mut self, f: char, guard: bool)
        requires
            old(self).cmd.deep_view().len() > 0,
        ensures
            final(self).root == old(self).root,
            final(self).delegate == old(self).delegate,
            final(self).cmd.deep_view() == old(self).cmd.deep_view().drop_last() + seq![
                old(self).cmd.deep_view().last() + ch_if(f, guard),
            ],
    {
        proof {
            assert(self.cmd@.len() == self.cmd.deep_view().len());
        }
        if guard {
            let i: usize = self.cmd.len() - 1;
            push_char(&mut self.cmd[i], f);
        }
        proof {
            assert(self.cmd.deep_view() =~~= old(self).cmd.deep_view().drop_last() + seq![
                old(self).cmd.deep_view().last() + ch_if(f, guard),
            ]);
        }
    }

    /// Appends the token `a` when `guard` holds.
    pub fn arg(&mut self, a: &str, guard: bool)
        ensures
            final(self).root == old(self).root,
            final(self).delegate == old(self).delegate,
            final(self).cmd.deep_view() == old(self).cmd.deep_view() + tok_if(a@, guard),
    {
        if guard {
            self.cmd.push(a.to_owned());
        }
        proof {
            assert(self.cmd.deep_view() =~~= old(self).cmd.deep_view() + tok_if(a@, guard));
        }
    }

    /// Appends the option name `a` and the value as two separate tokens when
    /// a value is present.
    pub fn arg_opt(&mut self, a: &str, value: &Option<String>)
        ensures
            final(self).root == old(self).root,
            final(self).delegate == old(self).delegate,
            final(self).cmd.deep_view() == old(self).cmd.deep_view() + opt_tokens(
                a@,
                value.deep_view(),
            ),
    {
        match value {
            Some(v) => {
                self.cmd.push(a.to_owned());
                self.cmd.push(v.clone());
            },
            None => {},
        }
        proof {
            assert(self.cmd.deep_view() =~~= old(self).cmd.deep_view() + opt_tokens(
                a@,
                value.deep_view(),
            ));
        }
    }

    /// Renders the accumulated command as a single space-joined line, for
    /// the diagnostic mode that prints the command instead of running it.
    pub fn joined(&self) -> (line: String)
        ensures
            line@ == spec_joined(self.cmd.deep_view()),
    {
        let ghost toks = self.cmd.deep_view();
        let mut line = String::new();
        let mut i: usize = 0;
        proof {
            assert(self.cmd@.len() == toks.len());
        }
        while i < self.cmd.len()
            invariant
                i <= self.cmd@.len(),
                self.cmd@.len() == toks.len(),
                toks == self.cmd.deep_view(),
                line@ == spec_joined(toks.take(i as int)),
            decreases self.cmd@.len() - i,
        {
            if i > 0 {
                line.append(" ");
            }
            line.append(self.cmd[i].as_str());
            proof {
                assert(toks[i as int] == self.cmd@[i as int]@);
                assert(toks.take(i + 1).drop_last() =~= toks.take(i as int));
                assert(toks.take(i + 1).last() == toks[i as int]);
                assert(line@ == spec_joined(toks.take(i + 1)));
            }
            i = i + 1;
        }
        proof {
            assert(toks.take(toks.len() as int) =~= toks);
        }
        line
    }

    /// Appends a whole sequence of tokens, preserving their order.
    pub fn args(&mut self, args: Vec<String>)
        ensures
            final(self).root == old(self).root,
            final(self).delegate == old(self).delegate,
            final(self).cmd.deep_view() == old(self).cmd.deep_view() + args.deep_view(),
    {
        let ghost toks = args.deep_view();
        let mut rest = args;
        self.cmd.append(&mut rest);
        proof {
            assert(self.cmd.deep_view() =~~= old(self).cmd.deep_view() + toks);
        }
    }
}

} // verus!
