//! The entry point's decision: which lines one invocation writes.
//!
//! Reading the process arguments and writing to standard output are left to
//! the caller. What lies between is here: from the argument list to the lines
//! of output, in order.

use vstd::prelude::*;
use crate::greeter::{greet, greeting};

verus! {

/// The usage hint, written when no name was given.
pub open spec fn usage_line() -> Seq<char> {
    "Usage: appa [name]"@
}

/// The name that an argument list carries: its first entry after the program
/// name, if there is one. Later entries are not looked at.
pub open spec fn name_argument(args: Seq<Seq<char>>) -> Option<Seq<char>> {
    if args.len() > 1 {
        Some(args[1])
    } else {
        None
    }
}

/// The lines of output for an argument list, program name first.
///
/// With a name: its greeting, and nothing else. Without one: the greeting for
/// an absent name, then the usage hint.
pub open spec fn output(args: Seq<Seq<char>>) -> Seq<Seq<char>> {
    match name_argument(args) {
        Some(n) => seq![greeting(Some(n))],
        None => seq![greeting(None), usage_line()],
    }
}

/// Computes the lines that an invocation with the arguments `args` writes.
///
/// `args` is the whole argument list, the program name at its head. There is
/// no argument list for which this fails.
///
/// The first clause is the whole contract. The other two say the same line by
/// line, so that a caller who looks at `lines@` need not unfold the deep view.
pub fn output_lines(args: &[String]) -> (lines: Vec<String>)
    ensures
        lines.deep_view() == output(args.deep_view()),
        lines@.len() == output(args.deep_view()).len(),
        forall|i: int|
            0 <= i < lines@.len() ==> (#[trigger] lines@[i])@ == output(args.deep_view())[i],
{
    let mut lines: Vec<String> = Vec::new();
    if args.len() > 1 {
        lines.push(greet(Some(args[1].as_str())));
    } else {
        lines.push(greet(None));
        lines.push(String::from_str("Usage: appa [name]"));
    }
    assert(lines.deep_view() =~= output(args.deep_view()));
    lines
}

/// Only the name counts: two argument lists that carry the same name, or
/// both none, produce the same lines, whatever the program was called and
/// whatever follows the name.
pub proof fn lemma_output_depends_on_name(first: Seq<Seq<char>>, second: Seq<Seq<char>>)
    requires
        name_argument(first) == name_argument(second),
    ensures
        output(first) == output(second),
{
}

/// Repeating an invocation changes nothing: argument lists that hold the same
/// texts produce the same lines. No state outlives a call.
pub proof fn lemma_output_repeatable(first: &[String], second: &[String])
    requires
        first.deep_view() == second.deep_view(),
    ensures
        output(first.deep_view()) == output(second.deep_view()),
{
}

} // verus!
