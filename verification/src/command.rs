//! The closed set of commands a line of input can denote, together with its
//! mathematical value: the same variants over character sequences.

use vstd::prelude::*;
use crate::text::str_eq;

verus! {

/// A parsed user command. The payloads are the raw tokens of the input line:
/// names are kept verbatim, and in the content of `Add` an embedded newline
/// is written as the two characters backslash and `n`.
#[derive(Debug)]
pub enum Command {
    Help,
    Invalid,
    Pick(String),
    List,
    Add(String, String),
    Remove(String),
}

/// The value of a `Command` in specifications.
pub enum CommandView {
    Help,
    Invalid,
    Pick(Seq<char>),
    List,
    Add(Seq<char>, Seq<char>),
    Remove(Seq<char>),
}

impl View for Command {
    type V = CommandView;

    open spec fn view(&self) -> CommandView {
        match self {
            Command::Help => CommandView::Help,
            Command::Invalid => CommandView::Invalid,
            Command::Pick(name) => CommandView::Pick(name@),
            Command::List => CommandView::List,
            Command::Add(name, content) => CommandView::Add(name@, content@),
            Command::Remove(name) => CommandView::Remove(name@),
        }
    }
}

impl DeepView for Command {
    type V = CommandView;

    open spec fn deep_view(&self) -> CommandView {
        self@
    }
}

impl PartialEq for Command {
    fn eq(&self, other: &Command) -> (r: bool) {
        match (self, other) {
            (Command::Help, Command::Help) => true,
            (Command::Invalid, Command::Invalid) => true,
            (Command::List, Command::List) => true,
            (Command::Pick(a), Command::Pick(b)) => str_eq(a.as_str(), b.as_str()),
            (Command::Remove(a), Command::Remove(b)) => str_eq(a.as_str(), b.as_str()),
            (Command::Add(a, c), Command::Add(b, d)) => (
                str_eq(a.as_str(), b.as_str()) && str_eq(c.as_str(), d.as_str())
            ),
            _ => false,
        }
    }
}

impl vstd::std_specs::cmp::PartialEqSpecImpl for Command {
    open spec fn obeys_eq_spec() -> bool {
        true
    }

    open spec fn eq_spec(&self, other: &Command) -> bool {
        self@ == other@
    }
}

} // verus!
