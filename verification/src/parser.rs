//! The command grammar: one line of raw input either denotes a `Command` or
//! is structurally incomplete and denotes none, in which case a diagnostic
//! is owed instead.
//!
//! The line is cut on single space characters. The first token picks the
//! command; `pick` and `remove` need a second token (the name) and `add`
//! needs a second and a third (name and content). Only those tokens are
//! read: anything after the last required token is ignored, so content
//! containing a space is cut short at the space — a documented limitation
//! of the grammar, kept as it is. Tokens are not trimmed or validated.

use vstd::prelude::*;
use crate::command::{Command, CommandView};
use crate::text::{find_space, lemma_space_after_bounds, space_after, str_eq, token_from};

verus! {

/// The first token of the line: everything before the first space.
pub open spec fn first_token(s: Seq<char>) -> Seq<char> {
    s.subrange(0, space_after(s, 0))
}

/// Whether a second token exists, that is, whether the line has a first
/// space at all.
pub open spec fn has_second_token(s: Seq<char>) -> bool {
    space_after(s, 0) < s.len()
}

/// Where the second token starts: right after the first space.
pub open spec fn second_token_start(s: Seq<char>) -> int {
    space_after(s, 0) + 1
}

/// The second token of the line.
pub open spec fn second_token(s: Seq<char>) -> Seq<char> {
    s.subrange(second_token_start(s), space_after(s, second_token_start(s)))
}

/// Whether a third token exists: a second space, with the second token
/// before it.
pub open spec fn has_third_token(s: Seq<char>) -> bool {
    has_second_token(s) && space_after(s, second_token_start(s)) < s.len()
}

/// Where the third token starts: right after the second space.
pub open spec fn third_token_start(s: Seq<char>) -> int {
    space_after(s, second_token_start(s)) + 1
}

/// The third token of the line.
pub open spec fn third_token(s: Seq<char>) -> Seq<char> {
    s.subrange(third_token_start(s), space_after(s, third_token_start(s)))
}

/// What one line of input denotes: `Some` command, or `None` where a
/// required argument is missing.
pub open spec fn spec_parse(s: Seq<char>) -> Option<CommandView> {
    let t0 = first_token(s);
    if t0 == "help"@ {
        Some(CommandView::Help)
    } else if t0 == "list"@ {
        Some(CommandView::List)
    } else if t0 == "pick"@ {
        if has_second_token(s) {
            Some(CommandView::Pick(second_token(s)))
        } else {
            None
        }
    } else if t0 == "remove"@ {
        if has_second_token(s) {
            Some(CommandView::Remove(second_token(s)))
        } else {
            None
        }
    } else if t0 == "add"@ {
        if has_second_token(s) {
            if has_third_token(s) {
                Some(CommandView::Add(second_token(s), third_token(s)))
            } else {
                None
            }
        } else {
            None
        }
    } else {
        Some(CommandView::Invalid)
    }
}

/// The diagnostic owed for a line that denotes no command, and `None` for
/// every line that denotes one.
pub open spec fn spec_parse_diagnostic(s: Seq<char>) -> Option<Seq<char>> {
    let t0 = first_token(s);
    if t0 == "help"@ {
        None
    } else if t0 == "list"@ {
        None
    } else if t0 == "pick"@ {
        if has_second_token(s) {
            None
        } else {
            Some("Invalid pick command"@)
        }
    } else if t0 == "remove"@ {
        if has_second_token(s) {
            None
        } else {
            Some("Invalid remove command"@)
        }
    } else if t0 == "add"@ {
        if has_second_token(s) {
            if has_third_token(s) {
                None
            } else {
                Some("Invalid ENV file"@)
            }
        } else {
            Some("Invalid add statement"@)
        }
    } else {
        None
    }
}

/// Turns one line of raw input into the command it denotes, or `None` where
/// a required argument is missing.
pub fn parse_command(stmt: &str) -> (r: Option<Command>)
    ensures
        r.deep_view() == spec_parse(stmt@),
{
    let n: usize = stmt.unicode_len();
    let sp1: usize = find_space(stmt, 0);
    proof {
        lemma_space_after_bounds(stmt@, 0);
    }
    let first = stmt.substring_char(0, sp1);
    if str_eq(first, "help") {
        Some(Command::Help)
    } else if str_eq(first, "list") {
        Some(Command::List)
    } else if str_eq(first, "pick") {
        if sp1 < n {
            Some(Command::Pick(token_from(stmt, sp1 + 1)))
        } else {
            None
        }
    } else if str_eq(first, "remove") {
        if sp1 < n {
            Some(Command::Remove(token_from(stmt, sp1 + 1)))
        } else {
            None
        }
    } else if str_eq(first, "add") {
        if sp1 < n {
            let sp2: usize = find_space(stmt, sp1 + 1);
            proof {
                lemma_space_after_bounds(stmt@, sp1 as int + 1);
            }
            if sp2 < n {
                let name = stmt.substring_char(sp1 + 1, sp2);
                let content = token_from(stmt, sp2 + 1);
                Some(Command::Add(String::from_str(name), content))
            } else {
                None
            }
        } else {
            None
        }
    } else {
        Some(Command::Invalid)
    }
}

/// The diagnostic for a line that denotes no command: exactly the lines on
/// which `parse_command` returns `None` get `Some` message here.
pub fn parse_diagnostic(stmt: &str) -> (r: Option<String>)
    ensures
        r.deep_view() == spec_parse_diagnostic(stmt@),
        r is Some <==> spec_parse(stmt@) is None,
{
    let n: usize = stmt.unicode_len();
    let sp1: usize = find_space(stmt, 0);
    proof {
        lemma_space_after_bounds(stmt@, 0);
    }
    let first = stmt.substring_char(0, sp1);
    if str_eq(first, "help") {
        None
    } else if str_eq(first, "list") {
        None
    } else if str_eq(first, "pick") {
        if sp1 < n {
            None
        } else {
            Some(String::from_str("Invalid pick command"))
        }
    } else if str_eq(first, "remove") {
        if sp1 < n {
            None
        } else {
            Some(String::from_str("Invalid remove command"))
        }
    } else if str_eq(first, "add") {
        if sp1 < n {
            let sp2: usize = find_space(stmt, sp1 + 1);
            proof {
                lemma_space_after_bounds(stmt@, sp1 as int + 1);
            }
            if sp2 < n {
                None
            } else {
                Some(String::from_str("Invalid ENV file"))
            }
        } else {
            Some(String::from_str("Invalid add statement"))
        }
    } else {
        None
    }
}

} // verus!
