//! Character-level helpers shared by the parser and the store: locating
//! spaces, extracting tokens and comparing strings, each against a spec
//! function over the string's character sequence.

use vstd::prelude::*;

verus! {

/// Index of the first space character of `s` at or after `from`, or the
/// length of `s` if there is none.
pub open spec fn space_after(s: Seq<char>, from: int) -> int
    recommends
        0 <= from <= s.len(),
    decreases s.len() - from,
{
    if from < 0 || from >= s.len() {
        s.len() as int
    } else if s[from] == ' ' {
        from
    } else {
        space_after(s, from + 1)
    }
}

/// `space_after` stays within the string, and where it stops short of the
/// end it points at a space.
pub proof fn lemma_space_after_bounds(s: Seq<char>, from: int)
    requires
        0 <= from <= s.len(),
    ensures
        from <= space_after(s, from) <= s.len(),
        space_after(s, from) < s.len() ==> s[space_after(s, from)] == ' ',
    decreases s.len() - from,
{
    if from < s.len() && s[from] != ' ' {
        lemma_space_after_bounds(s, from + 1);
    }
}

/// Finds the first space at or after `from`, scanning one character at a
/// time.
pub fn find_space(s: &str, from: usize) -> (j: usize)
    requires
        from <= s@.len(),
    ensures
        j == space_after(s@, from as int),
{
    let n: usize = s.unicode_len();
    let mut i: usize = from;
    while i < n
        invariant
            from <= i <= n,
            n == s@.len(),
            space_after(s@, from as int) == space_after(s@, i as int),
        decreases n - i,
    {
        if s.get_char(i) == ' ' {
            return i;
        }
        i = i + 1;
    }
    n
}

/// Character-by-character string equality.
pub fn str_eq(a: &str, b: &str) -> (r: bool)
    ensures
        r == (a@ == b@),
{
    let na: usize = a.unicode_len();
    let nb: usize = b.unicode_len();
    if na != nb {
        return false;
    }
    let mut i: usize = 0;
    while i < na
        invariant
            i <= na,
            na == a@.len(),
            na == b@.len(),
            forall|k: int| 0 <= k < i ==> a@[k] == b@[k],
        decreases na - i,
    {
        if a.get_char(i) != b.get_char(i) {
            return false;
        }
        i = i + 1;
    }
    proof {
        assert(a@ =~= b@);
    }
    true
}

/// The token of `s` that starts at `start`: everything up to the next space
/// or the end of the string.
pub fn token_from(s: &str, start: usize) -> (t: String)
    requires
        start <= s@.len(),
    ensures
        t@ == s@.subrange(start as int, space_after(s@, start as int)),
{
    let e: usize = find_space(s, start);
    proof {
        lemma_space_after_bounds(s@, start as int);
    }
    let piece = s.substring_char(start, e);
    String::from_str(piece)
}

} // verus!
