//! The store: a directory of flat files, one per environment, whose names
//! are the user-supplied names taken verbatim. This module holds everything
//! about the store that is computed rather than performed: the encoding of
//! a content token into the file text, the path of an entry, and a
//! mathematical model of the directory against which the store's laws are
//! stated. The file system calls themselves live outside the library and
//! report their outcomes back as plain values.

use vstd::prelude::*;

verus! {

/// The file text that storing `s` produces: `s` with every two-character
/// escape backslash-`n` replaced by a newline, one more newline at the end.
///
/// This is the splitting of the content token on the escape, each segment
/// written as a newline-terminated line: escapes are found left to right
/// and do not overlap, and a lone backslash, or one before any other
/// character, stands for itself.
pub open spec fn spec_encode(s: Seq<char>) -> Seq<char>
    decreases s.len(),
{
    if s.len() >= 2 && s[0] == '\\' && s[1] == 'n' {
        seq!['\n'] + spec_encode(s.skip(2))
    } else if s.len() >= 1 {
        seq![s[0]] + spec_encode(s.skip(1))
    } else {
        seq!['\n']
    }
}

/// Builds the file text for a content token, per `spec_encode`.
pub fn encode_content(content: &str) -> (r: String)
    ensures
        r@ == spec_encode(content@),
{
    let n: usize = content.unicode_len();
    let mut out = String::new();
    let mut i: usize = 0;
    proof {
        assert(content@.skip(0) =~= content@);
        assert(Seq::<char>::empty() + spec_encode(content@) =~= spec_encode(content@));
    }
    while i < n
        invariant
            i <= n,
            n == content@.len(),
            spec_encode(content@) == out@ + spec_encode(content@.skip(i as int)),
        decreases n - i,
    {
        let c = content.get_char(i);
        if c == '\\' && i + 1 < n && content.get_char(i + 1) == 'n' {
            out.append("\n");
            proof {
                reveal_strlit("\n");
                assert("\n"@ =~= seq!['\n']);
                assert(content@.skip(i as int).skip(2) =~= content@.skip(i as int + 2));
            }
            i = i + 2;
        } else {
            let piece = content.substring_char(i, i + 1);
            out.append(piece);
            proof {
                assert(content@.subrange(i as int, i as int + 1) =~= seq![content@[i as int]]);
                assert(content@.skip(i as int).skip(1) =~= content@.skip(i as int + 1));
            }
            i = i + 1;
        }
    }
    out.append("\n");
    proof {
        reveal_strlit("\n");
        assert("\n"@ =~= seq!['\n']);
        assert(content@.skip(n as int) =~= Seq::<char>::empty());
    }
    out
}

/// The directory that holds the store's entries.
pub open spec fn store_dir_text() -> Seq<char> {
    "envs"@
}

/// The path of the entry for `name`: the store directory, a slash, and the
/// name verbatim. Nothing is checked of the name; a name holding a path
/// separator flows through unchanged: a deliberate simplicity trade-off.
pub open spec fn spec_entry_path(name: Seq<char>) -> Seq<char> {
    "envs/"@ + name
}

/// The store's directory name, for creating and enumerating it.
pub fn store_dir() -> (r: String)
    ensures
        r@ == store_dir_text(),
{
    String::from_str("envs")
}

/// The path of the entry for `name`.
pub fn entry_path(name: &str) -> (r: String)
    ensures
        r@ == spec_entry_path(name@),
{
    let mut out = String::from_str("envs/");
    out.append(name);
    out
}

/// A model of the store between commands: whether the directory has been
/// created, and the file text held under each name.
#[verifier::ext_equal]
pub struct StoreView {
    pub exists: bool,
    pub entries: Map<Seq<char>, Seq<char>>,
}

/// A store directory that has not been created holds no entries.
pub open spec fn store_wf(s: StoreView) -> bool {
    !s.exists ==> s.entries =~= Map::<Seq<char>, Seq<char>>::empty()
}

/// Whether enumerating the store yields the empty signal: the directory is
/// missing or holds no entry.
pub open spec fn list_is_empty(s: StoreView) -> bool {
    !s.exists || s.entries.dom().is_empty()
}

/// The names an enumeration yields, as a set: enumeration order is
/// whatever the directory gives and is not modelled.
pub open spec fn list_names(s: StoreView) -> Set<Seq<char>> {
    s.entries.dom()
}

/// The store after enumerating it: the directory is created if it was
/// missing, and the entries are untouched.
pub open spec fn store_after_list(s: StoreView) -> StoreView {
    StoreView { exists: true, entries: s.entries }
}

/// The store after a successful `add`: the entry for `name` is created or
/// overwritten with the encoded content. A failed or partial write is not
/// modelled; it is reported as a failure event and promises nothing.
pub open spec fn store_after_add(s: StoreView, name: Seq<char>, content: Seq<char>) -> StoreView {
    StoreView { exists: s.exists, entries: s.entries.insert(name, spec_encode(content)) }
}

/// The store after a successful `remove` of `name`.
pub open spec fn store_after_remove(s: StoreView, name: Seq<char>) -> StoreView {
    StoreView { exists: s.exists, entries: s.entries.remove(name) }
}

/// Whether the store holds an entry for `name`.
pub open spec fn entry_exists(s: StoreView, name: Seq<char>) -> bool {
    s.entries.dom().contains(name)
}

/// What reading the entry for `name` yields: its full file text, or
/// nothing where there is no entry.
pub open spec fn read_entry(s: StoreView, name: Seq<char>) -> Option<Seq<char>> {
    if entry_exists(s, name) {
        Some(s.entries[name])
    } else {
        None
    }
}

} // verus!
