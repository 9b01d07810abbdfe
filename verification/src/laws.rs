//! The laws the library keeps, stated over the spec functions its
//! contracts use and proved here once and for all inputs.

use vstd::prelude::*;
use crate::command::CommandView;
use crate::dispatch::{
    missing_entry_text, remove_failure_text, spec_effect, spec_outcome, EffectView, StoreEvent,
};
use crate::parser::{
    first_token, has_second_token, has_third_token, second_token, spec_parse,
    spec_parse_diagnostic, third_token,
};
use crate::store::{
    entry_exists, list_is_empty, list_names, read_entry, spec_encode, store_after_add,
    store_after_list, store_after_remove, store_wf, StoreView,
};

verus! {

/// Whether `t` is one of the five recognized first tokens.
pub open spec fn recognized_token(t: Seq<char>) -> bool {
    t == "help"@ || t == "list"@ || t == "pick"@ || t == "remove"@ || t == "add"@
}

/// The five keywords are pairwise distinct character sequences.
proof fn lemma_keywords_distinct()
    ensures
        "help"@ != "list"@,
        "help"@ != "pick"@,
        "list"@ != "pick"@,
        "remove"@ != "help"@,
        "remove"@ != "list"@,
        "remove"@ != "pick"@,
        "remove"@ != "add"@,
        "add"@ != "help"@,
        "add"@ != "list"@,
        "add"@ != "pick"@,
{
    reveal_strlit("help");
    reveal_strlit("list");
    reveal_strlit("pick");
    reveal_strlit("remove");
    reveal_strlit("add");
    assert("help"@[0] != "list"@[0]);
    assert("help"@[0] != "pick"@[0]);
    assert("list"@[0] != "pick"@[0]);
    assert("remove"@.len() != "help"@.len());
    assert("remove"@.len() != "list"@.len());
    assert("remove"@.len() != "pick"@.len());
    assert("remove"@.len() != "add"@.len());
    assert("add"@.len() != "help"@.len());
    assert("add"@.len() != "list"@.len());
    assert("add"@.len() != "pick"@.len());
}

/// Each recognized first token yields its command variant when the
/// required arguments are present, and any other first token — the empty
/// token of a blank line included — yields `Invalid`.
pub proof fn lemma_parser_recognized(s: Seq<char>)
    ensures
        first_token(s) == "help"@ ==> spec_parse(s) == Some(CommandView::Help),
        first_token(s) == "list"@ ==> spec_parse(s) == Some(CommandView::List),
        first_token(s) == "pick"@ && has_second_token(s) ==> spec_parse(s) == Some(
            CommandView::Pick(second_token(s)),
        ),
        first_token(s) == "remove"@ && has_second_token(s) ==> spec_parse(s) == Some(
            CommandView::Remove(second_token(s)),
        ),
        first_token(s) == "add"@ && has_third_token(s) ==> spec_parse(s) == Some(
            CommandView::Add(second_token(s), third_token(s)),
        ),
        !recognized_token(first_token(s)) ==> spec_parse(s) == Some(CommandView::Invalid),
{
    lemma_keywords_distinct();
}

/// For `pick`, `remove` and `add` with a required argument missing, the
/// line denotes no command at all — not `Invalid` — and is owed a
/// diagnostic: the diagnostic exists exactly where no command does.
pub proof fn lemma_parser_incomplete(s: Seq<char>)
    ensures
        first_token(s) == "pick"@ && !has_second_token(s) ==> spec_parse(s) is None,
        first_token(s) == "remove"@ && !has_second_token(s) ==> spec_parse(s) is None,
        first_token(s) == "add"@ && !has_third_token(s) ==> spec_parse(s) is None,
        spec_parse(s) is None <==> spec_parse_diagnostic(s) is Some,
{
    lemma_keywords_distinct();
}

/// Round trip: a successful `add` writes exactly the encoded content, and
/// reading the same name back then yields that text — the text a
/// following `pick` hands to the clipboard. Both commands end silently.
pub proof fn lemma_add_pick_round_trip(s: StoreView, name: Seq<char>, content: Seq<char>)
    ensures
        spec_effect(CommandView::Add(name, content)) == EffectView::WriteEntry(
            name,
            spec_encode(content),
        ),
        read_entry(store_after_add(s, name, content), name) == Some(spec_encode(content)),
        spec_outcome(CommandView::Add(name, content), StoreEvent::Wrote { ok: true }) is None,
        spec_outcome(
            CommandView::Pick(name),
            StoreEvent::PickRead { found: true, copied: true },
        ) is None,
{
}

/// Listing is idempotent: enumerating the store never changes its
/// entries, so listing twice with no `add` or `remove` in between yields
/// the same set of names, and the same empty signal, both times.
pub proof fn lemma_list_idempotent(s: StoreView)
    requires
        store_wf(s),
    ensures
        list_names(store_after_list(s)) == list_names(s),
        list_is_empty(store_after_list(s)) == list_is_empty(s),
        store_wf(store_after_list(s)),
{
}

/// A name with no entry: reading it finds nothing, removing it can only
/// fail — leaving the store as it was — and the failed remove and a
/// following failed `pick` earn the fixed missing-entry messages.
pub proof fn lemma_missing_entry(s: StoreView, name: Seq<char>)
    requires
        !entry_exists(s, name),
    ensures
        read_entry(s, name) is None,
        store_after_remove(s, name) == s,
        spec_outcome(CommandView::Remove(name), StoreEvent::Removed { ok: false }) == Some(
            remove_failure_text(),
        ),
        spec_outcome(
            CommandView::Pick(name),
            StoreEvent::PickRead { found: false, copied: false },
        ) == Some(missing_entry_text()),
{
    assert(s.entries.remove(name) =~= s.entries);
    assert(store_after_remove(s, name) =~= s);
}

/// An `add` or `remove` of one name leaves every other entry untouched,
/// and a successful `remove` deletes exactly its own entry.
pub proof fn lemma_store_framing(
    s: StoreView,
    name: Seq<char>,
    content: Seq<char>,
    other: Seq<char>,
)
    requires
        other != name,
    ensures
        read_entry(store_after_add(s, name, content), other) == read_entry(s, other),
        read_entry(store_after_remove(s, name), other) == read_entry(s, other),
        read_entry(store_after_remove(s, name), name) is None,
{
}

/// One entry per name: re-adding a name overwrites its entry, the last
/// write wins, and the set of names is as if only the last add had run.
pub proof fn lemma_add_overwrites(s: StoreView, name: Seq<char>, c1: Seq<char>, c2: Seq<char>)
    ensures
        read_entry(store_after_add(store_after_add(s, name, c1), name, c2), name) == Some(
            spec_encode(c2),
        ),
        list_names(store_after_add(store_after_add(s, name, c1), name, c2)) =~= list_names(
            store_after_add(s, name, c2),
        ),
{
}

/// Listing a store with no entries yields the empty signal, and leaves
/// the directory existing: a missing directory is created as a side
/// effect of the first enumeration.
pub proof fn lemma_list_fresh_store(s: StoreView)
    requires
        store_wf(s),
        list_names(s).is_empty(),
    ensures
        list_is_empty(s),
        store_after_list(s).exists,
        list_names(store_after_list(s)).is_empty(),
        store_wf(store_after_list(s)),
{
}

} // verus!
