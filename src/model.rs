//! The mathematical model of a store: its entries as a map from each text to
//! the address of its canonical storage, and what interning does to it.

use vstd::prelude::*;

verus! {

/// Whether `entries` can be what a store holds: finitely many entries, no two
/// of them at one address, and no entry at address 0.
pub open spec fn is_store_model(entries: Map<Seq<char>, u64>) -> bool {
    &&& entries.dom().finite()
    &&& entries.is_injective()
    &&& forall|text: Seq<char>| #[trigger] entries.contains_key(text) ==> entries[text] != 0
}

/// Whether `address` already identifies an entry.
pub open spec fn address_taken(entries: Map<Seq<char>, u64>, address: u64) -> bool {
    entries.contains_value(address)
}

/// The entries after interning `text`, whose new storage would sit at
/// `address`: a text that is present keeps its entry, and a new text is added
/// at `address`.
pub open spec fn interned(entries: Map<Seq<char>, u64>, text: Seq<char>, address: u64) -> Map<
    Seq<char>,
    u64,
> {
    if entries.contains_key(text) {
        entries
    } else {
        entries.insert(text, address)
    }
}

/// The text whose entry sits at `address`, if any.
pub open spec fn text_at(entries: Map<Seq<char>, u64>, address: u64) -> Option<Seq<char>> {
    if address_taken(entries, address) {
        Some(choose|text: Seq<char>| entries.contains_key(text) && entries[text] == address)
    } else {
        None
    }
}

/// The entries after interning each `(text, address)` of a table, in order.
pub open spec fn registered(entries: Map<Seq<char>, u64>, pending: Seq<(Seq<char>, u64)>) -> Map<
    Seq<char>,
    u64,
>
    decreases pending.len(),
{
    if pending.len() == 0 {
        entries
    } else {
        let last = pending.last();
        interned(registered(entries, pending.drop_last()), last.0, last.1)
    }
}

/// Interning a new text at a fresh, non-null address keeps a store model a
/// store model.
pub proof fn lemma_interned_is_store_model(entries: Map<Seq<char>, u64>, text: Seq<char>, address: u64)
    requires
        is_store_model(entries),
        address != 0,
        entries.contains_key(text) || !address_taken(entries, address),
    ensures
        is_store_model(interned(entries, text, address)),
{
    if !entries.contains_key(text) {
        let next = entries.insert(text, address);
        assert forall|x: Seq<char>, y: Seq<char>|
            x != y && next.dom().contains(x) && next.dom().contains(y) implies #[trigger] next[x]
            != #[trigger] next[y] by {
            if x == text {
                assert(entries.contains_key(y));
            } else if y == text {
                assert(entries.contains_key(x));
            }
        }
    }
}

/// Interning never drops or moves an entry, and afterwards the text is
/// present.
pub proof fn lemma_interned_grows(entries: Map<Seq<char>, u64>, text: Seq<char>, address: u64)
    ensures
        entries.submap_of(interned(entries, text, address)),
        interned(entries, text, address).contains_key(text),
{
}

/// Registering a table never drops or moves an entry, and afterwards every
/// text of the table is present.
pub proof fn lemma_registered_grows(entries: Map<Seq<char>, u64>, pending: Seq<(Seq<char>, u64)>)
    ensures
        entries.submap_of(registered(entries, pending)),
        forall|i: int|
            0 <= i < pending.len() ==> registered(entries, pending).contains_key(
                #[trigger] pending[i].0,
            ),
    decreases pending.len(),
{
    if pending.len() > 0 {
        let prefix = pending.drop_last();
        let before = registered(entries, prefix);
        lemma_registered_grows(entries, prefix);
        lemma_interned_grows(before, pending.last().0, pending.last().1);
        assert forall|i: int| 0 <= i < pending.len() implies registered(
            entries,
            pending,
        ).contains_key(#[trigger] pending[i].0) by {
            if i < pending.len() - 1 {
                assert(prefix[i] == pending[i]);
            }
        }
    }
}

/// Dedup: once a text has been interned, it stays at the same address through
/// any table of interning in between, and interning it again returns that
/// address and changes nothing.
pub proof fn lemma_dedup(
    entries: Map<Seq<char>, u64>,
    text: Seq<char>,
    address: u64,
    between: Seq<(Seq<char>, u64)>,
    again: u64,
)
    ensures
        ({
            let first = interned(entries, text, address);
            let later = registered(first, between);
            &&& later.contains_key(text)
            &&& later[text] == first[text]
            &&& interned(later, text, again) == later
        }),
{
    let first = interned(entries, text, address);
    lemma_interned_grows(entries, text, address);
    lemma_registered_grows(first, between);
    assert(registered(first, between).contains_key(text));
}

/// Distinct texts of a store have distinct addresses, so two of its
/// symbols are equal exactly when their texts are.
pub proof fn lemma_distinct_texts(entries: Map<Seq<char>, u64>, a: Seq<char>, b: Seq<char>)
    requires
        is_store_model(entries),
        entries.contains_key(a),
        entries.contains_key(b),
        a != b,
    ensures
        entries[a] != entries[b],
{
}

/// Round trip: the address of a stored entry leads back to its text, and an
/// address that identifies no entry, such as 0, leads nowhere.
pub proof fn lemma_round_trip(entries: Map<Seq<char>, u64>, text: Seq<char>, address: u64)
    requires
        is_store_model(entries),
    ensures
        entries.contains_key(text) ==> text_at(entries, entries[text]) == Some(text),
        !address_taken(entries, address) ==> text_at(entries, address) is None,
        !address_taken(entries, 0),
{
    if entries.contains_key(text) {
        assert(address_taken(entries, entries[text]));
    }
}

/// Registering a table whose texts are all present changes nothing.
pub proof fn lemma_registered_unchanged(entries: Map<Seq<char>, u64>, pending: Seq<(Seq<char>, u64)>)
    requires
        forall|i: int| 0 <= i < pending.len() ==> entries.contains_key(#[trigger] pending[i].0),
    ensures
        registered(entries, pending) == entries,
    decreases pending.len(),
{
    if pending.len() > 0 {
        let prefix = pending.drop_last();
        assert forall|i: int| 0 <= i < prefix.len() implies entries.contains_key(
            #[trigger] prefix[i].0,
        ) by {
            assert(prefix[i] == pending[i]);
        }
        lemma_registered_unchanged(entries, prefix);
        assert(entries.contains_key(pending[pending.len() - 1].0));
    }
}

/// Registering a table twice leaves the store as registering it once: the
/// second pass, whatever addresses its sites hold by then, finds every text
/// that the first pass put there.
pub proof fn lemma_register_twice(
    entries: Map<Seq<char>, u64>,
    first: Seq<(Seq<char>, u64)>,
    second: Seq<(Seq<char>, u64)>,
)
    requires
        second.len() == first.len(),
        forall|i: int| 0 <= i < second.len() ==> #[trigger] second[i].0 == first[i].0,
    ensures
        registered(registered(entries, first), second) == registered(entries, first),
{
    let once = registered(entries, first);
    lemma_registered_grows(entries, first);
    assert forall|i: int| 0 <= i < second.len() implies once.contains_key(#[trigger] second[i].0) by {
        assert(second[i].0 == first[i].0);
    }
    lemma_registered_unchanged(once, second);
}

} // verus!
