//! The registry's internal data structure: two indexes over the interned
//! entries, one by text for dedup lookups and one by address for reverse
//! lookups after an opaque round trip.

use vstd::prelude::*;

use crate::index::{address_entries, text_entries, AddressIndex, TextIndex};
use crate::model::{
    address_taken, interned, is_store_model, lemma_interned_is_store_model,
    lemma_registered_grows, lemma_registered_unchanged, registered, text_at,
};
use crate::site::{pending, Site};
use crate::symbol::Symbol;

verus! {

/// Relies on `String::leak`: the same text, kept for the rest of the process.
#[verifier::external_body]
fn leak_string(text: String) -> (kept: &'static str)
    ensures
        kept@ == text@,
{
    text.leak()
}

/// Relies on `Box::leak`: a reference to the boxed value, kept for the rest of
/// the process.
#[verifier::external_body]
fn leak_box(boxed: Box<&'static str>) -> (kept: &'static &'static str)
    ensures
        *kept == *boxed,
{
    Box::leak(boxed)
}

/// The interned entries: each text once, with the process-lifetime storage
/// that is its canonical copy, found by text and by that storage's address.
pub struct Store {
    by_string: TextIndex,
    by_pointer: AddressIndex,
}

impl View for Store {
    type V = Map<Seq<char>, u64>;

    /// Each interned text, with the address of its canonical storage.
    closed spec fn view(&self) -> Map<Seq<char>, u64> {
        text_entries(self.by_string)
    }
}

impl Store {
    /// The two indexes hold the same entries: each text's address leads back
    /// to that text, each address's text leads back to that address, so both
    /// hold as many; and no address is null.
    #[verifier::type_invariant]
    pub(crate) closed spec fn indexes_agree(self) -> bool {
        let texts = text_entries(self.by_string);
        let addresses = address_entries(self.by_pointer);
        &&& texts.dom().finite()
        &&& addresses.dom().finite()
        &&& addresses.len() == texts.len()
        &&& forall|t: Seq<char>| #[trigger]
            texts.contains_key(t) ==> addresses.contains_key(texts[t]) && addresses[texts[t]] == t
        &&& forall|a: u64| #[trigger]
            addresses.contains_key(a) ==> a != 0 && texts.contains_key(addresses[a])
                && texts[addresses[a]] == a
    }

    /// A store whose indexes agree has a store model as its view.
    pub(crate) proof fn lemma_model(&self)
        requires
            self.indexes_agree(),
        ensures
            is_store_model(self@),
    {
        let texts = self@;
        let addresses = address_entries(self.by_pointer);
        assert forall|x: Seq<char>, y: Seq<char>|
            x != y && texts.dom().contains(x) && texts.dom().contains(y) implies #[trigger] texts[x]
            != #[trigger] texts[y] by {
            assert(addresses[texts[x]] == x);
            assert(addresses[texts[y]] == y);
        }
        assert forall|t: Seq<char>| #[trigger] texts.contains_key(t) implies texts[t] != 0 by {
            assert(addresses.contains_key(texts[t]));
        }
    }

    /// An empty store.
    pub fn new() -> (store: Store)
        ensures
            store@.dom().is_empty(),
            is_store_model(store@),
    {
        Store { by_string: TextIndex::new(), by_pointer: AddressIndex::new() }
    }

    /// The number of interned texts.
    pub fn len(&self) -> (n: usize)
        ensures
            n == self@.len(),
    {
        self.by_string.len()
    }

    /// Whether no text is interned.
    pub fn is_empty(&self) -> (empty: bool)
        ensures
            empty == (self@.len() == 0),
    {
        self.by_string.len() == 0
    }

    /// The symbol of `string`, if it is interned.
    pub fn get(&self, string: &str) -> (symbol: Option<Symbol>)
        ensures
            symbol is Some == self@.contains_key(string@),
            symbol matches Some(s) ==> s.address() == self@[string@] && s.text() == string@,
            is_store_model(self@),
    {
        proof {
            use_type_invariant(self);
            self.lemma_model();
        }
        match self.by_string.get(string) {
            Some(address) => {
                let storage = self.by_pointer.get(address).unwrap();
                Some(Symbol { address, storage })
            },
            None => None,
        }
    }

    /// The symbol whose address is `address`, if there is one: how a value
    /// that came back from [`Symbol::to_ffi`] is checked.
    pub fn get_by_address(&self, address: u64) -> (symbol: Option<Symbol>)
        ensures
            symbol is Some == address_taken(self@, address),
            symbol matches Some(s) ==> s.address() == address && text_at(self@, address) == Some(
                s.text(),
            ),
            address == 0 ==> symbol is None,
            is_store_model(self@),
    {
        proof {
            use_type_invariant(self);
            self.lemma_model();
        }
        match self.by_pointer.get(address) {
            Some(storage) => {
                proof {
                    let t = (*storage)@;
                    assert(self@.contains_key(t) && self@[t] == address);
                    let c = choose|c: Seq<char>| self@.contains_key(c) && self@[c] == address;
                    assert(c == t);
                }
                Some(Symbol { address, storage })
            },
            None => {
                proof {
                    if address_taken(self@, address) {
                        let t = choose|t: Seq<char>| self@.contains_key(t) && self@[t] == address;
                        assert(address_entries(self.by_pointer).contains_key(self@[t]));
                    }
                }
                None
            },
        }
    }

    /// Add the new text of `storage`, with `storage` as its canonical copy
    /// under the storage's own address.
    fn insert_new(&mut self, storage: &'static &'static str) -> (symbol: Symbol)
        requires
            !old(self)@.contains_key((*storage)@),
        ensures
            final(self)@ == old(self)@.insert((*storage)@, symbol.address()),
            !address_taken(old(self)@, symbol.address()),
            symbol.text() == (*storage)@,
            is_store_model(final(self)@),
    {
        proof {
            use_type_invariant(&*self);
            self.lemma_model();
        }
        let ghost before = self@;
        let mut current = Store::new();
        core::mem::swap(self, &mut current);
        let Store { mut by_string, mut by_pointer } = current;
        let ghost addresses = address_entries(by_pointer);
        // The address entry goes in first, so that no text entry is ever
        // without its address entry.
        let address = by_pointer.insert(storage);
        proof {
            if addresses.contains_key(address) {
                assert(before.contains_key(addresses[address]));
            }
            if address_taken(before, address) {
                let t = choose|t: Seq<char>| before.contains_key(t) && before[t] == address;
                assert(addresses.contains_key(before[t]));
            }
            lemma_interned_is_store_model(before, (*storage)@, address);
        }
        by_string.insert(*storage, address);
        *self = Store { by_string, by_pointer };
        Symbol { address, storage }
    }

    /// Get the existing symbol for `string`, or insert a new one whose
    /// canonical storage is `string` itself, with no allocation.
    pub fn get_or_insert_static(&mut self, string: &'static &'static str) -> (symbol: Symbol)
        ensures
            final(self)@ == interned(old(self)@, (*string)@, symbol.address()),
            old(self)@.submap_of(final(self)@),
            final(self)@.contains_key((*string)@),
            final(self)@[(*string)@] == symbol.address(),
            symbol.text() == (*string)@,
            is_store_model(final(self)@),
    {
        match self.get(*string) {
            Some(symbol) => symbol,
            None => self.insert_new(string),
        }
    }

    /// Get the existing symbol for `string`, or insert a new one whose
    /// canonical storage is a copy of `string` kept for the rest of the
    /// process.
    pub fn get_or_insert(&mut self, string: &str) -> (symbol: Symbol)
        ensures
            final(self)@ == interned(old(self)@, string@, symbol.address()),
            old(self)@.submap_of(final(self)@),
            final(self)@.contains_key(string@),
            final(self)@[string@] == symbol.address(),
            symbol.text() == string@,
            is_store_model(final(self)@),
    {
        match self.get(string) {
            Some(symbol) => symbol,
            None => {
                let text = leak_string(string.to_owned());
                let storage = leak_box(Box::new(text));
                self.insert_new(storage)
            },
        }
    }

    /// Resolve every site of a module's table: intern each site's text in
    /// order, reusing the site's storage as the canonical copy of a new text,
    /// and overwrite the site with the resulting symbol.
    ///
    /// The store ends up holding every site's symbol. A second pass over the
    /// same table finds every text present and changes nothing.
    pub fn register_sites(&mut self, table: &mut Vec<Site>)
        ensures
            final(self)@ == registered(old(self)@, pending(final(table)@)),
            old(self)@.submap_of(final(self)@),
            is_store_model(final(self)@),
            final(table)@.len() == old(table)@.len(),
            forall|i: int|
                0 <= i < old(table)@.len() ==> {
                    let site = #[trigger] final(table)@[i];
                    &&& site.is_resolved()
                    &&& site.symbol().text() == old(table)@[i].symbol().text()
                    &&& final(self)@.contains_key(site.symbol().text())
                    &&& final(self)@[site.symbol().text()] == site.symbol().address()
                },
            (forall|i: int|
                0 <= i < old(table)@.len() ==> old(self)@.contains_key(
                    #[trigger] old(table)@[i].symbol().text(),
                )) ==> final(self)@ == old(self)@,
    {
        proof {
            use_type_invariant(&*self);
            self.lemma_model();
        }
        let ghost start = self@;
        let n = table.len();
        let mut i: usize = 0;
        while i < n
            invariant
                n == table@.len(),
                n == old(table)@.len(),
                start == old(self)@,
                0 <= i <= n,
                self@ == registered(start, pending(table@).take(i as int)),
                is_store_model(self@),
                forall|j: int| i <= j < n ==> table@[j] == old(table)@[j],
                forall|j: int|
                    0 <= j < i ==> {
                        let site = #[trigger] table@[j];
                        &&& site.is_resolved()
                        &&& site.symbol().text() == old(table)@[j].symbol().text()
                        &&& self@.contains_key(site.symbol().text())
                        &&& self@[site.symbol().text()] == site.symbol().address()
                    },
            decreases n - i,
        {
            let ghost before = self@;
            let ghost done = pending(table@).take(i as int);
            let mut site = table[i];
            let symbol = self.get_or_insert_static(site.get_string());
            site.initialize(symbol);
            table.set(i, site);
            proof {
                assert(pending(table@).take(i as int) == done);
                assert(pending(table@).take(i + 1).drop_last() == done);
                assert(pending(table@).take(i + 1).last() == (
                    symbol.text(),
                    symbol.address(),
                ));
                assert(before.submap_of(self@));
            }
            i = i + 1;
        }
        proof {
            assert(pending(table@).take(n as int) == pending(table@));
            lemma_registered_grows(start, pending(table@));
            if forall|i: int|
                0 <= i < old(table)@.len() ==> start.contains_key(
                    #[trigger] old(table)@[i].symbol().text(),
                ) {
                let p = pending(table@);
                assert forall|i: int| 0 <= i < p.len() implies start.contains_key(
                    #[trigger] p[i].0,
                ) by {
                    assert(p[i].0 == table@[i].symbol().text());
                    assert(start.contains_key(old(table)@[i].symbol().text()));
                }
                lemma_registered_unchanged(start, p);
            }
        }
    }
}

} // verus!
