//! The two hash indexes that a store keeps over its entries, each held in a
//! `hashbrown::HashMap` whose contents the contracts name.

use vstd::prelude::*;

verus! {

/// The by-content index: the text of each entry, with the address of its
/// canonical storage.
#[verifier::external_body]
pub struct TextIndex {
    map: hashbrown::HashMap<&'static str, u64>,
}

/// What a by-content index holds: each text with its address.
pub uninterp spec fn text_entries(index: TextIndex) -> Map<Seq<char>, u64>;

impl TextIndex {
    /// Relies on `hashbrown::HashMap::new`: an empty map.
    #[verifier::external_body]
    pub fn new() -> (index: TextIndex)
        ensures
            text_entries(index).dom() == Set::<Seq<char>>::empty(),
    {
        TextIndex { map: hashbrown::HashMap::new() }
    }

    /// Relies on `hashbrown::HashMap::get`: the value stored under a key equal
    /// to `text`, compared by content.
    #[verifier::external_body]
    pub fn get(&self, text: &str) -> (address: Option<u64>)
        ensures
            address == (if text_entries(*self).contains_key(text@) {
                Some(text_entries(*self)[text@])
            } else {
                None
            }),
    {
        self.map.get(text).copied()
    }

    /// Relies on `hashbrown::HashMap::insert`: afterwards `text` maps to
    /// `address`, and every other key keeps its value.
    #[verifier::external_body]
    pub fn insert(&mut self, text: &'static str, address: u64)
        ensures
            text_entries(*final(self)) == text_entries(*old(self)).insert(text@, address),
    {
        self.map.insert(text, address);
    }

    /// Relies on `hashbrown::HashMap::len`: the number of keys.
    #[verifier::external_body]
    pub fn len(&self) -> (n: usize)
        ensures
            n == text_entries(*self).len(),
    {
        self.map.len()
    }
}

/// The by-address index: the address of each entry's canonical storage, with
/// that storage. Its keys are always the addresses of the values under them.
#[verifier::external_body]
pub struct AddressIndex {
    map: hashbrown::HashMap<u64, &'static &'static str>,
}

/// What a by-address index holds: each address with the text of the storage
/// stored under it.
pub uninterp spec fn address_entries(index: AddressIndex) -> Map<u64, Seq<char>>;

impl AddressIndex {
    /// Relies on `hashbrown::HashMap::new`: an empty map.
    #[verifier::external_body]
    pub fn new() -> (index: AddressIndex)
        ensures
            address_entries(index).dom() == Set::<u64>::empty(),
    {
        AddressIndex { map: hashbrown::HashMap::new() }
    }

    /// Relies on `hashbrown::HashMap::get`: the storage stored under
    /// `address`.
    #[verifier::external_body]
    pub fn get(&self, address: u64) -> (storage: Option<&'static &'static str>)
        ensures
            storage.is_some() == address_entries(*self).contains_key(address),
            storage matches Some(s) ==> (*s)@ == address_entries(*self)[address],
    {
        self.map.get(&address).copied()
    }

    /// Relies on `core::ptr::from_ref` and `hashbrown::HashMap::insert`:
    /// `storage` goes in under its own address, which is never null. Every key
    /// goes in this way, so a key that is already present is the address of
    /// the storage stored under it; one address holds one immutable text.
    #[verifier::external_body]
    pub fn insert(&mut self, storage: &'static &'static str) -> (address: u64)
        ensures
            address != 0,
            address_entries(*old(self)).contains_key(address) ==> address_entries(
                *old(self),
            )[address] == (*storage)@,
            address_entries(*final(self)) == address_entries(*old(self)).insert(
                address,
                (*storage)@,
            ),
    {
        let address = core::ptr::from_ref::<&'static str>(storage) as usize as u64;
        self.map.insert(address, storage);
        address
    }
}

} // verus!
