//! The registry: one store behind a reader-writer lock, shared by every
//! thread that interns through it.

use vstd::prelude::*;

use crate::model::{
    address_taken, interned, is_store_model, lemma_distinct_texts, registered, text_at,
};
use crate::site::{pending, Site};
use crate::store::Store;
use crate::symbol::Symbol;

verus! {

/// `spin::RwLock`, opaque: what it holds is reached only through its guards.
#[verifier::external_type_specification]
#[verifier::external_body]
#[verifier::reject_recursive_types(T)]
#[verifier::reject_recursive_types(R)]
pub struct ExRwLock<T: ?Sized, R>(spin::rwlock::RwLock<T, R>);

/// `spin::relax::Spin`, the lock's default way of waiting.
#[verifier::external_type_specification]
#[verifier::external_body]
pub struct ExSpin(spin::relax::Spin);

/// `spin::RwLockReadGuard`, opaque.
#[verifier::external_type_specification]
#[verifier::external_body]
#[verifier::reject_recursive_types(T)]
pub struct ExRwLockReadGuard<'a, T: ?Sized>(spin::rwlock::RwLockReadGuard<'a, T>);

/// `spin::RwLockWriteGuard`, opaque.
#[verifier::external_type_specification]
#[verifier::external_body]
#[verifier::reject_recursive_types(T)]
#[verifier::reject_recursive_types(R)]
pub struct ExRwLockWriteGuard<'a, T: 'a + ?Sized, R>(spin::rwlock::RwLockWriteGuard<'a, T, R>);

/// Relies on `spin::RwLock::new`: a lock that holds `store`.
#[verifier::external_body]
fn new_lock(store: Store) -> spin::RwLock<Store> {
    spin::RwLock::new(store)
}

/// Relies on `spin::RwLock::read`: shared access, once no writer holds the
/// lock. It panics only when more than `usize::MAX / 8` readers hold the lock
/// at once.
#[verifier::external_body]
fn lock_read(lock: &spin::RwLock<Store>) -> spin::RwLockReadGuard<'_, Store> {
    lock.read()
}

/// Relies on `spin::RwLock::write`: exclusive access, once no one else holds
/// the lock.
#[verifier::external_body]
fn lock_write(lock: &spin::RwLock<Store>) -> spin::RwLockWriteGuard<'_, Store> {
    lock.write()
}

/// What a read guard of a registry's lock shows: the entries of the store it
/// guards, which stay as they are while the guard lives.
pub uninterp spec fn read_entries(guard: spin::RwLockReadGuard<'_, Store>) -> Map<Seq<char>, u64>;

/// What a write guard of a registry's lock shows: the entries of the store it
/// guards, which only its holder changes.
pub uninterp spec fn written_entries(guard: spin::RwLockWriteGuard<'_, Store>) -> Map<
    Seq<char>,
    u64,
>;

/// Relies on `Deref` of `spin::RwLockReadGuard`: the store the lock holds.
#[verifier::external_body]
fn read_store<'a>(guard: &'a spin::RwLockReadGuard<'_, Store>) -> (store: &'a Store)
    ensures
        store@ == read_entries(*guard),
{
    &**guard
}

/// Relies on `Deref` of `spin::RwLockWriteGuard`: the store the lock holds.
#[verifier::external_body]
fn written_store<'a>(guard: &'a spin::RwLockWriteGuard<'_, Store>) -> (store: &'a Store)
    ensures
        store@ == written_entries(*guard),
{
    &**guard
}

/// Relies on `DerefMut` of `spin::RwLockWriteGuard`: the store the lock holds
/// and `store` trade places.
#[verifier::external_body]
fn swap_store(guard: &mut spin::RwLockWriteGuard<'_, Store>, store: &mut Store)
    ensures
        written_entries(*final(guard)) == old(store)@,
        final(store)@ == written_entries(*old(guard)),
{
    core::mem::swap(&mut **guard, store)
}

/// A symbol registry.
///
/// One registry is the single source of truth for what counts as interned
/// among the code that shares it; code that interns through another registry
/// gets other symbols for the same text.
///
/// Other threads may intern between any two calls, so what a call promises
/// holds of the store as that call found it: the exact effect of each step
/// is the contract of the [`Store`] method it makes under the lock, and the
/// store's own invariant holds whatever the lock hands out.
pub struct Registry {
    store: spin::RwLock<Store>,
}

/// Shared access to a registry's store.
pub struct RegistryReadGuard<'a> {
    guard: spin::RwLockReadGuard<'a, Store>,
}

/// Exclusive access to a registry's store.
pub struct RegistryWriteGuard<'a> {
    guard: spin::RwLockWriteGuard<'a, Store>,
}

impl<'a> View for RegistryReadGuard<'a> {
    type V = Map<Seq<char>, u64>;

    /// The entries of the guarded store.
    closed spec fn view(&self) -> Map<Seq<char>, u64> {
        read_entries(self.guard)
    }
}

impl<'a> View for RegistryWriteGuard<'a> {
    type V = Map<Seq<char>, u64>;

    /// The entries of the guarded store.
    closed spec fn view(&self) -> Map<Seq<char>, u64> {
        written_entries(self.guard)
    }
}

impl Registry {
    /// A registry with nothing interned.
    pub fn new() -> (registry: Registry) {
        Registry { store: new_lock(Store::new()) }
    }

    /// Acquire a read lock of the registry's store.
    pub fn read(&self) -> (guard: RegistryReadGuard<'_>)
        ensures
            is_store_model(guard@),
    {
        let guard = RegistryReadGuard { guard: lock_read(&self.store) };
        let store = read_store(&guard.guard);
        proof {
            use_type_invariant(store);
            store.lemma_model();
        }
        guard
    }

    /// Acquire a write lock of the registry's store.
    pub fn write(&self) -> (guard: RegistryWriteGuard<'_>)
        ensures
            is_store_model(guard@),
    {
        let guard = RegistryWriteGuard { guard: lock_write(&self.store) };
        let store = written_store(&guard.guard);
        proof {
            use_type_invariant(store);
            store.lemma_model();
        }
        guard
    }

    /// Resolve and register the sites of a module's table, under one write
    /// lock; afterwards each site holds the symbol that the registry held
    /// for its text when the lock was released, so sites of one text share
    /// one symbol and sites of different texts have different ones.
    pub fn register_sites(&self, table: &mut Vec<Site>)
        ensures
            final(table)@.len() == old(table)@.len(),
            forall|i: int|
                0 <= i < old(table)@.len() ==> #[trigger] final(table)@[i].is_resolved()
                    && final(table)@[i].symbol().text() == old(table)@[i].symbol().text(),
            forall|i: int, j: int|
                0 <= i < final(table)@.len() && 0 <= j < final(table)@.len() ==> ((
                #[trigger] final(table)@[i]).symbol().text() == (
                #[trigger] final(table)@[j]).symbol().text()) == (final(table)@[i].symbol().address()
                    == final(table)@[j].symbol().address()),
    {
        let mut write = self.write();
        write.register_sites(table);
        proof {
            let entries = write@;
            assert forall|i: int, j: int|
                0 <= i < table@.len() && 0 <= j < table@.len() implies ((
            #[trigger] table@[i]).symbol().text() == (#[trigger] table@[j]).symbol().text()) == (
            table@[i].symbol().address() == table@[j].symbol().address()) by {
                let (a, b) = (table@[i].symbol().text(), table@[j].symbol().text());
                assert(entries.contains_key(a) && entries[a] == table@[i].symbol().address());
                assert(entries.contains_key(b) && entries[b] == table@[j].symbol().address());
                if a != b {
                    lemma_distinct_texts(entries, a, b);
                }
            }
        }
    }

    /// The symbol of `string`, if it has been interned.
    pub fn get(&self, string: &str) -> (symbol: Option<Symbol>)
        ensures
            symbol matches Some(s) ==> s.text() == string@,
    {
        let read = self.read();
        read.get(string)
    }

    /// Get the existing symbol for `string`, or insert a new one.
    ///
    /// This looks under a read lock first, and takes the write lock only if
    /// the text is missing; under the write lock it looks again, since
    /// another thread may have interned the text in between.
    pub fn get_or_insert(&self, string: &str) -> (symbol: Symbol)
        ensures
            symbol.text() == string@,
    {
        {
            let read = self.read();
            if let Some(previously_interned) = read.get(string) {
                return previously_interned;
            }
        }
        let mut write = self.write();
        write.get_or_insert(string)
    }

    /// Get the existing symbol for `string`, or insert a new one backed by
    /// `string` itself.
    pub fn get_or_insert_static(&self, string: &'static &'static str) -> (symbol: Symbol)
        ensures
            symbol.text() == (*string)@,
    {
        {
            let read = self.read();
            if let Some(previously_interned) = read.get(*string) {
                return previously_interned;
            }
        }
        let mut write = self.write();
        write.get_or_insert_static(string)
    }

    /// The symbol whose address is `address`, if one has been registered;
    /// never one for address 0.
    pub fn get_by_address(&self, address: u64) -> (symbol: Option<Symbol>)
        ensures
            symbol matches Some(s) ==> s.address() == address,
            address == 0 ==> symbol is None,
    {
        let read = self.read();
        read.get_by_address(address)
    }
}

impl<'a> RegistryReadGuard<'a> {
    /// The number of registered symbols.
    pub fn len(&self) -> (n: usize)
        ensures
            n == self@.len(),
    {
        read_store(&self.guard).len()
    }

    /// Whether no symbol is registered.
    pub fn is_empty(&self) -> (empty: bool)
        ensures
            empty == (self@.len() == 0),
    {
        read_store(&self.guard).is_empty()
    }

    /// The symbol of `string`, if it has been interned.
    pub fn get(&self, string: &str) -> (symbol: Option<Symbol>)
        ensures
            symbol is Some == self@.contains_key(string@),
            symbol matches Some(s) ==> s.address() == self@[string@] && s.text() == string@,
    {
        read_store(&self.guard).get(string)
    }

    /// The symbol whose address is `address`, if one has been registered.
    pub fn get_by_address(&self, address: u64) -> (symbol: Option<Symbol>)
        ensures
            symbol is Some == address_taken(self@, address),
            symbol matches Some(s) ==> s.address() == address && text_at(self@, address) == Some(
                s.text(),
            ),
            address == 0 ==> symbol is None,
    {
        read_store(&self.guard).get_by_address(address)
    }
}

impl<'a> RegistryWriteGuard<'a> {
    /// Resolve and register the sites of a module's table: afterwards the
    /// store holds each site's symbol, and a second pass over the same table
    /// changes nothing.
    pub fn register_sites(&mut self, table: &mut Vec<Site>)
        ensures
            final(self)@ == registered(old(self)@, pending(final(table)@)),
            old(self)@.submap_of(final(self)@),
            is_store_model(final(self)@),
            final(table)@.len() == old(table)@.len(),
            forall|i: int|
                0 <= i < old(table)@.len() ==> {
                    let site = #[trigger] final(table)@[i];
                    &&& site.is_resolved()
                    &&& site.symbol().text() == old(table)@[i].symbol().text()
                    &&& final(self)@.contains_key(site.symbol().text())
                    &&& final(self)@[site.symbol().text()] == site.symbol().address()
                },
            (forall|i: int|
                0 <= i < old(table)@.len() ==> old(self)@.contains_key(
                    #[trigger] old(table)@[i].symbol().text(),
                )) ==> final(self)@ == old(self)@,
    {
        let mut store = Store::new();
        swap_store(&mut self.guard, &mut store);
        store.register_sites(table);
        swap_store(&mut self.guard, &mut store);
    }

    /// The number of registered symbols.
    pub fn len(&self) -> (n: usize)
        ensures
            n == self@.len(),
    {
        written_store(&self.guard).len()
    }

    /// Whether no symbol is registered.
    pub fn is_empty(&self) -> (empty: bool)
        ensures
            empty == (self@.len() == 0),
    {
        written_store(&self.guard).is_empty()
    }

    /// The symbol of `string`, if it has been interned.
    pub fn get(&self, string: &str) -> (symbol: Option<Symbol>)
        ensures
            symbol is Some == self@.contains_key(string@),
            symbol matches Some(s) ==> s.address() == self@[string@] && s.text() == string@,
    {
        written_store(&self.guard).get(string)
    }

    /// The symbol whose address is `address`, if one has been registered.
    pub fn get_by_address(&self, address: u64) -> (symbol: Option<Symbol>)
        ensures
            symbol is Some == address_taken(self@, address),
            symbol matches Some(s) ==> s.address() == address && text_at(self@, address) == Some(
                s.text(),
            ),
            address == 0 ==> symbol is None,
    {
        written_store(&self.guard).get_by_address(address)
    }

    /// Get the existing symbol for `string`, or insert a new one.
    pub fn get_or_insert(&mut self, string: &str) -> (symbol: Symbol)
        ensures
            final(self)@ == interned(old(self)@, string@, symbol.address()),
            old(self)@.submap_of(final(self)@),
            final(self)@.contains_key(string@),
            final(self)@[string@] == symbol.address(),
            symbol.text() == string@,
            is_store_model(final(self)@),
    {
        let mut store = Store::new();
        swap_store(&mut self.guard, &mut store);
        let symbol = store.get_or_insert(string);
        swap_store(&mut self.guard, &mut store);
        symbol
    }

    /// Get the existing symbol for `string`, or insert a new one backed by
    /// `string` itself.
    pub fn get_or_insert_static(&mut self, string: &'static &'static str) -> (symbol: Symbol)
        ensures
            final(self)@ == interned(old(self)@, (*string)@, symbol.address()),
            old(self)@.submap_of(final(self)@),
            final(self)@.contains_key((*string)@),
            final(self)@[(*string)@] == symbol.address(),
            symbol.text() == (*string)@,
            is_store_model(final(self)@),
    {
        let mut store = Store::new();
        swap_store(&mut self.guard, &mut store);
        let symbol = store.get_or_insert_static(string);
        swap_store(&mut self.guard, &mut store);
        symbol
    }
}

} // verus!
