//! Registration sites: one fixed slot per literal use, resolved once into the
//! literal's interned symbol.

use vstd::prelude::*;

use crate::model::interned;
use crate::registry::{Registry, RegistryWriteGuard};
use crate::symbol::Symbol;

verus! {

/// Registration site for one literal use.
///
/// Before registration the site holds the literal's own symbol, made from the
/// literal's storage and not yet interned. Registration overwrites it with
/// the interned symbol and sets the initialization flag; every later read
/// returns that symbol.
#[derive(Clone, Copy, Debug)]
pub struct Site {
    pub(crate) inner: Symbol,
    pub(crate) initialized: bool,
}

/// The `(text, address)` of the symbol that each site of a table holds, in
/// order.
pub open spec fn pending(table: Seq<Site>) -> Seq<(Seq<char>, u64)> {
    table.map_values(|site: Site| (site.symbol().text(), site.symbol().address()))
}

impl Site {
    /// The symbol the site holds: the literal's own before registration, the
    /// interned one after.
    pub open(crate) spec fn symbol(&self) -> Symbol {
        self.inner
    }

    /// Whether the site has been resolved into its interned symbol.
    pub open(crate) spec fn is_resolved(&self) -> bool {
        self.initialized
    }

    /// A site for the literal `string`, not yet resolved.
    pub fn new(string: &'static &'static str) -> (site: Site)
        ensures
            !site.is_resolved(),
            site.symbol().text() == (*string)@,
    {
        Site { inner: Symbol::new_unchecked(string), initialized: false }
    }

    /// The string reference the site holds: the literal before registration,
    /// the canonical storage of its symbol after.
    pub fn get_string(&self) -> (string: &'static &'static str)
        ensures
            (*string)@ == self.symbol().text(),
    {
        self.inner.inner()
    }

    /// Place the interned symbol of the site's text in the site and mark it
    /// initialized.
    pub fn initialize(&mut self, interned: Symbol)
        requires
            interned.text() == old(self).symbol().text(),
        ensures
            final(self).symbol() == interned,
            final(self).is_resolved(),
    {
        self.initialized = true;
        self.inner = interned;
    }

    /// The resolved symbol of a site that registration has reached.
    pub fn get_ref_after_ctor(&self) -> (symbol: &Symbol)
        requires
            self.is_resolved(),
        ensures
            *symbol == self.symbol(),
    {
        &self.inner
    }

    /// The resolved symbol of a site that registration has reached.
    pub fn get_after_ctor(&self) -> (symbol: Symbol)
        requires
            self.is_resolved(),
        ensures
            symbol == self.symbol(),
    {
        self.inner
    }

    /// The symbol of the site, resolving it through `registry` first if no
    /// registration pass has: the fallback where startup registration cannot
    /// run. Once resolved, the site keeps its symbol.
    pub fn get_without_ctor_support(&mut self, registry: &Registry) -> (symbol: Symbol)
        ensures
            symbol.text() == old(self).symbol().text(),
            old(self).is_resolved() ==> symbol == old(self).symbol(),
            final(self).is_resolved(),
            final(self).symbol() == symbol,
    {
        if self.initialized {
            return self.inner;
        }
        let mut write = registry.write();
        self.resolve(&mut write);
        self.inner
    }

    /// Intern the site's text in the store behind `guard` and place the
    /// resulting symbol in the site: the step that resolves a site.
    pub fn resolve(&mut self, guard: &mut RegistryWriteGuard)
        ensures
            final(guard)@ == interned(
                old(guard)@,
                old(self).symbol().text(),
                final(self).symbol().address(),
            ),
            final(guard)@.contains_key(old(self).symbol().text()),
            final(guard)@[old(self).symbol().text()] == final(self).symbol().address(),
            final(self).symbol().text() == old(self).symbol().text(),
            final(self).is_resolved(),
    {
        let interned = guard.get_or_insert_static(self.inner.inner());
        self.initialize(interned);
    }
}

} // verus!
