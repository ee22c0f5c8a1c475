//! Handles on registration sites, for symbols that are named once and used
//! from many places.

use vstd::prelude::*;

use crate::site::Site;
use crate::symbol::Symbol;

verus! {

/// A handle on a resolved registration site.
///
/// It reads the site's symbol on each use, without touching the registry.
#[derive(Clone, Copy, Debug)]
pub struct StaticSymbol {
    site: &'static Site,
}

impl StaticSymbol {
    /// The handle only ever points at a resolved site.
    #[verifier::type_invariant]
    spec fn site_resolved(self) -> bool {
        self.site.is_resolved()
    }

    /// The symbol that the handle reads.
    pub closed spec fn symbol(self) -> Symbol {
        self.site.symbol()
    }

    /// A handle on `site`, which registration has resolved.
    pub fn new_unchecked(site: &'static Site) -> (handle: StaticSymbol)
        requires
            site.is_resolved(),
        ensures
            handle.symbol() == site.symbol(),
    {
        StaticSymbol { site }
    }

    /// The symbol of the site.
    pub fn get(&self) -> (symbol: Symbol)
        ensures
            symbol == self.symbol(),
    {
        proof {
            use_type_invariant(self);
        }
        self.site.get_after_ctor()
    }
}

impl core::ops::Deref for StaticSymbol {
    type Target = Symbol;

    fn deref(&self) -> (symbol: &Symbol) {
        proof {
            use_type_invariant(self);
        }
        self.site.get_ref_after_ctor()
    }
}

impl PartialEq for StaticSymbol {
    fn eq(&self, other: &StaticSymbol) -> (equal: bool) {
        self.get() == other.get()
    }
}

impl vstd::std_specs::cmp::PartialEqSpecImpl for StaticSymbol {
    open spec fn obeys_eq_spec() -> bool {
        true
    }

    open spec fn eq_spec(&self, other: &StaticSymbol) -> bool {
        self.symbol().address() == other.symbol().address()
    }
}

impl From<StaticSymbol> for Symbol {
    fn from(handle: StaticSymbol) -> (symbol: Symbol) {
        handle.get()
    }
}

impl vstd::std_specs::convert::FromSpecImpl<StaticSymbol> for Symbol {
    open spec fn obeys_from_spec() -> bool {
        true
    }

    open spec fn from_spec(handle: StaticSymbol) -> Symbol {
        handle.symbol()
    }
}

impl PartialEq<Symbol> for StaticSymbol {
    fn eq(&self, other: &Symbol) -> (equal: bool) {
        self.get() == *other
    }
}

impl vstd::std_specs::cmp::PartialEqSpecImpl<Symbol> for StaticSymbol {
    open spec fn obeys_eq_spec() -> bool {
        true
    }

    open spec fn eq_spec(&self, other: &Symbol) -> bool {
        self.symbol().address() == other.address()
    }
}

impl PartialEq<StaticSymbol> for Symbol {
    fn eq(&self, other: &StaticSymbol) -> (equal: bool) {
        *self == other.get()
    }
}

impl vstd::std_specs::cmp::PartialEqSpecImpl<StaticSymbol> for Symbol {
    open spec fn obeys_eq_spec() -> bool {
        true
    }

    open spec fn eq_spec(&self, other: &StaticSymbol) -> bool {
        self.address() == other.symbol().address()
    }
}

impl From<&StaticSymbol> for Symbol {
    fn from(handle: &StaticSymbol) -> (symbol: Symbol) {
        handle.get()
    }
}

impl vstd::std_specs::convert::FromSpecImpl<&StaticSymbol> for Symbol {
    open spec fn obeys_from_spec() -> bool {
        true
    }

    open spec fn from_spec(handle: &StaticSymbol) -> Symbol {
        handle.symbol()
    }
}

} // verus!
