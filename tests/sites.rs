use hashbrown::HashMap;
use stringleton::{Registry, Site, StaticSymbol, Symbol};

/// Registers a module table of literal sites and hands out the resolved
/// sites for the rest of the process.
fn registered_table(registry: &Registry, literals: &[&'static &'static str]) -> &'static [Site] {
    let table: &'static mut Vec<Site> =
        Box::leak(Box::new(literals.iter().map(|s| Site::new(s)).collect()));
    registry.register_sites(table);
    table
}

#[test]
fn lib_basic() {
    let registry = Registry::new();
    let table = registered_table(&registry, &[&"a", &"b", &"c", &"a"]);
    let a = table[0].get_after_ctor();
    let b = table[1].get_after_ctor();
    let c = table[2].get_after_ctor();
    let a2 = table[3].get_after_ctor();

    assert_ne!(a, b);
    assert_ne!(a, c);
    assert_ne!(b, c);
    assert_eq!(a, a2);
}

#[test]
fn basic_basic() {
    let registry = Registry::new();
    let table = registered_table(&registry, &[&"a", &"b", &"c", &"a"]);
    let a = table[0].get_after_ctor();
    let b = table[1].get_after_ctor();
    let c = table[2].get_after_ctor();
    let a2 = table[3].get_after_ctor();

    assert_ne!(a, b);
    assert_ne!(a, c);
    assert_ne!(b, c);
    assert_eq!(a, a2);
}

#[test]
fn lib_sym_macro() {
    let registry = Registry::new();
    let table = registered_table(&registry, &[&"hello", &"hello", &"SYM_CACHE"]);
    let ident: Symbol = table[0].get_after_ctor();
    let string: Symbol = table[1].get_after_ctor();
    let dynamic = Symbol::new_static(&registry, &"hello");
    assert_eq!(ident, string);
    assert_eq!(ident, dynamic);

    let mut map = HashMap::new();
    map.insert(ident, 1);
    map.insert(string, 2);
    map.insert(dynamic, 3);
    assert_eq!(map.len(), 1);
    assert!(map.into_iter().eq([(ident, 3)]));

    assert_eq!(ident.to_string(), "hello");
    assert_eq!(ident.as_str(), "hello");

    let t = table[2].get_after_ctor();
    assert_eq!(t, "SYM_CACHE");
}

#[test]
fn basic_sym_macro() {
    let registry = Registry::new();
    let table = registered_table(&registry, &[&"hello", &"hello", &"SYM_CACHE"]);
    let ident: Symbol = table[0].get_after_ctor();
    let string: Symbol = table[1].get_after_ctor();
    let dynamic = Symbol::new_static(&registry, &"hello");
    assert_eq!(ident, string);
    assert_eq!(ident, dynamic);

    let mut map = HashMap::new();
    map.insert(ident, 1);
    map.insert(string, 2);
    map.insert(dynamic, 3);
    assert_eq!(map.len(), 1);
    assert!(map.into_iter().eq([(ident, 3)]));

    assert_eq!(ident.to_string(), "hello");
    assert_eq!(ident.as_str(), "hello");

    let t = table[2].get_after_ctor();
    assert_eq!(t, "SYM_CACHE");
}

#[test]
fn statics() {
    let registry = Registry::new();
    let table = registered_table(&registry, &[&"a", &"a", &"c", &"a", &"b", &"c"]);
    let a = StaticSymbol::new_unchecked(&table[0]);
    let a2 = StaticSymbol::new_unchecked(&table[1]);
    let c = StaticSymbol::new_unchecked(&table[2]);
    assert_eq!(a, a2);
    assert_eq!(a, table[3].get_after_ctor());
    assert_ne!(a2, table[4].get_after_ctor());
    assert_eq!(c, table[5].get_after_ctor());
    assert_eq!(table[5].get_after_ctor(), c);
    assert_eq!(Symbol::from(c), table[5].get_after_ctor());
    assert_eq!(Symbol::from(&a), *a2);
}

#[test]
fn startup_table_twice_is_a_no_op() {
    let registry = Registry::new();
    let mut table = vec![Site::new(&"x"), Site::new(&"y"), Site::new(&"x")];
    registry.register_sites(&mut table);
    let first: Vec<Symbol> = table.iter().map(|s| s.get_after_ctor()).collect();
    assert_eq!(registry.read().len(), 2);

    registry.register_sites(&mut table);
    let second: Vec<Symbol> = table.iter().map(|s| s.get_after_ctor()).collect();
    assert_eq!(first, second);
    assert_eq!(registry.read().len(), 2);
    assert_eq!(first[0], first[2]);
    assert_ne!(first[0], first[1]);
}

#[test]
fn startup_and_runtime_agree() {
    let registry = Registry::new();
    let runtime_first = Symbol::new(&registry, "late");
    let table = registered_table(&registry, &[&"late", &"early"]);
    assert_eq!(table[0].get_after_ctor(), runtime_first);
    assert_eq!(Symbol::new(&registry, "early"), table[1].get_after_ctor());
}

#[test]
fn lazy_site_resolves_once() {
    let registry = Registry::new();
    let mut site = Site::new(&"lazy");
    let first = site.get_without_ctor_support(&registry);
    let again = site.get_without_ctor_support(&registry);
    assert_eq!(first, again);
    assert_eq!(first, site.get_after_ctor());
    assert_eq!(first, Symbol::new(&registry, "lazy"));
    assert_eq!(first.as_str(), "lazy");
}

#[test]
fn site_reads_its_literal() {
    static LITERAL: &str = "literal";
    let mut site = Site::new(&LITERAL);
    assert_eq!(*site.get_string(), "literal");
    let registry = Registry::new();
    let interned = Symbol::new(&registry, "literal");
    site.initialize(interned);
    assert_eq!(site.get_after_ctor(), interned);
    assert_eq!(*site.get_ref_after_ctor(), interned);
    assert_eq!(*site.get_string(), "literal");
}

#[test]
fn resolving_under_a_write_lock() {
    let registry = Registry::new();
    let early = Symbol::new(&registry, "second");
    let mut first = Site::new(&"first");
    let mut second = Site::new(&"second");
    {
        let mut guard = registry.write();
        first.resolve(&mut guard);
        second.resolve(&mut guard);
        assert_eq!(guard.len(), 2);
        assert_eq!(guard.get("first"), Some(first.get_after_ctor()));
    }
    assert_eq!(second.get_after_ctor(), early);
    assert_ne!(first.get_after_ctor(), second.get_after_ctor());
    assert_eq!(Symbol::try_from_ffi(&registry, first.get_after_ctor().to_ffi()), Some(first.get_after_ctor()));
}
