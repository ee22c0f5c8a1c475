use stringleton::{Site, Store, Symbol};

#[test]
fn empty_store() {
    let store = Store::new();
    assert!(store.is_empty());
    assert_eq!(store.len(), 0);
    assert_eq!(store.get("anything"), None);
    assert_eq!(store.get_by_address(8), None);
}

#[test]
fn store_dedups_by_text() {
    let mut store = Store::new();
    let a = store.get_or_insert("a");
    let b = store.get_or_insert_static(&"b");
    let a2 = store.get_or_insert_static(&"a");
    let b2 = store.get_or_insert(&String::from("b"));
    assert_eq!(a, a2);
    assert_eq!(b, b2);
    assert_ne!(a, b);
    assert_eq!(store.len(), 2);
    assert_eq!(store.get("a"), Some(a));
    assert_eq!(store.get("a").unwrap().as_str(), "a");
    assert_eq!(store.get_by_address(b.to_ffi()), Some(b));
    assert_eq!(store.get_by_address(b.to_ffi()).unwrap().as_str(), "b");
}

#[test]
fn static_insert_reuses_storage() {
    static TEXT: &str = "kept as is";
    let mut store = Store::new();
    let symbol = store.get_or_insert_static(&TEXT);
    assert_eq!(std::ptr::from_ref(symbol.inner()), std::ptr::from_ref(&TEXT));
    assert_eq!(symbol, Symbol::new_unchecked(&TEXT));
}

#[test]
fn new_text_gets_its_own_address() {
    let mut store = Store::new();
    let x = store.get_or_insert_static(&"x");
    let y = store.get_or_insert("y");
    assert_ne!(x.to_ffi(), 0);
    assert_ne!(y.to_ffi(), 0);
    assert_ne!(x.to_ffi(), y.to_ffi());
    assert_eq!(store.len(), 2);
    assert_eq!(store.get_by_address(x.to_ffi()).unwrap().as_str(), "x");
    assert_eq!(store.get_by_address(y.to_ffi()).unwrap().as_str(), "y");
    assert_eq!(store.get_by_address(0), None);
}

#[test]
fn store_registers_a_table() {
    let mut store = Store::new();
    let early = store.get_or_insert("b");
    let mut table = vec![Site::new(&"a"), Site::new(&"b"), Site::new(&"a")];
    store.register_sites(&mut table);
    assert_eq!(store.len(), 2);
    assert_eq!(table[1].get_after_ctor(), early);
    assert_eq!(table[0].get_after_ctor(), table[2].get_after_ctor());
    assert_eq!(store.get("a"), Some(table[0].get_after_ctor()));
    store.register_sites(&mut table);
    assert_eq!(store.len(), 2);
    assert_eq!(store.get("a"), Some(table[0].get_after_ctor()));
}
