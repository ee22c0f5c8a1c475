use stringleton::{Registry, Symbol};

#[test]
fn lib_new() {
    let registry = Registry::new();
    let a = Symbol::new(&registry, "a");
    let b = Symbol::new(&registry, "b");
    let a2 = Symbol::new(&registry, "a");
    assert_eq!(a, a2);
    assert_ne!(a, b);
}

#[test]
fn lib_new_static() {
    static UNIQUE_SYMBOL: &str =
        "This is a globally unique string that exists nowhere else in the test binary.";

    let registry = Registry::new();
    let a = Symbol::new_static(&registry, &"a");
    let b = Symbol::new_static(&registry, &"b");
    let a2 = Symbol::new_static(&registry, &"a");
    assert_eq!(a, a2);
    assert_ne!(a, b);

    let unique = Symbol::new_static(&registry, &UNIQUE_SYMBOL);
    assert_eq!(
        std::ptr::from_ref(unique.inner()),
        std::ptr::from_ref(&UNIQUE_SYMBOL)
    );
}

#[test]
fn address() {
    let registry = Registry::new();
    let a = Symbol::new_static(&registry, &"a");
    let a2 = Symbol::new(&registry, &String::from("a"));
    assert_eq!(a, a2);
    assert_eq!(a.to_ffi(), a2.to_ffi());
    let a3 = Symbol::try_from_ffi(&registry, a.to_ffi()).unwrap();
    assert_eq!(a3, a);
}

#[test]
fn symbol_new() {
    let registry = Registry::new();
    let a = Symbol::new(&registry, "a");
    let b = Symbol::new(&registry, "b");
    let a2 = Symbol::new(&registry, "a");
    assert_eq!(a, a2);
    assert_ne!(a, b);
}

#[test]
fn symbol_new_static() {
    let registry = Registry::new();
    let a = Symbol::new_static(&registry, &"a");
    let b = Symbol::new_static(&registry, &"b");
    let a2 = Symbol::new_static(&registry, &"a");
    assert_eq!(a, a2);
    assert_ne!(a, b);
}

#[test]
fn interning_many_times_gives_one_symbol() {
    let registry = Registry::new();
    let first = Symbol::new(&registry, "same-text");
    for _ in 0..100 {
        assert_eq!(Symbol::new(&registry, "same-text"), first);
        assert_eq!(Symbol::new_static(&registry, &"same-text"), first);
    }
    assert_eq!(Symbol::get(&registry, "same-text"), Some(first));
    assert_eq!(registry.read().len(), 1);
}

#[test]
fn text_is_kept() {
    let registry = Registry::new();
    let dynamic = String::from("hello");
    let symbol = Symbol::new(&registry, &dynamic);
    drop(dynamic);
    assert_eq!(symbol.as_str(), "hello");
    assert_eq!(symbol.to_string(), "hello");
    assert_eq!(symbol.len(), 5);
    assert!(!symbol.is_empty());
}

#[test]
fn length_counts_bytes() {
    let registry = Registry::new();
    let symbol = Symbol::new(&registry, "h\u{e9}llo");
    assert_eq!(symbol.len(), 6);
    let empty = Symbol::new(&registry, "");
    assert_eq!(empty.len(), 0);
    assert!(empty.is_empty());
    assert_ne!(empty, symbol);
}

#[test]
fn identity_not_content() {
    static FIRST: &str = "twin";
    static SECOND: &str = "twin";
    let first = Symbol::new_unchecked(&FIRST);
    let second = Symbol::new_unchecked(&SECOND);
    assert_eq!(first.as_str(), second.as_str());
    assert_ne!(first, second);
    assert_ne!(first.to_ffi(), second.to_ffi());

    let registry = Registry::new();
    let interned = Symbol::new_static(&registry, &FIRST);
    assert_eq!(interned, first);
    assert_ne!(interned, second);
    assert_eq!(Symbol::new_unchecked(interned.inner()), interned);
}

#[test]
fn round_trip_through_ffi() {
    let registry = Registry::new();
    let x = Symbol::new(&registry, "round trip");
    let value = x.to_ffi();
    assert_ne!(value, 0);
    assert_eq!(Symbol::try_from_ffi(&registry, value), Some(x));
    assert_eq!(Symbol::try_from_ffi(&registry, 1), None);
    assert_eq!(Symbol::try_from_ffi(&registry, 0), None);
    assert_eq!(Symbol::try_from_ffi(&registry, value + 1), None);
}

#[test]
fn concrete_scenario() {
    let registry = Registry::new();
    let handles = [
        Symbol::new(&registry, "a"),
        Symbol::new(&registry, "b"),
        Symbol::new(&registry, "a"),
    ];
    let h1 = handles[0];
    let h2 = handles[1];
    assert_eq!(handles, [h1, h2, h1]);
    assert_ne!(h1, h2);
    assert_eq!(Symbol::try_from_ffi(&registry, h1.to_ffi()), Some(h1));
    assert_eq!(Symbol::get(&registry, "c"), None);
}

#[test]
fn registries_intern_apart() {
    let host = Registry::new();
    let plugin = Registry::new();
    let a = Symbol::new(&host, "shared");
    let b = Symbol::new(&plugin, "shared");
    assert_ne!(a, b);
    assert_eq!(Symbol::try_from_ffi(&plugin, a.to_ffi()), None);
}

#[test]
fn text_comparisons() {
    let registry = Registry::new();
    let b = Symbol::new(&registry, "b");
    assert_eq!(b, "b");
    assert_ne!(b, "bb");
    assert!(b == *"b");
    assert!(b < "bb");
    assert!(b > "a");
    assert!(b > "");
    assert!(b < "c");
    assert_eq!(b.partial_cmp("b"), Some(std::cmp::Ordering::Equal));
    assert_eq!(b.partial_cmp(&"\u{e9}"), Some(std::cmp::Ordering::Less));
    assert_eq!("b", b);
    assert!(*"b" == b);
    assert_ne!("c", b);
    assert!("a" < b);
    assert!("bb" > b);
    assert_eq!("b".partial_cmp(&b), Some(std::cmp::Ordering::Equal));
}
