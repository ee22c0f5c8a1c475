//! Symbols: copyable handles on interned text, identified by the address of
//! their canonical storage.

use core::cmp::Ordering;

use vstd::prelude::*;
use vstd::string::StringSliceAdditionalSpecFns;
use vstd::utf8::{encode_scalar, encode_utf8};

use crate::registry::Registry;

verus! {

/// The lexicographic order of two byte strings: the first differing byte
/// decides, and a proper prefix comes first.
pub open spec fn lexicographic(a: Seq<u8>, b: Seq<u8>) -> Ordering
    decreases a.len(),
{
    if a.len() == 0 {
        if b.len() == 0 {
            Ordering::Equal
        } else {
            Ordering::Less
        }
    } else if b.len() == 0 {
        Ordering::Greater
    } else if a[0] < b[0] {
        Ordering::Less
    } else if a[0] > b[0] {
        Ordering::Greater
    } else {
        lexicographic(a.subrange(1, a.len() as int), b.subrange(1, b.len() as int))
    }
}

/// A text encodes to no bytes exactly when it has no characters.
proof fn lemma_encoding_empty(text: Seq<char>)
    ensures
        (encode_utf8(text).len() == 0) == (text.len() == 0),
{
    if text.len() > 0 {
        let first = encode_scalar(text[0] as u32);
        assert(first.len() >= 1);
        assert(encode_utf8(text) == first + encode_utf8(text.drop_first()));
    }
}

/// Relies on `PartialEq` for `str`: two strings are equal exactly when their
/// texts are.
#[verifier::external_body]
fn texts_equal(a: &str, b: &str) -> (equal: bool)
    ensures
        equal == (a@ == b@),
{
    a == b
}

/// Relies on `Ord` for `str`: strings are ordered lexicographically by their
/// bytes.
#[verifier::external_body]
fn compare_texts(a: &str, b: &str) -> (order: Ordering)
    ensures
        order == lexicographic(a.spec_bytes(), b.spec_bytes()),
{
    a.cmp(b)
}

/// Relies on `core::ptr::from_ref`: the address of the storage that a
/// reference points to. A reference is never null.
#[verifier::external_body]
pub(crate) fn address_of(storage: &'static &'static str) -> (address: u64)
    ensures
        address != 0,
{
    core::ptr::from_ref::<&'static str>(storage) as usize as u64
}

/// Interned string with very fast comparison.
///
/// A symbol is a thin handle on a process-lifetime string reference. Its
/// identity is the address of that reference: two symbols are equal exactly
/// when they hold the same address, never by comparing text. Hashing and
/// ordering go by that address first, so they depend on memory layout and
/// differ from run to run; one address always holds one text, so the text
/// never decides them.
///
/// Symbols are never freed: the registry keeps every interned text for the
/// rest of the process.
#[derive(Clone, Copy, Debug, Hash, PartialOrd, Ord)]
pub struct Symbol {
    pub(crate) address: u64,
    pub(crate) storage: &'static &'static str,
}

impl Symbol {
    /// A symbol's address is that of a reference, and so never null.
    #[verifier::type_invariant]
    pub(crate) open(crate) spec fn address_not_null(self) -> bool {
        self.address != 0
    }

    /// The address that identifies this symbol.
    pub open(crate) spec fn address(&self) -> u64 {
        self.address
    }

    /// The text of this symbol.
    pub open(crate) spec fn text(&self) -> Seq<char> {
        (*self.storage)@
    }

    /// The UTF-8 bytes of this symbol's text.
    pub open(crate) spec fn bytes(&self) -> Seq<u8> {
        (*self.storage).spec_bytes()
    }

    /// Create a deduplicated symbol at runtime: every call with the same text
    /// on one registry gives the same symbol.
    ///
    /// A new text is copied into storage that is never freed, so interning
    /// unbounded or untrusted input leaks memory.
    pub fn new(registry: &Registry, string: &str) -> (symbol: Symbol)
        ensures
            symbol.text() == string@,
    {
        registry.get_or_insert(string)
    }

    /// Create a deduplicated symbol at runtime from a static reference to a
    /// static string; if the text is new, `string` itself becomes its
    /// canonical storage and nothing is allocated for the text.
    pub fn new_static(registry: &Registry, string: &'static &'static str) -> (symbol: Symbol)
        ensures
            symbol.text() == (*string)@,
    {
        registry.get_or_insert_static(string)
    }

    /// Get a previously registered symbol, or `None` if `string` has not been
    /// interned.
    pub fn get(registry: &Registry, string: &str) -> (symbol: Option<Symbol>)
        ensures
            symbol matches Some(s) ==> s.text() == string@,
    {
        registry.get(string)
    }

    /// Reconstitute a symbol from a value that [`to_ffi()`](Symbol::to_ffi)
    /// produced, checking with the registry that it is one.
    pub fn try_from_ffi(registry: &Registry, value: u64) -> (symbol: Option<Symbol>)
        ensures
            symbol matches Some(s) ==> s.address() == value,
            value == 0 ==> symbol is None,
    {
        registry.get_by_address(value)
    }

    /// Make a symbol of `storage` itself, without the registry.
    ///
    /// The symbol is identified by the address of `storage`. It equals a
    /// registered symbol only when `storage` is that symbol's own canonical
    /// storage, as [`inner()`](Symbol::inner) gives it back; two separately
    /// allocated references to equal text never make equal symbols.
    pub fn new_unchecked(storage: &'static &'static str) -> (symbol: Symbol)
        ensures
            symbol.text() == (*storage)@,
    {
        Symbol { address: address_of(storage), storage }
    }

    /// Get the string representation of this symbol.
    pub fn as_str(&self) -> (s: &'static str)
        ensures
            s@ == self.text(),
    {
        *self.storage
    }

    /// The text of this symbol, as an owned string.
    pub fn to_string(&self) -> (text: String)
        ensures
            text@ == self.text(),
    {
        self.as_str().to_owned()
    }

    /// Get the underlying representation of this symbol: its canonical
    /// storage.
    pub fn inner(&self) -> (storage: &'static &'static str)
        ensures
            (*storage)@ == self.text(),
    {
        self.storage
    }

    /// Convert the symbol to an FFI-friendly `u64`.
    pub fn to_ffi(&self) -> (value: u64)
        ensures
            value == self.address(),
            value != 0,
    {
        proof {
            use_type_invariant(self);
        }
        self.address
    }

    /// Length of the underlying string, in bytes.
    pub fn len(&self) -> (n: usize)
        ensures
            n == self.bytes().len(),
    {
        (*self.storage).as_bytes().len()
    }

    /// Whether or not this is the empty symbol: it has no characters, and so
    /// no bytes.
    pub fn is_empty(&self) -> (empty: bool)
        ensures
            empty == (self.text().len() == 0),
            empty == (self.bytes().len() == 0),
    {
        proof {
            lemma_encoding_empty(self.text());
        }
        self.storage.is_empty()
    }
}

impl PartialEq for Symbol {
    fn eq(&self, other: &Symbol) -> (equal: bool) {
        self.address == other.address
    }
}

impl vstd::std_specs::cmp::PartialEqSpecImpl for Symbol {
    open spec fn obeys_eq_spec() -> bool {
        true
    }

    open spec fn eq_spec(&self, other: &Symbol) -> bool {
        self.address() == other.address()
    }
}

impl Eq for Symbol {}

impl PartialEq<str> for Symbol {
    fn eq(&self, other: &str) -> (equal: bool) {
        texts_equal(self.as_str(), other)
    }
}

impl vstd::std_specs::cmp::PartialEqSpecImpl<str> for Symbol {
    open spec fn obeys_eq_spec() -> bool {
        true
    }

    open spec fn eq_spec(&self, other: &str) -> bool {
        self.text() == other@
    }
}

impl PartialEq<&str> for Symbol {
    fn eq(&self, other: &&str) -> (equal: bool) {
        texts_equal(self.as_str(), *other)
    }
}

impl vstd::std_specs::cmp::PartialEqSpecImpl<&str> for Symbol {
    open spec fn obeys_eq_spec() -> bool {
        true
    }

    open spec fn eq_spec(&self, other: &&str) -> bool {
        self.text() == (*other)@
    }
}

impl PartialOrd<str> for Symbol {
    fn partial_cmp(&self, other: &str) -> (order: Option<Ordering>) {
        Some(compare_texts(self.as_str(), other))
    }
}

impl vstd::std_specs::cmp::PartialOrdSpecImpl<str> for Symbol {
    open spec fn obeys_partial_cmp_spec() -> bool {
        true
    }

    open spec fn partial_cmp_spec(&self, other: &str) -> Option<Ordering> {
        Some(lexicographic(self.bytes(), other.spec_bytes()))
    }
}

impl PartialOrd<&str> for Symbol {
    fn partial_cmp(&self, other: &&str) -> (order: Option<Ordering>) {
        Some(compare_texts(self.as_str(), *other))
    }
}

impl vstd::std_specs::cmp::PartialOrdSpecImpl<&str> for Symbol {
    open spec fn obeys_partial_cmp_spec() -> bool {
        true
    }

    open spec fn partial_cmp_spec(&self, other: &&str) -> Option<Ordering> {
        Some(lexicographic(self.bytes(), (*other).spec_bytes()))
    }
}

impl PartialEq<Symbol> for str {
    fn eq(&self, other: &Symbol) -> (equal: bool) {
        texts_equal(self, other.as_str())
    }
}

impl vstd::std_specs::cmp::PartialEqSpecImpl<Symbol> for str {
    open spec fn obeys_eq_spec() -> bool {
        true
    }

    open spec fn eq_spec(&self, other: &Symbol) -> bool {
        self@ == other.text()
    }
}

impl PartialEq<Symbol> for &str {
    fn eq(&self, other: &Symbol) -> (equal: bool) {
        texts_equal(*self, other.as_str())
    }
}

impl vstd::std_specs::cmp::PartialEqSpecImpl<Symbol> for &str {
    open spec fn obeys_eq_spec() -> bool {
        true
    }

    open spec fn eq_spec(&self, other: &Symbol) -> bool {
        (*self)@ == other.text()
    }
}

impl PartialOrd<Symbol> for str {
    fn partial_cmp(&self, other: &Symbol) -> (order: Option<Ordering>) {
        Some(compare_texts(self, other.as_str()))
    }
}

impl vstd::std_specs::cmp::PartialOrdSpecImpl<Symbol> for str {
    open spec fn obeys_partial_cmp_spec() -> bool {
        true
    }

    open spec fn partial_cmp_spec(&self, other: &Symbol) -> Option<Ordering> {
        Some(lexicographic(self.spec_bytes(), other.bytes()))
    }
}

impl PartialOrd<Symbol> for &str {
    fn partial_cmp(&self, other: &Symbol) -> (order: Option<Ordering>) {
        Some(compare_texts(*self, other.as_str()))
    }
}

impl vstd::std_specs::cmp::PartialOrdSpecImpl<Symbol> for &str {
    open spec fn obeys_partial_cmp_spec() -> bool {
        true
    }

    open spec fn partial_cmp_spec(&self, other: &Symbol) -> Option<Ordering> {
        Some(lexicographic((*self).spec_bytes(), other.bytes()))
    }
}

} // verus!
