//! Process-wide string interning: texts become small handles that compare by
//! identity, so that equal texts give bit-identical handles.
//!
//! A [`Registry`] owns the interned texts. Code that shares one registry gets
//! one [`Symbol`] per distinct text; a [`Site`] holds the symbol of one
//! literal use, resolved once by a registration pass over its module's table
//! or, failing that, on first access.

mod index;
pub mod model;
mod registry;
mod site;
mod static_symbol;
mod store;
mod symbol;

pub use registry::{Registry, RegistryReadGuard, RegistryWriteGuard};
pub use site::{pending, Site};
pub use static_symbol::StaticSymbol;
pub use store::Store;
pub use symbol::Symbol;
