//! What the library asks of the application that embeds it.

use crate::attribute::Attribute;
use crate::value::{Name, Value};
use vstd::prelude::*;

verus! {

/// The capabilities of the embedding application.
///
/// Types, deferred defaults and the placeholder for a missing field live in
/// the host; the library holds handles to them and asks the host to act on
/// them. No method promises anything about its result: every contract of the
/// library that depends on the host is stated relative to what the call
/// returned. An error is handed to the library's caller as it is.
pub trait Host {
    /// What a failed call returns.
    type Error;

    /// Runs the deferred producer `block` and returns what it produced.
    fn call(&self, block: Value) -> Result<Value, Self::Error>;

    /// Casts `raw` with the type `ty`.
    fn cast(&self, ty: Value, raw: Value) -> Result<Value, Self::Error>;

    /// Turns the cast value `value` into what the type `ty` stores.
    fn serialize(&self, ty: Value, value: Value) -> Result<Value, Self::Error>;

    /// Whether, for the type `ty`, the cast value `value` has been mutated
    /// since it was `original`, without having been assigned.
    fn changed_in_place(&self, ty: Value, original: Value, value: Value) -> Result<
        bool,
        Self::Error,
    >;

    /// The placeholder that stands for a field named `name` that a set does
    /// not hold.
    fn null_attribute(&self, name: Name) -> Result<Attribute, Self::Error>;
}

} // verus!
