//! The value and provenance engine behind a record's fields.
//!
//! An [`Attribute`] holds, for one field of a model, the raw value it was
//! given, the type that casts it, where the value came from, and the cast
//! value once somebody has asked for it. An [`AttributeSet`] keeps the
//! attributes of one record in order, under their names.
//!
//! Values, types and the producers of deferred defaults belong to the
//! embedding application. The library holds them as handles ([`Value`]) and
//! asks the application, its [`Host`], to cast, to serialize and to produce.
//! Every contract that depends on the host says what holds for whatever the
//! host returned.
//!
//! - [`attribute`]: the attribute, its reads and transforms, equality, the
//!   two serialized forms, and the laws that follow from their contracts;
//! - [`attribute_set`]: the set, its mathematical model, and the ordered map
//!   of the `indexmap` crate that it is built on;
//! - [`host`], [`value`], [`error`]: what the two have in common.

pub mod attribute;
pub mod attribute_set;
pub mod error;
pub mod host;
pub mod value;

pub use attribute::compact::{CompactAttribute, CompactSource};
pub use attribute::identity::HashKey;
pub use attribute::record::Record;
pub use attribute::{Attribute, Kind, MaybeProc, Source};
pub use attribute_set::{AttributeSet, Materialize};
pub use error::DecodeError;
pub use host::Host;
pub use value::{Name, Value};
