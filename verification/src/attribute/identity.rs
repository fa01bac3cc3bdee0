//! When two attributes are the same, and the key to hash them by.
//!
//! Two attributes are equal when they agree in kind, name, raw value and
//! type. Where a value came from before, whether it has been cast and what
//! it was cast to play no part.

use crate::attribute::Attribute;
use crate::host::Host;
use crate::value::{Name, Value};
use vstd::prelude::*;

verus! {

/// What equality and hashing of an attribute go by.
#[derive(Clone, Copy, PartialEq, Eq, Structural, Debug, Hash)]
pub struct HashKey {
    /// The number of the attribute's kind.
    pub discriminant: i32,
    pub name: Name,
    /// The value before any cast.
    pub value: Value,
    pub ty: Value,
}

impl Attribute {
    /// The hash key of an attribute whose raw value is known. While the raw
    /// value is still to be produced, the key holds the absent value for it.
    pub open spec fn key(self) -> HashKey {
        HashKey {
            discriminant: self.spec_kind().spec_discriminant(),
            name: self.spec_name(),
            value: match self.raw().known() {
                Some(v) => v,
                None => Value::Nil,
            },
            ty: self.spec_ty(),
        }
    }

    /// What asking for the hash key through `host` may do: the raw value is
    /// read, and on success the key is that of the attribute afterwards.
    pub open spec fn reads_key<H: Host>(
        self,
        host: &H,
        next: Attribute,
        r: Result<HashKey, H::Error>,
    ) -> bool {
        match r {
            Ok(k) => self.reads_raw(host, next, Ok(k.value)) && k == next.key(),
            Err(e) => self.reads_raw(host, next, Err(e)),
        }
    }

    /// The key to hash this attribute by. Reads the raw value, which runs the
    /// producer of a deferred default that has not run yet.
    pub fn hash_key<H: Host>(&mut self, host: &H) -> (r: Result<HashKey, H::Error>)
        ensures
            old(self).reads_key(host, *final(self), r),
    {
        match self.value_before_type_cast(host) {
            Ok(value) => Ok(
                HashKey {
                    discriminant: self.kind().discriminant(),
                    name: self.name(),
                    value,
                    ty: self.ty(),
                },
            ),
            Err(e) => Err(e),
        }
    }

    /// What comparing this attribute with `other` through `host` may do: the
    /// key of this attribute is read, then that of `other`, and the answer is
    /// whether the two keys are equal. If the first read fails, `other` is
    /// left alone.
    pub open spec fn compares<H: Host>(
        self,
        other: Attribute,
        host: &H,
        next: Attribute,
        next_other: Attribute,
        r: Result<bool, H::Error>,
    ) -> bool {
        match r {
            Ok(b) => {
                &&& self.reads_key(host, next, Ok(next.key()))
                &&& other.reads_key(host, next_other, Ok(next_other.key()))
                &&& b == (next.key() == next_other.key())
            },
            Err(e) => {
                ||| {
                    &&& self.reads_key(host, next, Err(e))
                    &&& next_other == other
                }
                ||| {
                    &&& self.reads_key(host, next, Ok(next.key()))
                    &&& other.reads_key(host, next_other, Err(e))
                }
            },
        }
    }

    /// Whether the two attributes are equal: whether their hash keys are.
    /// Reads the raw values of both.
    pub fn equals<H: Host>(&mut self, other: &mut Attribute, host: &H) -> (r: Result<
        bool,
        H::Error,
    >)
        ensures
            old(self).compares(*old(other), host, *final(self), *final(other), r),
    {
        let mine = match self.hash_key(host) {
            Ok(k) => k,
            Err(e) => { return Err(e); },
        };
        let theirs = match other.hash_key(host) {
            Ok(k) => k,
            Err(e) => { return Err(e); },
        };
        Ok(mine == theirs)
    }
}

} // verus!
