//! New attributes from old ones. The receiver is never altered, except that
//! forgetting an assignment reads its cast value first.

use crate::attribute::{Attribute, MaybeProc, Source};
use crate::host::Host;
use crate::value::Value;
use vstd::prelude::*;

verus! {

impl Attribute {
    /// The attribute that holds `value` already cast, under the name and type
    /// of `self`.
    pub open spec fn spec_with_cast_value(&self, value: Value) -> Attribute {
        Attribute::Populated {
            name: self.spec_name(),
            raw_value: MaybeProc::NotProc(value),
            ty: self.spec_ty(),
            source: Source::PreCast,
            value: Some(value),
        }
    }

    /// The attribute after the caller assigned `value` to it.
    pub open spec fn spec_with_value_from_user(self, value: Value) -> Attribute {
        Attribute::Populated {
            name: self.spec_name(),
            raw_value: MaybeProc::NotProc(value),
            ty: self.spec_ty(),
            source: Source::FromUser(Box::new(self)),
            value: None,
        }
    }

    /// The attribute after storage gave `value` for it.
    pub open spec fn spec_with_value_from_database(&self, value: Value) -> Attribute {
        Attribute::Populated {
            name: self.spec_name(),
            raw_value: MaybeProc::NotProc(value),
            ty: self.spec_ty(),
            source: Source::FromDatabase,
            value: None,
        }
    }

    /// The same attribute with the type `ty` and no cast value.
    pub open spec fn spec_with_type(&self, ty: Value) -> Attribute {
        match *self {
            Attribute::Populated { name, raw_value, source, .. } => Attribute::Populated {
                name,
                raw_value,
                ty,
                source,
                value: None,
            },
            Attribute::Uninitialized { name, .. } => Attribute::Uninitialized { name, ty },
        }
    }

    /// What forgetting the assignment through `host` may do: the cast value
    /// is read, and on success the result holds it already cast.
    pub open spec fn forgets<H: Host>(
        self,
        host: &H,
        next: Attribute,
        r: Result<Attribute, H::Error>,
    ) -> bool {
        match r {
            Ok(fresh) => {
                &&& self.reads_value(host, next, Ok(next.held_value()))
                &&& fresh == self.spec_with_cast_value(next.held_value())
            },
            Err(e) => self.reads_value(host, next, Err(e)),
        }
    }

    /// The attribute after the caller assigned `value` to it: it remembers
    /// `self` as what it was before, and nothing is cast yet.
    #[verifier::when_used_as_spec(spec_with_value_from_user)]
    pub fn with_value_from_user(self, value: Value) -> (a: Attribute)
        ensures
            a == self.spec_with_value_from_user(value),
    {
        let name = self.name();
        let ty = self.ty();
        Attribute::from_user(name, value, ty, self)
    }

    /// The attribute after storage gave `value` for it. What storage says
    /// stands: the lineage is dropped.
    #[verifier::when_used_as_spec(spec_with_value_from_database)]
    pub fn with_value_from_database(&self, value: Value) -> (a: Attribute)
        ensures
            a == self.spec_with_value_from_database(value),
    {
        Attribute::from_database(self.name(), value, self.ty())
    }

    /// The attribute that holds `value` already cast, under the same name and
    /// type.
    #[verifier::when_used_as_spec(spec_with_cast_value)]
    pub fn with_cast_value(&self, value: Value) -> (a: Attribute)
        ensures
            a == self.spec_with_cast_value(value),
    {
        Attribute::from_cast_value(self.name(), value, self.ty())
    }

    /// The same attribute with another type. Another type may cast the raw
    /// value to something else, so the cast value is dropped.
    #[verifier::when_used_as_spec(spec_with_type)]
    pub fn with_type(&self, ty: Value) -> (a: Attribute)
        ensures
            a == self.spec_with_type(ty),
    {
        match self {
            Attribute::Populated { name, raw_value, source, .. } => Attribute::Populated {
                name: *name,
                raw_value: *raw_value,
                ty,
                source: source.clone(),
                value: None,
            },
            Attribute::Uninitialized { name, .. } => Attribute::Uninitialized { name: *name, ty },
        }
    }

    /// The attribute with its present cast value as the new baseline: no
    /// lineage, nothing left to cast.
    pub fn forgetting_assignment<H: Host>(&mut self, host: &H) -> (r: Result<Attribute, H::Error>)
        ensures
            old(self).forgets(host, *final(self), r),
    {
        match self.value(host) {
            Ok(v) => Ok(self.with_cast_value(v)),
            Err(e) => Err(e),
        }
    }
}

} // verus!
