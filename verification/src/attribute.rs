//! One field's value: what was stored, what was assigned, what it casts to.

use crate::host::Host;
use crate::value::{Name, Value};
use vstd::prelude::*;

pub mod compact;
pub mod identity;
pub mod laws;
pub mod mark;
pub mod read;
pub mod record;
pub mod transform;

verus! {

/// A raw value: known, or still to be produced by a block of the host.
///
/// The block of a `Proc` runs at most once. What it produced is kept in
/// `memo`, which only ever goes from empty to filled.
#[derive(Clone, Copy, Debug)]
pub enum MaybeProc {
    /// A value that is known.
    NotProc(Value),
    /// A producer and what it has produced, if it has run.
    Proc { block: Value, memo: Option<Value> },
}

/// How a populated attribute came by its value.
#[derive(Debug)]
pub enum Source {
    /// Assigned by the caller; holds the attribute as it was before.
    FromUser(Box<Attribute>),
    /// Loaded from storage.
    FromDatabase,
    /// Given already cast.
    PreCast,
    /// A default of the model; holds the attribute it replaced, if any.
    UserProvidedDefault(Option<Box<Attribute>>),
}

/// The state of one field.
///
/// `value` caches the cast value. It is filled by the first read of the
/// typed value and never emptied or overwritten afterwards. Everything that
/// "changes" an attribute returns a new one.
#[derive(Debug)]
pub enum Attribute {
    /// A field that has a value.
    Populated { name: Name, raw_value: MaybeProc, ty: Value, source: Source, value: Option<Value> },
    /// A field that was never given a value.
    Uninitialized { name: Name, ty: Value },
}

/// The five kinds of attribute that the serialized forms tell apart.
#[derive(Clone, Copy, PartialEq, Eq, Structural, Debug, Hash)]
pub enum Kind {
    Uninitialized,
    FromUser,
    FromDatabase,
    PreCast,
    UserProvidedDefault,
}

impl Kind {
    /// The number that stands for this kind in the compact form and in hash
    /// keys.
    pub open spec fn spec_discriminant(self) -> i32 {
        match self {
            Kind::Uninitialized => 0,
            Kind::FromUser => 1,
            Kind::FromDatabase => 2,
            Kind::PreCast => 3,
            Kind::UserProvidedDefault => 4,
        }
    }

    /// The number that stands for this kind in the compact form and in hash
    /// keys.
    #[verifier::when_used_as_spec(spec_discriminant)]
    pub fn discriminant(self) -> (d: i32)
        ensures
            d == self.spec_discriminant(),
    {
        match self {
            Kind::Uninitialized => 0,
            Kind::FromUser => 1,
            Kind::FromDatabase => 2,
            Kind::PreCast => 3,
            Kind::UserProvidedDefault => 4,
        }
    }
}

impl MaybeProc {
    /// The raw value, as far as it is known without running anything.
    pub open spec fn known(self) -> Option<Value> {
        match self {
            MaybeProc::NotProc(v) => Some(v),
            MaybeProc::Proc { memo, .. } => memo,
        }
    }

    /// This raw value once its producer has produced `v`. A value that is
    /// known already stays what it is.
    pub open spec fn settled(self, v: Value) -> MaybeProc {
        match self {
            MaybeProc::Proc { block, memo: None } => MaybeProc::Proc { block, memo: Some(v) },
            _ => self,
        }
    }

    /// What reading this raw value through `host` may do: `next` is the raw
    /// value afterwards and `r` what the read returns.
    ///
    /// A known value is returned as it is and the host is not needed. An
    /// unsettled producer is run: what it produces is kept and returned; if
    /// it fails, nothing is kept.
    pub open spec fn reads<H: Host>(
        self,
        host: &H,
        next: MaybeProc,
        r: Result<Value, H::Error>,
    ) -> bool {
        match self {
            MaybeProc::NotProc(v) => next == self && r == Ok::<Value, H::Error>(v),
            MaybeProc::Proc { memo: Some(v), .. } => next == self && r == Ok::<Value, H::Error>(v),
            MaybeProc::Proc { block, memo: None } => match r {
                Ok(v) => call_ensures(H::call, (host, block), Ok(v)) && next == self.settled(v),
                Err(e) => call_ensures(H::call, (host, block), Err(e)) && next == self,
            },
        }
    }

    /// A raw value from what the caller gave as a default: a producer if the
    /// host says that `value` is one, the value itself if not.
    pub fn new(value: Value, is_proc: bool) -> (r: MaybeProc)
        ensures
            r == if is_proc {
                (MaybeProc::Proc { block: value, memo: None })
            } else {
                MaybeProc::NotProc(value)
            },
    {
        if is_proc {
            MaybeProc::Proc { block: value, memo: None }
        } else {
            MaybeProc::NotProc(value)
        }
    }

    /// Keeps `produced` as what the producer returned, unless a value is
    /// known already.
    pub fn settle(&mut self, produced: Value)
        ensures
            *final(self) == old(self).settled(produced),
    {
        match self {
            MaybeProc::Proc { memo, .. } => {
                if memo.is_none() {
                    *memo = Some(produced);
                }
            },
            MaybeProc::NotProc(_) => {},
        }
    }

    /// The raw value. Runs the producer if it has not run yet.
    pub fn value<H: Host>(&mut self, host: &H) -> (r: Result<Value, H::Error>)
        ensures
            old(self).reads(host, *final(self), r),
    {
        match *self {
            MaybeProc::NotProc(v) => Ok(v),
            MaybeProc::Proc { memo: Some(v), .. } => Ok(v),
            MaybeProc::Proc { block, memo: None } => {
                match host.call(block) {
                    Ok(v) => {
                        self.settle(v);
                        Ok(v)
                    },
                    Err(e) => Err(e),
                }
            },
        }
    }
}

impl Attribute {
    // ----- the model that the contracts speak of -----

    /// The name of the field.
    pub open spec fn spec_name(&self) -> Name {
        match *self {
            Attribute::Populated { name, .. } => name,
            Attribute::Uninitialized { name, .. } => name,
        }
    }

    /// The type that casts the field's value.
    pub open spec fn spec_ty(&self) -> Value {
        match *self {
            Attribute::Populated { ty, .. } => ty,
            Attribute::Uninitialized { ty, .. } => ty,
        }
    }

    /// The kind of the attribute: uninitialized, or that of its source.
    pub open spec fn spec_kind(&self) -> Kind {
        match *self {
            Attribute::Uninitialized { .. } => Kind::Uninitialized,
            Attribute::Populated { source: Source::FromUser(_), .. } => Kind::FromUser,
            Attribute::Populated { source: Source::FromDatabase, .. } => Kind::FromDatabase,
            Attribute::Populated { source: Source::PreCast, .. } => Kind::PreCast,
            Attribute::Populated {
                source: Source::UserProvidedDefault(_),
                ..
            } => Kind::UserProvidedDefault,
        }
    }

    /// The raw value. An uninitialized attribute has the absent value.
    pub open spec fn raw(self) -> MaybeProc {
        match self {
            Attribute::Populated { raw_value, .. } => raw_value,
            Attribute::Uninitialized { .. } => MaybeProc::NotProc(Value::Nil),
        }
    }

    /// The cast value, if the attribute holds one.
    pub open spec fn cache(self) -> Option<Value> {
        match self {
            Attribute::Populated { value, .. } => value,
            Attribute::Uninitialized { .. } => None,
        }
    }

    /// The attribute that this one was made from, where its source keeps it.
    pub open spec fn previous(self) -> Option<Attribute> {
        match self {
            Attribute::Populated { source: Source::FromUser(prev), .. } => Some(*prev),
            Attribute::Populated {
                source: Source::UserProvidedDefault(Some(prev)),
                ..
            } => Some(*prev),
            _ => None,
        }
    }

    /// The attribute at the far end of the lineage: the state before any
    /// assignment or default that is still remembered.
    pub open spec fn origin(self) -> Attribute
        decreases self,
    {
        match self {
            Attribute::Populated { source: Source::FromUser(prev), .. } => prev.origin(),
            Attribute::Populated {
                source: Source::UserProvidedDefault(Some(prev)),
                ..
            } => prev.origin(),
            _ => self,
        }
    }

    /// This attribute with `raw` for its raw value.
    pub open spec fn with_raw(self, raw: MaybeProc) -> Attribute {
        match self {
            Attribute::Populated { name, ty, source, value, .. } => Attribute::Populated {
                name,
                raw_value: raw,
                ty,
                source,
                value,
            },
            Attribute::Uninitialized { .. } => self,
        }
    }

    /// This attribute with `cache` for its cast value.
    pub open spec fn with_cache(self, cache: Option<Value>) -> Attribute {
        match self {
            Attribute::Populated { name, raw_value, ty, source, .. } => Attribute::Populated {
                name,
                raw_value,
                ty,
                source,
                value: cache,
            },
            Attribute::Uninitialized { .. } => self,
        }
    }

    /// This attribute with `origin` at the far end of its lineage.
    pub open spec fn with_origin(self, origin: Attribute) -> Attribute
        decreases self,
    {
        match self {
            Attribute::Populated {
                name,
                raw_value,
                ty,
                source: Source::FromUser(prev),
                value,
            } => Attribute::Populated {
                name,
                raw_value,
                ty,
                source: Source::FromUser(Box::new(prev.with_origin(origin))),
                value,
            },
            Attribute::Populated {
                name,
                raw_value,
                ty,
                source: Source::UserProvidedDefault(Some(prev)),
                value,
            } => Attribute::Populated {
                name,
                raw_value,
                ty,
                source: Source::UserProvidedDefault(Some(Box::new(prev.with_origin(origin)))),
                value,
            },
            _ => origin,
        }
    }

    // ----- constructors -----

    /// What [`Attribute::from_database`] builds.
    pub open spec fn spec_from_database(name: Name, raw: Value, ty: Value) -> Attribute {
        Attribute::Populated {
            name,
            raw_value: MaybeProc::NotProc(raw),
            ty,
            source: Source::FromDatabase,
            value: None,
        }
    }

    /// What [`Attribute::from_user`] builds.
    pub open spec fn spec_from_user(
        name: Name,
        raw: Value,
        ty: Value,
        original: Attribute,
    ) -> Attribute {
        Attribute::Populated {
            name,
            raw_value: MaybeProc::NotProc(raw),
            ty,
            source: Source::FromUser(Box::new(original)),
            value: None,
        }
    }

    /// What [`Attribute::from_cast_value`] builds.
    pub open spec fn spec_from_cast_value(name: Name, value: Value, ty: Value) -> Attribute {
        Attribute::Populated {
            name,
            raw_value: MaybeProc::NotProc(value),
            ty,
            source: Source::PreCast,
            value: Some(value),
        }
    }

    /// What [`Attribute::uninitialized`] builds.
    pub open spec fn spec_uninitialized(name: Name, ty: Value) -> Attribute {
        Attribute::Uninitialized { name, ty }
    }

    /// What [`Attribute::user_provided_default`] builds.
    pub open spec fn spec_user_provided_default(
        name: Name,
        value: MaybeProc,
        ty: Value,
        original: Option<Attribute>,
    ) -> Attribute {
        Attribute::Populated {
            name,
            raw_value: value,
            ty,
            source: Source::UserProvidedDefault(
                match original {
                    Some(o) => Some(Box::new(o)),
                    None => None,
                },
            ),
            value: None,
        }
    }

    /// An attribute as storage holds it: `raw` is known, nothing is cast.
    #[verifier::when_used_as_spec(spec_from_database)]
    pub fn from_database(name: Name, raw: Value, ty: Value) -> (a: Attribute)
        ensures
            a == Attribute::spec_from_database(name, raw, ty),
    {
        Attribute::Populated {
            name,
            raw_value: MaybeProc::NotProc(raw),
            ty,
            source: Source::FromDatabase,
            value: None,
        }
    }

    /// An attribute that the caller assigned `raw` to; `original` is the
    /// attribute as it was before.
    #[verifier::when_used_as_spec(spec_from_user)]
    pub fn from_user(name: Name, raw: Value, ty: Value, original: Attribute) -> (a: Attribute)
        ensures
            a == Attribute::spec_from_user(name, raw, ty, original),
    {
        Attribute::Populated {
            name,
            raw_value: MaybeProc::NotProc(raw),
            ty,
            source: Source::FromUser(Box::new(original)),
            value: None,
        }
    }

    /// An attribute whose value is cast already: `value` is both its raw and
    /// its cast value, so it counts as read and is never cast.
    #[verifier::when_used_as_spec(spec_from_cast_value)]
    pub fn from_cast_value(name: Name, value: Value, ty: Value) -> (a: Attribute)
        ensures
            a == Attribute::spec_from_cast_value(name, value, ty),
    {
        Attribute::Populated {
            name,
            raw_value: MaybeProc::NotProc(value),
            ty,
            source: Source::PreCast,
            value: Some(value),
        }
    }

    /// An attribute without a value.
    #[verifier::when_used_as_spec(spec_uninitialized)]
    pub fn uninitialized(name: Name, ty: Value) -> (a: Attribute)
        ensures
            a == Attribute::spec_uninitialized(name, ty),
    {
        Attribute::Uninitialized { name, ty }
    }

    /// An attribute that holds a default of the model, which may still have
    /// to be produced; `original` is the attribute that the default replaced.
    #[verifier::when_used_as_spec(spec_user_provided_default)]
    pub fn user_provided_default(
        name: Name,
        value: MaybeProc,
        ty: Value,
        original: Option<Attribute>,
    ) -> (a: Attribute)
        ensures
            a == Attribute::spec_user_provided_default(name, value, ty, original),
    {
        let previous = match original {
            Some(o) => Some(Box::new(o)),
            None => None,
        };
        Attribute::Populated {
            name,
            raw_value: value,
            ty,
            source: Source::UserProvidedDefault(previous),
            value: None,
        }
    }

    // ----- what can be read without the host -----

    /// The name of the field.
    #[verifier::when_used_as_spec(spec_name)]
    pub fn name(&self) -> (n: Name)
        ensures
            n == self.spec_name(),
    {
        match self {
            Attribute::Populated { name, .. } => *name,
            Attribute::Uninitialized { name, .. } => *name,
        }
    }

    /// The type that casts the field's value.
    #[verifier::when_used_as_spec(spec_ty)]
    pub fn ty(&self) -> (t: Value)
        ensures
            t == self.spec_ty(),
    {
        match self {
            Attribute::Populated { ty, .. } => *ty,
            Attribute::Uninitialized { ty, .. } => *ty,
        }
    }

    /// The kind of the attribute: uninitialized, or that of its source.
    #[verifier::when_used_as_spec(spec_kind)]
    pub fn kind(&self) -> (k: Kind)
        ensures
            k == self.spec_kind(),
    {
        match self {
            Attribute::Uninitialized { .. } => Kind::Uninitialized,
            Attribute::Populated { source, .. } => match source {
                Source::FromUser(_) => Kind::FromUser,
                Source::FromDatabase => Kind::FromDatabase,
                Source::PreCast => Kind::PreCast,
                Source::UserProvidedDefault(_) => Kind::UserProvidedDefault,
            },
        }
    }

    /// Whether the attribute has a value.
    pub open spec fn spec_is_initialized(&self) -> bool {
        *self is Populated
    }

    /// Whether the value was assigned by the caller.
    pub open spec fn spec_came_from_user(&self) -> bool {
        self.spec_kind() == Kind::FromUser
    }

    /// Whether the cast value has been read: whether the attribute holds it.
    pub open spec fn spec_has_been_read(&self) -> bool {
        self.cache() is Some
    }

    /// Whether the attribute has a value.
    #[verifier::when_used_as_spec(spec_is_initialized)]
    pub fn is_initialized(&self) -> (b: bool)
        ensures
            b == self.spec_is_initialized(),
    {
        match self {
            Attribute::Populated { .. } => true,
            Attribute::Uninitialized { .. } => false,
        }
    }

    /// Whether the value was assigned by the caller.
    #[verifier::when_used_as_spec(spec_came_from_user)]
    pub fn came_from_user(&self) -> (b: bool)
        ensures
            b == self.spec_came_from_user(),
    {
        match self {
            Attribute::Populated { source: Source::FromUser(_), .. } => true,
            _ => false,
        }
    }

    /// Whether the cast value has been read: whether the attribute holds it.
    #[verifier::when_used_as_spec(spec_has_been_read)]
    pub fn has_been_read(&self) -> (b: bool)
        ensures
            b == self.spec_has_been_read(),
    {
        match self {
            Attribute::Populated { value, .. } => value.is_some(),
            Attribute::Uninitialized { .. } => false,
        }
    }

    /// The attribute that this one was made from, where its source keeps it.
    pub fn original_attribute(&self) -> (r: Option<&Attribute>)
        ensures
            match r {
                Some(prev) => self.previous() == Some(*prev),
                None => self.previous().is_none(),
            },
    {
        match self {
            Attribute::Populated { source: Source::FromUser(prev), .. } => Some(&**prev),
            Attribute::Populated {
                source: Source::UserProvidedDefault(Some(prev)),
                ..
            } => Some(&**prev),
            _ => None,
        }
    }
}

impl Clone for Source {
    fn clone(&self) -> (r: Self)
        ensures
            r == *self,
        decreases *self,
    {
        match self {
            Source::FromUser(prev) => Source::FromUser(Box::new((&**prev).clone())),
            Source::FromDatabase => Source::FromDatabase,
            Source::PreCast => Source::PreCast,
            Source::UserProvidedDefault(Some(prev)) => Source::UserProvidedDefault(
                Some(Box::new((&**prev).clone())),
            ),
            Source::UserProvidedDefault(None) => Source::UserProvidedDefault(None),
        }
    }
}

impl Clone for Attribute {
    /// A copy that is equal to `self` in every part, lineage and caches
    /// included.
    fn clone(&self) -> (r: Self)
        ensures
            r == *self,
        decreases *self,
    {
        match self {
            Attribute::Populated { name, raw_value, ty, source, value } => Attribute::Populated {
                name: *name,
                raw_value: *raw_value,
                ty: *ty,
                source: source.clone(),
                value: *value,
            },
            Attribute::Uninitialized { name, ty } => Attribute::Uninitialized {
                name: *name,
                ty: *ty,
            },
        }
    }
}

} // verus!
