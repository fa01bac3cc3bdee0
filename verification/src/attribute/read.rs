//! Reading an attribute: the raw value, the cast value, the value before
//! the last assignments, and whether anything changed.
//!
//! A read may fill the attribute's caches, so it takes the attribute by
//! `&mut`. Each read comes with a relation between the attribute before, the
//! host, the attribute after and the result; the relation says which calls
//! of the host the result may come from, and what is kept.

use crate::attribute::{Attribute, Kind, Source};
use crate::host::Host;
use crate::value::Value;
use vstd::prelude::*;

verus! {

impl Attribute {
    /// The cast value as the attribute holds it: the absent value while it
    /// holds none.
    pub open spec fn held_value(self) -> Value {
        match self.cache() {
            Some(c) => c,
            None => Value::Nil,
        }
    }

    /// This attribute once its cast value `cast` has been computed. Where a
    /// cast value is held already, it stays.
    pub open spec fn settled(self, cast: Value) -> Attribute {
        match self.cache() {
            Some(_) => self,
            None => self.with_cache(Some(cast)),
        }
    }

    /// What reading the raw value through `host` may do (see
    /// [`MaybeProc::reads`]): only the raw value's memo can differ in `next`.
    pub open spec fn reads_raw<H: Host>(
        self,
        host: &H,
        next: Attribute,
        r: Result<Value, H::Error>,
    ) -> bool {
        self.raw().reads(host, next.raw(), r) && next == self.with_raw(next.raw())
    }

    /// What reading the cast value through `host` may do.
    ///
    /// An uninitialized attribute gives the absent value and stays as it is.
    /// A cast value that is held is returned, and the host is not needed.
    /// Otherwise the raw value is read, which may fail; then the type casts
    /// it. On success the cast value is kept and returned. If the cast fails,
    /// what the producer gave is still kept.
    pub open spec fn reads_value<H: Host>(
        self,
        host: &H,
        next: Attribute,
        r: Result<Value, H::Error>,
    ) -> bool {
        match self {
            Attribute::Uninitialized { .. } => next == self && r == Ok::<Value, H::Error>(
                Value::Nil,
            ),
            Attribute::Populated { value: Some(c), .. } => next == self && r == Ok::<
                Value,
                H::Error,
            >(c),
            Attribute::Populated { ty, value: None, .. } => {
                let read = self.with_raw(next.raw());
                match r {
                    Ok(c) => {
                        &&& next.raw().known() matches Some(raw)
                        &&& self.reads_raw(host, read, Ok(raw))
                        &&& call_ensures(H::cast, (host, ty, raw), Ok(c))
                        &&& next == read.with_cache(Some(c))
                    },
                    Err(e) => {
                        ||| self.reads_raw(host, next, Err(e))
                        ||| {
                            &&& next.raw().known() matches Some(raw)
                            &&& self.reads_raw(host, next, Ok(raw))
                            &&& call_ensures(H::cast, (host, ty, raw), Err(e))
                        }
                    },
                }
            },
        }
    }

    /// What `original_value` may do through `host`: it is a read of the cast
    /// value of the attribute at the far end of the lineage, and nothing else
    /// changes.
    pub open spec fn reads_original<H: Host>(
        self,
        host: &H,
        next: Attribute,
        r: Result<Value, H::Error>,
    ) -> bool {
        self.origin().reads_value(host, next.origin(), r) && next == self.with_origin(
            next.origin(),
        )
    }

    /// As [`Attribute::reads_original`], for the raw value of the attribute
    /// at the far end of the lineage.
    pub open spec fn reads_original_raw<H: Host>(
        self,
        host: &H,
        next: Attribute,
        r: Result<Value, H::Error>,
    ) -> bool {
        self.origin().reads_raw(host, next.origin(), r) && next == self.with_origin(next.origin())
    }

    /// What computing the value for storage through `host` may do: a read of
    /// the cast value, which the type then serializes. An uninitialized
    /// attribute gives the absent value without asking the host.
    pub open spec fn reads_for_database<H: Host>(
        self,
        host: &H,
        next: Attribute,
        r: Result<Value, H::Error>,
    ) -> bool {
        match self {
            Attribute::Uninitialized { .. } => next == self && r == Ok::<Value, H::Error>(
                Value::Nil,
            ),
            Attribute::Populated { ty, .. } => match r {
                Ok(stored) => {
                    &&& self.reads_value(host, next, Ok(next.held_value()))
                    &&& call_ensures(H::serialize, (host, ty, next.held_value()), Ok(stored))
                },
                Err(e) => {
                    ||| self.reads_value(host, next, Err(e))
                    ||| {
                        &&& self.reads_value(host, next, Ok(next.held_value()))
                        &&& call_ensures(H::serialize, (host, ty, next.held_value()), Err(e))
                    }
                },
            },
        }
    }

    /// What asking whether the cast value changed in place may do, by way of
    /// `mid`, the attribute between the two reads.
    ///
    /// Only an attribute that the caller assigned can have changed; for any
    /// other the answer is no and the host is not asked. Otherwise the value
    /// at the far end of the lineage is read, then the cast value, and the
    /// type compares them. The first failure ends it.
    pub open spec fn changes_in_place_via<H: Host>(
        self,
        host: &H,
        mid: Attribute,
        next: Attribute,
        r: Result<bool, H::Error>,
    ) -> bool {
        if self.spec_kind() != Kind::FromUser {
            mid == self && next == self && r == Ok::<bool, H::Error>(false)
        } else {
            match r {
                Ok(b) => {
                    &&& self.reads_original(host, mid, Ok(mid.origin().held_value()))
                    &&& mid.reads_value(host, next, Ok(next.held_value()))
                    &&& call_ensures(
                        H::changed_in_place,
                        (host, self.spec_ty(), mid.origin().held_value(), next.held_value()),
                        Ok(b),
                    )
                },
                Err(e) => {
                    ||| mid == next && self.reads_original(host, mid, Err(e))
                    ||| {
                        &&& self.reads_original(host, mid, Ok(mid.origin().held_value()))
                        &&& mid.reads_value(host, next, Err(e))
                    }
                    ||| {
                        &&& self.reads_original(host, mid, Ok(mid.origin().held_value()))
                        &&& mid.reads_value(host, next, Ok(next.held_value()))
                        &&& call_ensures(
                            H::changed_in_place,
                            (host, self.spec_ty(), mid.origin().held_value(), next.held_value()),
                            Err(e),
                        )
                    }
                },
            }
        }
    }

    /// What asking whether the attribute changed may do, by way of the
    /// attribute after each of the first two reads.
    ///
    /// Only an attribute that the caller assigned can have changed. For such
    /// an attribute its raw value is read, then the raw value at the far end
    /// of its lineage. If the two differ it has changed; if not, the answer is
    /// whether the cast value changed in place. The first failure ends it.
    pub open spec fn changes_via<H: Host>(
        self,
        host: &H,
        first: Attribute,
        second: Attribute,
        third: Attribute,
        next: Attribute,
        r: Result<bool, H::Error>,
    ) -> bool {
        if self.spec_kind() != Kind::FromUser {
            next == self && r == Ok::<bool, H::Error>(false)
        } else {
            let raw = first.raw().known();
            let original_raw = second.origin().raw().known();
            ||| r matches Err(e) && next == first && self.reads_raw(host, first, Err(e))
            ||| {
                &&& r matches Err(e)
                &&& raw matches Some(v)
                &&& self.reads_raw(host, first, Ok(v))
                &&& next == second
                &&& first.reads_original_raw(host, second, Err(e))
            }
            ||| {
                &&& raw matches Some(v)
                &&& original_raw matches Some(o)
                &&& self.reads_raw(host, first, Ok(v))
                &&& first.reads_original_raw(host, second, Ok(o))
                &&& if v != o {
                    next == second && r == Ok::<bool, H::Error>(true)
                } else {
                    second.changes_in_place_via(host, third, next, r)
                }
            }
        }
    }

    /// Keeps `produced` as what the raw value's producer returned, unless the
    /// raw value is known already.
    pub fn settle_raw(&mut self, produced: Value)
        ensures
            *final(self) == old(self).with_raw(old(self).raw().settled(produced)),
    {
        match self {
            Attribute::Populated { raw_value, .. } => {
                raw_value.settle(produced);
            },
            Attribute::Uninitialized { .. } => {},
        }
    }

    /// Keeps `cast` as the cast value, unless the attribute holds one already
    /// or has no value at all.
    pub fn settle_value(&mut self, cast: Value)
        ensures
            *final(self) == old(self).settled(cast),
    {
        match self {
            Attribute::Populated { value, .. } => {
                if value.is_none() {
                    *value = Some(cast);
                }
            },
            Attribute::Uninitialized { .. } => {},
        }
    }

    /// The value as it was given, before any cast. Runs the producer of a
    /// deferred default if it has not run yet; never casts.
    pub fn value_before_type_cast<H: Host>(&mut self, host: &H) -> (r: Result<Value, H::Error>)
        ensures
            old(self).reads_raw(host, *final(self), r),
    {
        match self {
            Attribute::Populated { raw_value, .. } => raw_value.value(host),
            Attribute::Uninitialized { .. } => Ok(Value::Nil),
        }
    }

    /// The cast value. The first read of a populated attribute casts the raw
    /// value and keeps the result; every later read returns what is kept.
    pub fn value<H: Host>(&mut self, host: &H) -> (r: Result<Value, H::Error>)
        ensures
            old(self).reads_value(host, *final(self), r),
    {
        match self {
            Attribute::Uninitialized { .. } => { return Ok(Value::Nil); },
            Attribute::Populated { value: Some(c), .. } => { return Ok(*c); },
            Attribute::Populated { value: None, .. } => {},
        }
        let raw = match self.value_before_type_cast(host) {
            Ok(raw) => raw,
            Err(e) => { return Err(e); },
        };
        match host.cast(self.ty(), raw) {
            Ok(c) => {
                self.settle_value(c);
                Ok(c)
            },
            Err(e) => Err(e),
        }
    }

    /// The value before the assignments and defaults that the lineage
    /// remembers: the cast value of the attribute at its far end.
    pub fn original_value<H: Host>(&mut self, host: &H) -> (r: Result<Value, H::Error>)
        ensures
            old(self).reads_original(host, *final(self), r),
        decreases *old(self),
    {
        match self {
            Attribute::Populated { source: Source::FromUser(prev), .. } => prev.original_value(
                host,
            ),
            Attribute::Populated {
                source: Source::UserProvidedDefault(Some(prev)),
                ..
            } => prev.original_value(host),
            _ => self.value(host),
        }
    }

    /// The raw value of the attribute at the far end of the lineage.
    pub fn original_value_before_type_cast<H: Host>(&mut self, host: &H) -> (r: Result<
        Value,
        H::Error,
    >)
        ensures
            old(self).reads_original_raw(host, *final(self), r),
        decreases *old(self),
    {
        match self {
            Attribute::Populated {
                source: Source::FromUser(prev),
                ..
            } => prev.original_value_before_type_cast(host),
            Attribute::Populated {
                source: Source::UserProvidedDefault(Some(prev)),
                ..
            } => prev.original_value_before_type_cast(host),
            _ => self.value_before_type_cast(host),
        }
    }

    /// What storage would hold for this attribute: the cast value, serialized
    /// by the type. An uninitialized attribute gives the absent value.
    pub fn value_for_database<H: Host>(&mut self, host: &H) -> (r: Result<Value, H::Error>)
        ensures
            old(self).reads_for_database(host, *final(self), r),
    {
        if !self.is_initialized() {
            return Ok(Value::Nil);
        }
        let cast = match self.value(host) {
            Ok(c) => c,
            Err(e) => { return Err(e); },
        };
        host.serialize(self.ty(), cast)
    }

    /// Whether the cast value of an assigned attribute was mutated without
    /// being assigned again, as its type judges it.
    pub fn is_changed_in_place<H: Host>(&mut self, host: &H) -> (r: Result<bool, H::Error>)
        ensures
            exists|mid: Attribute| old(self).changes_in_place_via(host, mid, *final(self), r),
    {
        if !self.came_from_user() {
            assert(self.changes_in_place_via(host, *self, *self, Ok::<bool, H::Error>(false)));
            return Ok(false);
        }
        let original = match self.original_value(host) {
            Ok(o) => o,
            Err(e) => {
                assert(old(self).changes_in_place_via(
                    host,
                    *self,
                    *self,
                    Err::<bool, H::Error>(e),
                ));
                return Err(e);
            },
        };
        let ghost mid = *self;
        let current = match self.value(host) {
            Ok(c) => c,
            Err(e) => {
                assert(old(self).changes_in_place_via(host, mid, *self, Err::<bool, H::Error>(e)));
                return Err(e);
            },
        };
        let r = host.changed_in_place(self.ty(), original, current);
        assert(old(self).changes_in_place_via(host, mid, *self, r));
        r
    }

    /// Whether the attribute was assigned a raw value other than the one it
    /// had at the far end of its lineage, or its cast value changed in place.
    pub fn is_changed<H: Host>(&mut self, host: &H) -> (r: Result<bool, H::Error>)
        ensures
            exists|first: Attribute, second: Attribute, third: Attribute|
                old(self).changes_via(host, first, second, third, *final(self), r),
    {
        if !self.came_from_user() {
            assert(self.changes_via(host, *self, *self, *self, *self, Ok::<bool, H::Error>(false)));
            return Ok(false);
        }
        let raw = match self.value_before_type_cast(host) {
            Ok(v) => v,
            Err(e) => {
                assert(old(self).changes_via(
                    host,
                    *self,
                    *self,
                    *self,
                    *self,
                    Err::<bool, H::Error>(e),
                ));
                return Err(e);
            },
        };
        let ghost first = *self;
        let original_raw = match self.original_value_before_type_cast(host) {
            Ok(o) => o,
            Err(e) => {
                assert(old(self).changes_via(
                    host,
                    first,
                    *self,
                    *self,
                    *self,
                    Err::<bool, H::Error>(e),
                ));
                return Err(e);
            },
        };
        let ghost second = *self;
        if raw != original_raw {
            assert(old(self).changes_via(
                host,
                first,
                second,
                second,
                *self,
                Ok::<bool, H::Error>(true),
            ));
            return Ok(true);
        }
        let r = self.is_changed_in_place(host);
        proof {
            let third = choose|mid: Attribute| second.changes_in_place_via(host, mid, *self, r);
            assert(old(self).changes_via(host, first, second, third, *self, r));
        }
        r
    }
}

} // verus!
