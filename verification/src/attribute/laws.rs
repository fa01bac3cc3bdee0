//! What follows from the contracts of the reads and transforms, for every
//! host.

use crate::attribute::{Attribute, Kind, MaybeProc, Source};
use crate::host::Host;
use crate::value::{Name, Value};
use vstd::prelude::*;

verus! {

impl MaybeProc {
    /// Whether `next` is this raw value, but that its producer may have run
    /// in between: what was known stays as it was.
    pub open spec fn fills_to(self, next: MaybeProc) -> bool {
        match self {
            MaybeProc::Proc { block, memo: None } => next matches MaybeProc::Proc {
                block: same,
                ..
            } && same == block,
            _ => next == self,
        }
    }
}

impl Attribute {
    /// Whether `next` is this attribute, but that caches which were empty
    /// may have been filled in between, in the attribute or along its
    /// lineage. Name, type and source are the same; a raw value that was
    /// known and a cast value that was held are the same.
    pub open spec fn fills_to(self, next: Attribute) -> bool
        decreases self,
    {
        match self {
            Attribute::Uninitialized { .. } => next == self,
            Attribute::Populated { name, raw_value, ty, source, value } => {
                &&& next matches Attribute::Populated {
                    name: next_name,
                    raw_value: next_raw,
                    ty: next_ty,
                    source: next_source,
                    value: next_value,
                }
                &&& next_name == name
                &&& next_ty == ty
                &&& raw_value.fills_to(next_raw)
                &&& value is Some ==> next_value == value
                &&& match source {
                    Source::FromUser(prev) => next_source matches Source::FromUser(next_prev)
                        && prev.fills_to(*next_prev),
                    Source::UserProvidedDefault(Some(prev)) => next_source
                        matches Source::UserProvidedDefault(Some(next_prev)) && prev.fills_to(
                        *next_prev,
                    ),
                    _ => next_source == source,
                }
            },
        }
    }
}

/// An attribute fills to itself.
pub proof fn lemma_fills_to_itself(a: Attribute)
    ensures
        a.fills_to(a),
    decreases a,
{
    match a {
        Attribute::Populated { source: Source::FromUser(prev), .. } => {
            lemma_fills_to_itself(*prev);
        },
        Attribute::Populated { source: Source::UserProvidedDefault(Some(prev)), .. } => {
            lemma_fills_to_itself(*prev);
        },
        _ => {},
    }
}

/// Filling goes one way: what has been filled twice over has been filled.
pub proof fn lemma_fills_on(a: Attribute, b: Attribute, c: Attribute)
    requires
        a.fills_to(b),
        b.fills_to(c),
    ensures
        a.fills_to(c),
    decreases a,
{
    match a {
        Attribute::Populated { source: Source::FromUser(prev), .. } => {
            match (b, c) {
                (
                    Attribute::Populated { source: Source::FromUser(mid), .. },
                    Attribute::Populated { source: Source::FromUser(last), .. },
                ) => {
                    lemma_fills_on(*prev, *mid, *last);
                },
                _ => {},
            }
        },
        Attribute::Populated { source: Source::UserProvidedDefault(Some(prev)), .. } => {
            match (b, c) {
                (
                    Attribute::Populated { source: Source::UserProvidedDefault(Some(mid)), .. },
                    Attribute::Populated { source: Source::UserProvidedDefault(Some(last)), .. },
                ) => {
                    lemma_fills_on(*prev, *mid, *last);
                },
                _ => {},
            }
        },
        _ => {},
    }
}

/// Filling the attribute at the far end of the lineage fills the attribute.
pub proof fn lemma_origin_fills(a: Attribute, origin: Attribute)
    requires
        a.origin().fills_to(origin),
    ensures
        a.fills_to(a.with_origin(origin)),
    decreases a,
{
    match a {
        Attribute::Populated { source: Source::FromUser(prev), .. } => {
            lemma_origin_fills(*prev, origin);
        },
        Attribute::Populated { source: Source::UserProvidedDefault(Some(prev)), .. } => {
            lemma_origin_fills(*prev, origin);
        },
        _ => {},
    }
}

/// A read only ever fills caches: whatever is read and whether or not the
/// host fails, the attribute afterwards is the attribute before, but that
/// producers may have run and cast values may have been kept. Nothing that
/// was filled is emptied or overwritten.
pub proof fn lemma_reads_only_fill<H: Host>(
    a: Attribute,
    host: &H,
    next: Attribute,
    r: Result<Value, H::Error>,
)
    ensures
        a.reads_raw(host, next, r) ==> a.fills_to(next),
        a.reads_value(host, next, r) ==> a.fills_to(next),
        a.reads_original(host, next, r) ==> a.fills_to(next),
        a.reads_original_raw(host, next, r) ==> a.fills_to(next),
        a.reads_for_database(host, next, r) ==> a.fills_to(next),
{
    lemma_fills_to_itself(a);
    if a.reads_original(host, next, r) {
        lemma_fills_to_itself(a.origin());
        lemma_origin_fills(a, next.origin());
    }
    if a.reads_original_raw(host, next, r) {
        lemma_fills_to_itself(a.origin());
        lemma_origin_fills(a, next.origin());
    }
}

/// Asking whether an attribute changed only ever fills caches.
pub proof fn lemma_changes_only_fill<H: Host>(
    a: Attribute,
    host: &H,
    first: Attribute,
    second: Attribute,
    third: Attribute,
    next: Attribute,
    r: Result<bool, H::Error>,
)
    ensures
        a.changes_in_place_via(host, third, next, r) ==> a.fills_to(next),
        a.changes_via(host, first, second, third, next, r) ==> a.fills_to(next),
{
    lemma_fills_to_itself(a);
    if a.changes_in_place_via(host, third, next, r) && a.spec_kind() == Kind::FromUser {
        lemma_changes_in_place_only_fill(a, host, third, next, r);
    }
    if a.changes_via(host, first, second, third, next, r) && a.spec_kind() == Kind::FromUser {
        let raw = first.raw().known();
        if raw is Some {
            let original_raw = second.origin().raw().known();
            if original_raw is Some && first.reads_original_raw(
                host,
                second,
                Ok(original_raw.unwrap()),
            ) {
                lemma_reads_only_fill(first, host, second, Ok(original_raw.unwrap()));
                if raw.unwrap() == original_raw.unwrap() {
                    if second.spec_kind() == Kind::FromUser {
                        lemma_changes_in_place_only_fill(second, host, third, next, r);
                    }
                    lemma_fills_on(a, second, next);
                }
            } else if r is Err {
                lemma_reads_only_fill(first, host, second, Err(r->Err_0));
            }
        }
    }
}

proof fn lemma_changes_in_place_only_fill<H: Host>(
    a: Attribute,
    host: &H,
    mid: Attribute,
    next: Attribute,
    r: Result<bool, H::Error>,
)
    requires
        a.spec_kind() == Kind::FromUser,
        a.changes_in_place_via(host, mid, next, r),
    ensures
        a.fills_to(next),
{
    let original = mid.origin().held_value();
    if a.reads_original(host, mid, Ok(original)) {
        lemma_reads_only_fill(a, host, mid, Ok(original));
    } else if r is Err {
        lemma_reads_only_fill(a, host, mid, Err(r->Err_0));
    }
}

/// A raw value that is known is read without the host, which changes
/// nothing, however often it is read.
pub proof fn lemma_known_raw_is_read_as_it_is<H: Host>(
    a: Attribute,
    host: &H,
    next: Attribute,
    r: Result<Value, H::Error>,
)
    requires
        a.raw().known() is Some,
    ensures
        a.reads_raw(host, next, r) <==> next == a && r == Ok::<Value, H::Error>(
            a.raw().known().unwrap(),
        ),
{
}

/// A cast value that is held is read without the host, which changes
/// nothing, however often it is read.
pub proof fn lemma_held_value_is_read_as_it_is<H: Host>(
    a: Attribute,
    host: &H,
    next: Attribute,
    r: Result<Value, H::Error>,
)
    requires
        a.cache() is Some,
    ensures
        a.reads_value(host, next, r) <==> next == a && r == Ok::<Value, H::Error>(
            a.cache().unwrap(),
        ),
{
}

/// The first read of the cast value of a populated attribute leaves the
/// attribute holding it, so it counts as read; an uninitialized attribute is
/// never read. Reading the raw value does not make an attribute count as
/// read.
pub proof fn lemma_reads_and_has_been_read<H: Host>(
    a: Attribute,
    host: &H,
    next: Attribute,
    v: Value,
)
    ensures
        a.reads_value(host, next, Ok(v)) ==> (next.has_been_read() <==> a.is_initialized()),
        a.reads_value(host, next, Ok(v)) ==> next.held_value() == v,
        a.reads_raw(host, next, Ok(v)) ==> next.has_been_read() == a.has_been_read(),
{
}

/// An attribute from storage gives its raw value as it was stored. Its cast
/// value is what the type makes of that raw value; the first read leaves the
/// attribute holding it, and a second read returns it without another cast.
pub proof fn lemma_from_database<H: Host>(
    name: Name,
    raw: Value,
    ty: Value,
    host: &H,
    next: Attribute,
    cast: Value,
    again: Attribute,
    r: Result<Value, H::Error>,
)
    ensures
        ({
            let a = Attribute::from_database(name, raw, ty);
            &&& a.reads_raw(host, next, r) <==> next == a && r == Ok::<Value, H::Error>(raw)
            &&& a.reads_value(host, next, Ok(cast)) ==> {
                &&& call_ensures(H::cast, (host, ty, raw), Ok(cast))
                &&& next == a.with_cache(Some(cast))
                &&& (next.reads_value(host, again, r) <==> again == next && r == Ok::<
                    Value,
                    H::Error,
                >(cast))
            }
        }),
{
}

/// An attribute that was given its value already cast gives that value both
/// as its raw and as its cast value. The host is not asked: nothing is cast.
pub proof fn lemma_from_cast_value<H: Host>(
    name: Name,
    value: Value,
    ty: Value,
    host: &H,
    next: Attribute,
    r: Result<Value, H::Error>,
)
    ensures
        ({
            let a = Attribute::from_cast_value(name, value, ty);
            &&& a.reads_value(host, next, r) <==> next == a && r == Ok::<Value, H::Error>(value)
            &&& a.reads_raw(host, next, r) <==> next == a && r == Ok::<Value, H::Error>(value)
        }),
{
}

/// The producer of a deferred default runs once. Once a read of the raw
/// value has run it and got `produced`, every read of the raw value returns
/// `produced` without the host, and the first read of the cast value casts
/// `produced`.
pub proof fn lemma_producer_runs_once<H: Host>(
    a: Attribute,
    host: &H,
    read: Attribute,
    produced: Value,
    next: Attribute,
    r: Result<Value, H::Error>,
)
    requires
        a.raw().known() is None,
        a.reads_raw(host, read, Ok(produced)),
    ensures
        a.raw() matches MaybeProc::Proc { block, .. } && {
            &&& call_ensures(H::call, (host, block), Ok(produced))
            &&& read.raw() == (MaybeProc::Proc { block, memo: Some(produced) })
        },
        read.reads_raw(host, next, r) <==> next == read && r == Ok::<Value, H::Error>(produced),
        a.cache() is None && read.reads_value(host, next, r) ==> {
            &&& next.raw() == read.raw()
            &&& match r {
                Ok(cast) => call_ensures(H::cast, (host, a.spec_ty(), produced), Ok(cast)),
                Err(e) => call_ensures(H::cast, (host, a.spec_ty(), produced), Err(e)),
            }
        },
{
}

/// What forgetting the assignment gives holds the attribute's cast value as
/// its own, was not assigned by the caller and has not changed, whatever the
/// host says.
pub proof fn lemma_forgetting_assignment<H: Host>(
    a: Attribute,
    host: &H,
    next: Attribute,
    fresh: Attribute,
    after: Attribute,
    r: Result<Value, H::Error>,
    first: Attribute,
    second: Attribute,
    third: Attribute,
    changed: Result<bool, H::Error>,
)
    requires
        a.forgets(host, next, Ok(fresh)),
    ensures
        a.reads_value(host, next, Ok(next.held_value())),
        fresh.reads_value(host, after, r) <==> after == fresh && r == Ok::<Value, H::Error>(
            next.held_value(),
        ),
        !fresh.came_from_user(),
        fresh.changes_via(host, first, second, third, after, changed) <==> after == fresh
            && changed == Ok::<bool, H::Error>(false),
{
}

/// After two assignments to an attribute from storage, `original_value` is
/// still the cast of what storage held, and the attribute has changed if the
/// raw value assigned last is not the one storage held.
pub proof fn lemma_assigned_twice<H: Host>(
    name: Name,
    stored: Value,
    between: Value,
    latest: Value,
    ty: Value,
    host: &H,
    next: Attribute,
    original: Value,
    first: Attribute,
    second: Attribute,
    third: Attribute,
    changed: Result<bool, H::Error>,
)
    ensures
        ({
            let a = Attribute::from_database(name, stored, ty).with_value_from_user(
                between,
            ).with_value_from_user(latest);
            &&& a.origin() == Attribute::from_database(name, stored, ty)
            &&& a.reads_original(host, next, Ok(original)) ==> call_ensures(
                H::cast,
                (host, ty, stored),
                Ok(original),
            )
            &&& latest != stored && a.changes_via(host, first, second, third, next, changed)
                ==> changed == Ok::<bool, H::Error>(true) && next == a
        }),
{
    reveal_with_fuel(Attribute::origin, 3);
    reveal_with_fuel(Attribute::with_origin, 3);
}

} // verus!
