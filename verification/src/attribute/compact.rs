//! The compact serialized form of an attribute.
//!
//! A populated attribute is written as its name, its type, its raw value and
//! its source; the source as the number of its kind and the attribute it was
//! made from, if it keeps one. An uninitialized attribute is written as its
//! name and its type. The cast value is not written: it is computed again
//! when somebody asks.

use crate::attribute::{Attribute, Kind, MaybeProc, Source};
use crate::error::DecodeError;
use crate::host::Host;
use crate::value::{Name, Value};
use vstd::prelude::*;

verus! {

/// A source in compact form.
#[derive(Debug)]
pub struct CompactSource {
    /// 1: assigned by the caller, 2: from storage, 3: given cast, 4: a
    /// default of the model.
    pub discriminant: i32,
    /// The attribute that the source keeps.
    pub original: Option<Box<Attribute>>,
}

/// An attribute in compact form.
#[derive(Debug)]
pub enum CompactAttribute {
    Populated { name: Name, ty: Value, raw_value: Value, source: CompactSource },
    Uninitialized { name: Name, ty: Value },
}

impl Source {
    /// The kind of an attribute with this source.
    pub open spec fn spec_kind(self) -> Kind {
        match self {
            Source::FromUser(_) => Kind::FromUser,
            Source::FromDatabase => Kind::FromDatabase,
            Source::PreCast => Kind::PreCast,
            Source::UserProvidedDefault(_) => Kind::UserProvidedDefault,
        }
    }

    /// The attribute that this source keeps.
    pub open spec fn previous(self) -> Option<Box<Attribute>> {
        match self {
            Source::FromUser(prev) => Some(prev),
            Source::UserProvidedDefault(prev) => prev,
            _ => None,
        }
    }

    /// This source in compact form.
    pub open spec fn compact(self) -> CompactSource {
        CompactSource {
            discriminant: self.spec_kind().spec_discriminant(),
            original: self.previous(),
        }
    }
}

impl CompactSource {
    /// The source that this compact form stands for, or what is wrong with
    /// it. A source from storage or given cast keeps no attribute: one that
    /// is written with it is dropped.
    pub open spec fn source(self) -> Result<Source, DecodeError> {
        if self.discriminant == 1 {
            match self.original {
                Some(prev) => Ok(Source::FromUser(prev)),
                None => Err(DecodeError::MissingOriginal),
            }
        } else if self.discriminant == 2 {
            Ok(Source::FromDatabase)
        } else if self.discriminant == 3 {
            Ok(Source::PreCast)
        } else if self.discriminant == 4 {
            Ok(Source::UserProvidedDefault(self.original))
        } else {
            Err(DecodeError::UnrecognizedSource { discriminant: self.discriminant })
        }
    }
}

impl CompactAttribute {
    /// The attribute that this compact form stands for, or what is wrong
    /// with it. The raw value is known and nothing has been cast.
    pub open spec fn attribute(self) -> Result<Attribute, DecodeError> {
        match self {
            CompactAttribute::Populated { name, ty, raw_value, source } => match source.source() {
                Ok(source) => Ok(
                    Attribute::Populated {
                        name,
                        raw_value: MaybeProc::NotProc(raw_value),
                        ty,
                        source,
                        value: None,
                    },
                ),
                Err(e) => Err(e),
            },
            CompactAttribute::Uninitialized { name, ty } => Ok(
                Attribute::Uninitialized { name, ty },
            ),
        }
    }
}

impl Attribute {
    /// The compact form of an attribute whose raw value is known. While the
    /// raw value is still to be produced, the form holds the absent value.
    pub open spec fn compact(self) -> CompactAttribute {
        match self {
            Attribute::Populated { name, ty, source, .. } => CompactAttribute::Populated {
                name,
                ty,
                raw_value: self.key().value,
                source: source.compact(),
            },
            Attribute::Uninitialized { name, ty } => CompactAttribute::Uninitialized { name, ty },
        }
    }

    /// What writing the compact form through `host` may do: the raw value is
    /// read, and on success the form is that of the attribute afterwards.
    pub open spec fn dumps<H: Host>(
        self,
        host: &H,
        next: Attribute,
        r: Result<CompactAttribute, H::Error>,
    ) -> bool {
        match r {
            Ok(data) => self.reads_raw(host, next, Ok(next.key().value)) && data == next.compact(),
            Err(e) => self.reads_raw(host, next, Err(e)),
        }
    }

    /// The attribute in compact form. Reads the raw value, which runs the
    /// producer of a deferred default that has not run yet.
    pub fn dump_data<H: Host>(&mut self, host: &H) -> (r: Result<CompactAttribute, H::Error>)
        ensures
            old(self).dumps(host, *final(self), r),
    {
        let raw = match self.value_before_type_cast(host) {
            Ok(raw) => raw,
            Err(e) => { return Err(e); },
        };
        match self {
            Attribute::Populated { name, ty, source, .. } => Ok(
                CompactAttribute::Populated {
                    name: *name,
                    ty: *ty,
                    raw_value: raw,
                    source: dump_source(source),
                },
            ),
            Attribute::Uninitialized { name, ty } => Ok(
                CompactAttribute::Uninitialized { name: *name, ty: *ty },
            ),
        }
    }

    /// The attribute that `data` stands for.
    ///
    /// Fails if and only if `data` is populated and its source names no known
    /// kind, or says that the value was assigned and keeps no attribute.
    pub fn load_data(data: CompactAttribute) -> (r: Result<Attribute, DecodeError>)
        ensures
            r == data.attribute(),
    {
        match data {
            CompactAttribute::Populated { name, ty, raw_value, source } => {
                match load_source(source) {
                    Ok(source) => Ok(
                        Attribute::Populated {
                            name,
                            raw_value: MaybeProc::NotProc(raw_value),
                            ty,
                            source,
                            value: None,
                        },
                    ),
                    Err(e) => Err(e),
                }
            },
            CompactAttribute::Uninitialized { name, ty } => Ok(
                Attribute::Uninitialized { name, ty },
            ),
        }
    }
}

/// The source in compact form: the number of its kind, and a copy of the
/// attribute it keeps.
pub fn dump_source(source: &Source) -> (r: CompactSource)
    ensures
        r == source.compact(),
{
    let discriminant = match source {
        Source::FromUser(_) => Kind::FromUser.discriminant(),
        Source::FromDatabase => Kind::FromDatabase.discriminant(),
        Source::PreCast => Kind::PreCast.discriminant(),
        Source::UserProvidedDefault(_) => Kind::UserProvidedDefault.discriminant(),
    };
    let original = match source {
        Source::FromUser(prev) => Some(Box::new((&**prev).clone())),
        Source::UserProvidedDefault(Some(prev)) => Some(Box::new((&**prev).clone())),
        _ => None,
    };
    CompactSource { discriminant, original }
}

/// The source that `source` stands for.
///
/// Fails with `UnrecognizedSource` if and only if the number is none of 1 to
/// 4, and with `MissingOriginal` if and only if the number is 1 and no
/// attribute comes with it.
pub fn load_source(source: CompactSource) -> (r: Result<Source, DecodeError>)
    ensures
        r == source.source(),
{
    let CompactSource { discriminant, original } = source;
    if discriminant == 1 {
        match original {
            Some(prev) => Ok(Source::FromUser(prev)),
            None => Err(DecodeError::MissingOriginal),
        }
    } else if discriminant == 2 {
        Ok(Source::FromDatabase)
    } else if discriminant == 3 {
        Ok(Source::PreCast)
    } else if discriminant == 4 {
        Ok(Source::UserProvidedDefault(original))
    } else {
        Err(DecodeError::UnrecognizedSource { discriminant })
    }
}

/// Writing an attribute in compact form and reading it back gives an
/// attribute of the same kind, name and type, with the same lineage and the
/// same raw value, now known; only the cast value is gone.
pub proof fn lemma_compact_round_trip<H: Host>(
    a: Attribute,
    host: &H,
    next: Attribute,
    data: CompactAttribute,
)
    requires
        a.dumps(host, next, Ok(data)),
    ensures
        data.attribute() matches Ok(b) && {
            &&& b.spec_kind() == a.spec_kind()
            &&& b.spec_name() == a.spec_name()
            &&& b.spec_ty() == a.spec_ty()
            &&& b.previous() == a.previous()
            &&& b.raw().known() == next.raw().known()
            &&& b.raw().known() is Some
            &&& b.cache() is None
            &&& b.key() == next.key()
        },
{
}

} // verus!
