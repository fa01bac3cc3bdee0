//! The self-describing serialized form of an attribute: a record of named
//! fields under a tag that names the attribute's kind.
//!
//! The tags are fixed, letter for letter: records that were written long
//! ago carry them and must still be readable.

use crate::attribute::{Attribute, Kind, MaybeProc, Source};
use crate::error::DecodeError;
use crate::host::Host;
use crate::value::{Name, Value};
use vstd::prelude::*;
use vstd::string::*;

verus! {

/// An attribute as a record. A field that is `None` is not written.
#[derive(Debug)]
pub struct Record {
    /// The tag: a fixed prefix, then the label of the attribute's kind.
    pub tag: String,
    pub name: Name,
    /// The type; left out where it is the absent value.
    pub ty: Option<Value>,
    /// The raw value; left out where it is the absent value.
    pub value_before_type_cast: Option<Value>,
    /// The cast value; written only if it had been read.
    pub value: Option<Value>,
    /// The attribute that the source keeps.
    pub original_attribute: Option<Box<Attribute>>,
}

/// How many characters of a tag come before the label.
pub const TAG_PREFIX_LEN: usize = 37;

/// What every tag starts with.
pub open spec fn tag_prefix() -> Seq<char> {
    "!ruby/object:ActiveModel::Attribute::"@
}

/// The label of a tag: what follows its first 37 characters. A shorter tag
/// has an empty label.
pub open spec fn tag_label(tag: Seq<char>) -> Seq<char> {
    if tag.len() >= TAG_PREFIX_LEN {
        tag.subrange(TAG_PREFIX_LEN as int, tag.len() as int)
    } else {
        Seq::empty()
    }
}

/// The kind that a label names, if it names one.
pub open spec fn label_kind(label: Seq<char>) -> Option<Kind> {
    if label == "FromUser"@ {
        Some(Kind::FromUser)
    } else if label == "UserProvidedDefault"@ {
        Some(Kind::UserProvidedDefault)
    } else if label == "FromDatabase"@ {
        Some(Kind::FromDatabase)
    } else if label == "WithCastValue"@ {
        Some(Kind::PreCast)
    } else if label == "Uninitialized"@ {
        Some(Kind::Uninitialized)
    } else {
        None
    }
}

impl Kind {
    /// The label that stands for this kind in a tag.
    pub open spec fn spec_label(self) -> Seq<char> {
        match self {
            Kind::FromUser => "FromUser"@,
            Kind::FromDatabase => "FromDatabase"@,
            Kind::PreCast => "WithCastValue"@,
            Kind::UserProvidedDefault => "UserProvidedDefault"@,
            Kind::Uninitialized => "Uninitialized"@,
        }
    }

    /// The tag of a record of this kind.
    pub open spec fn spec_tag(self) -> Seq<char> {
        tag_prefix() + self.spec_label()
    }

    /// The label that stands for this kind in a tag.
    pub fn label(self) -> (l: &'static str)
        ensures
            l@ == self.spec_label(),
    {
        match self {
            Kind::FromUser => "FromUser",
            Kind::FromDatabase => "FromDatabase",
            Kind::PreCast => "WithCastValue",
            Kind::UserProvidedDefault => "UserProvidedDefault",
            Kind::Uninitialized => "Uninitialized",
        }
    }

    /// The tag of a record of this kind: the prefix, then the label.
    pub fn tag(self) -> (t: String)
        ensures
            t@ == self.spec_tag(),
    {
        String::from_str("!ruby/object:ActiveModel::Attribute::").concat(self.label())
    }

    /// The kind that `label` names.
    ///
    /// Fails if and only if `label` is none of the five labels; the error
    /// holds the label.
    pub fn from_label(label: &str) -> (r: Result<Kind, DecodeError>)
        ensures
            match label_kind(label@) {
                Some(k) => r == Ok::<Kind, DecodeError>(k),
                None => r matches Err(DecodeError::UnrecognizedTag { label: l }) && l@ == label@,
            },
    {
        let given = String::from_str(label);
        if given == String::from_str("FromUser") {
            Ok(Kind::FromUser)
        } else if given == String::from_str("UserProvidedDefault") {
            Ok(Kind::UserProvidedDefault)
        } else if given == String::from_str("FromDatabase") {
            Ok(Kind::FromDatabase)
        } else if given == String::from_str("WithCastValue") {
            Ok(Kind::PreCast)
        } else if given == String::from_str("Uninitialized") {
            Ok(Kind::Uninitialized)
        } else {
            Err(DecodeError::UnrecognizedTag { label: given })
        }
    }
}

/// The label of `tag`: what follows its first 37 characters.
pub fn label_of(tag: &str) -> (label: &str)
    ensures
        label@ == tag_label(tag@),
{
    let len = tag.unicode_len();
    if len >= TAG_PREFIX_LEN {
        tag.substring_char(TAG_PREFIX_LEN, len)
    } else {
        proof {
            reveal_strlit("");
        }
        ""
    }
}

impl Record {
    /// The attribute of kind `kind` that the fields of this record stand
    /// for. An omitted field reads as the absent value; a cast value that is
    /// absent counts as not read.
    ///
    /// A record of an assigned value or a default keeps its kind if it holds
    /// the attribute it was made from. Without that attribute it is a
    /// default that replaced nothing, whichever of the two its tag says:
    /// old records of assigned values came without it.
    pub open spec fn attribute_as(self, kind: Kind) -> Attribute {
        match kind {
            Kind::Uninitialized => Attribute::Uninitialized {
                name: self.name,
                ty: Value::spec_of_field(self.ty),
            },
            _ => Attribute::Populated {
                name: self.name,
                raw_value: MaybeProc::NotProc(Value::spec_of_field(self.value_before_type_cast)),
                ty: Value::spec_of_field(self.ty),
                source: match kind {
                    Kind::FromDatabase => Source::FromDatabase,
                    Kind::PreCast => Source::PreCast,
                    Kind::FromUser => match self.original_attribute {
                        Some(prev) => Source::FromUser(prev),
                        None => Source::UserProvidedDefault(None),
                    },
                    _ => Source::UserProvidedDefault(self.original_attribute),
                },
                value: Value::spec_of_field(self.value).spec_present(),
            },
        }
    }
}

impl Attribute {
    /// Whether `record` is what an attribute with a known raw value is
    /// written as.
    pub open spec fn recorded_as(self, record: Record) -> bool {
        &&& record.tag@ == self.spec_kind().spec_tag()
        &&& record.name == self.spec_name()
        &&& record.ty == self.spec_ty().spec_present()
        &&& record.value_before_type_cast == self.key().value.spec_present()
        &&& record.value == self.cache()
        &&& record.original_attribute == match self {
            Attribute::Populated { source, .. } => source.previous(),
            Attribute::Uninitialized { .. } => None,
        }
    }

    /// What writing the record through `host` may do: the raw value is read,
    /// and on success the record is that of the attribute afterwards.
    pub open spec fn encodes<H: Host>(
        self,
        host: &H,
        next: Attribute,
        r: Result<Record, H::Error>,
    ) -> bool {
        match r {
            Ok(record) => self.reads_raw(host, next, Ok(next.key().value)) && next.recorded_as(
                record,
            ),
            Err(e) => self.reads_raw(host, next, Err(e)),
        }
    }

    /// The tag under which this attribute is written.
    pub fn tag(&self) -> (t: String)
        ensures
            t@ == self.spec_kind().spec_tag(),
    {
        self.kind().tag()
    }

    /// The attribute as a record. Reads the raw value, which runs the
    /// producer of a deferred default that has not run yet; casts nothing.
    pub fn encode_with<H: Host>(&mut self, host: &H) -> (r: Result<Record, H::Error>)
        ensures
            old(self).encodes(host, *final(self), r),
    {
        let raw = match self.value_before_type_cast(host) {
            Ok(raw) => raw,
            Err(e) => { return Err(e); },
        };
        let original_attribute = match self.original_attribute() {
            Some(prev) => Some(Box::new(prev.clone())),
            None => None,
        };
        let value = match self {
            Attribute::Populated { value, .. } => *value,
            Attribute::Uninitialized { .. } => None,
        };
        Ok(
            Record {
                tag: self.tag(),
                name: self.name(),
                ty: self.ty().present(),
                value_before_type_cast: raw.present(),
                value,
                original_attribute,
            },
        )
    }

    /// The attribute that `record` stands for.
    ///
    /// Fails if and only if the label of the record's tag is none of the
    /// five; the error holds the label.
    pub fn init_with(record: Record) -> (r: Result<Attribute, DecodeError>)
        ensures
            match label_kind(tag_label(record.tag@)) {
                Some(kind) => r == Ok::<Attribute, DecodeError>(record.attribute_as(kind)),
                None => r matches Err(DecodeError::UnrecognizedTag { label }) && label@
                    == tag_label(record.tag@),
            },
    {
        match Kind::from_label(label_of(record.tag.as_str())) {
            Ok(Kind::Uninitialized) => Ok(init_with_uninitialized(record)),
            Ok(Kind::FromDatabase) => Ok(init_with_from_database(record)),
            Ok(Kind::PreCast) => Ok(init_with_precast(record)),
            Ok(Kind::FromUser) => Ok(init_with_from_user(record)),
            Ok(Kind::UserProvidedDefault) => Ok(init_with_user_provided_default(record)),
            Err(e) => Err(e),
        }
    }
}

/// What all populated kinds have in common when read from a record; the
/// source is the caller's to give.
fn init_with_populated(
    name: Name,
    ty: Option<Value>,
    value_before_type_cast: Option<Value>,
    value: Option<Value>,
    source: Source,
) -> (a: Attribute)
    ensures
        a == (Attribute::Populated {
            name,
            raw_value: MaybeProc::NotProc(Value::spec_of_field(value_before_type_cast)),
            ty: Value::spec_of_field(ty),
            source,
            value: Value::spec_of_field(value).spec_present(),
        }),
{
    Attribute::Populated {
        name,
        raw_value: MaybeProc::NotProc(Value::of_field(value_before_type_cast)),
        ty: Value::of_field(ty),
        source,
        value: Value::of_field(value).present(),
    }
}

/// Reads a record that is tagged as loaded from storage.
pub fn init_with_from_database(record: Record) -> (a: Attribute)
    ensures
        a == record.attribute_as(Kind::FromDatabase),
{
    let Record { name, ty, value_before_type_cast, value, .. } = record;
    init_with_populated(name, ty, value_before_type_cast, value, Source::FromDatabase)
}

/// Reads a record that is tagged as given already cast.
pub fn init_with_precast(record: Record) -> (a: Attribute)
    ensures
        a == record.attribute_as(Kind::PreCast),
{
    let Record { name, ty, value_before_type_cast, value, .. } = record;
    init_with_populated(name, ty, value_before_type_cast, value, Source::PreCast)
}

/// Reads a record that is tagged as assigned by the caller. Without the
/// attribute it was assigned to, it is read as a default that replaced
/// nothing.
pub fn init_with_from_user(record: Record) -> (a: Attribute)
    ensures
        a == record.attribute_as(Kind::FromUser),
{
    let Record { name, ty, value_before_type_cast, value, original_attribute, .. } = record;
    let source = match original_attribute {
        Some(prev) => Source::FromUser(prev),
        None => Source::UserProvidedDefault(None),
    };
    init_with_populated(name, ty, value_before_type_cast, value, source)
}

/// Reads a record that is tagged as a default of the model.
pub fn init_with_user_provided_default(record: Record) -> (a: Attribute)
    ensures
        a == record.attribute_as(Kind::UserProvidedDefault),
{
    let Record { name, ty, value_before_type_cast, value, original_attribute, .. } = record;
    init_with_populated(
        name,
        ty,
        value_before_type_cast,
        value,
        Source::UserProvidedDefault(original_attribute),
    )
}

/// Reads a record that is tagged as uninitialized: only name and type count.
pub fn init_with_uninitialized(record: Record) -> (a: Attribute)
    ensures
        a == record.attribute_as(Kind::Uninitialized),
{
    Attribute::Uninitialized { name: record.name, ty: Value::of_field(record.ty) }
}

/// Every kind is named by its own label and by no other, and the label of a
/// kind's tag is that label.
pub proof fn lemma_tag_names_kind(kind: Kind)
    ensures
        label_kind(kind.spec_label()) == Some(kind),
        tag_label(kind.spec_tag()) == kind.spec_label(),
{
    reveal_strlit("!ruby/object:ActiveModel::Attribute::");
    reveal_strlit("FromUser");
    reveal_strlit("UserProvidedDefault");
    reveal_strlit("FromDatabase");
    reveal_strlit("WithCastValue");
    reveal_strlit("Uninitialized");
    assert("WithCastValue"@[0] != "Uninitialized"@[0]);
    assert(tag_label(kind.spec_tag()) =~= kind.spec_label());
}

/// Writing an attribute as a record and reading the record back gives an
/// attribute of the same kind, name and type, with the same lineage, the same
/// raw value, now known, and the cast value it held, unless that was the
/// absent value.
pub proof fn lemma_record_round_trip<H: Host>(
    a: Attribute,
    host: &H,
    next: Attribute,
    record: Record,
)
    requires
        a.encodes(host, next, Ok(record)),
    ensures
        label_kind(tag_label(record.tag@)) == Some(a.spec_kind()),
        ({
            let b = record.attribute_as(a.spec_kind());
            &&& b.spec_kind() == a.spec_kind()
            &&& b.spec_name() == a.spec_name()
            &&& b.spec_ty() == a.spec_ty()
            &&& b.previous() == a.previous()
            &&& b.raw().known() == next.raw().known()
            &&& b.raw().known() is Some
            &&& b.cache() == next.held_value().spec_present()
            &&& b.key() == next.key()
        }),
{
    lemma_tag_names_kind(a.spec_kind());
}

} // verus!
