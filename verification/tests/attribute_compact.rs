use model_attributes::attribute::compact::{
    dump_source, load_source, CompactAttribute, CompactSource,
};
use model_attributes::{Attribute, DecodeError, Host, Kind, MaybeProc, Name, Source, Value};
use std::cell::Cell;

struct Producing {
    calls: Cell<u32>,
    fail_call: Cell<bool>,
}

impl Producing {
    fn new() -> Producing {
        Producing { calls: Cell::new(0), fail_call: Cell::new(false) }
    }
}

impl Host for Producing {
    type Error = String;

    fn call(&self, block: Value) -> Result<Value, String> {
        self.calls.set(self.calls.get() + 1);
        if self.fail_call.get() {
            return Err(String::from("producer failed"));
        }
        match block {
            Value::Object(b) => Ok(Value::Object(b + 500)),
            Value::Nil => Ok(Value::Nil),
        }
    }

    fn cast(&self, _ty: Value, _raw: Value) -> Result<Value, String> {
        Err(String::from("no cast expected"))
    }

    fn serialize(&self, _ty: Value, _value: Value) -> Result<Value, String> {
        Err(String::from("no serialization expected"))
    }

    fn changed_in_place(&self, _ty: Value, _original: Value, _value: Value) -> Result<bool, String> {
        Err(String::from("no comparison expected"))
    }

    fn null_attribute(&self, _name: Name) -> Result<Attribute, String> {
        Err(String::from("no placeholder expected"))
    }
}

fn obj(n: u64) -> Value {
    Value::Object(n)
}

fn shown(a: &Attribute) -> String {
    format!("{:?}", a)
}

fn round_trip(a: &mut Attribute) -> Attribute {
    let host = Producing::new();
    Attribute::load_data(a.dump_data(&host).unwrap()).unwrap()
}

#[test]
fn sources_are_written_with_their_number() {
    let base = Attribute::from_database(1, obj(2), obj(3));
    let user = dump_source(&Source::FromUser(Box::new(base.clone())));
    assert_eq!(user.discriminant, 1);
    assert_eq!(shown(&user.original.unwrap()), shown(&base));
    let database = dump_source(&Source::FromDatabase);
    assert_eq!(database.discriminant, 2);
    assert!(database.original.is_none());
    let cast = dump_source(&Source::PreCast);
    assert_eq!(cast.discriminant, 3);
    assert!(cast.original.is_none());
    let default = dump_source(&Source::UserProvidedDefault(Some(Box::new(base.clone()))));
    assert_eq!(default.discriminant, 4);
    assert_eq!(shown(&default.original.unwrap()), shown(&base));
    let alone = dump_source(&Source::UserProvidedDefault(None));
    assert_eq!(alone.discriminant, 4);
    assert!(alone.original.is_none());
}

#[test]
fn sources_are_read_by_their_number() {
    let base = Attribute::from_database(1, obj(2), obj(3));
    let boxed = || Some(Box::new(Attribute::from_database(1, obj(2), obj(3))));
    assert!(matches!(
        load_source(CompactSource { discriminant: 1, original: boxed() }),
        Ok(Source::FromUser(prev)) if shown(&prev) == shown(&base)
    ));
    assert!(matches!(
        load_source(CompactSource { discriminant: 2, original: None }),
        Ok(Source::FromDatabase)
    ));
    assert!(matches!(
        load_source(CompactSource { discriminant: 2, original: boxed() }),
        Ok(Source::FromDatabase)
    ));
    assert!(matches!(
        load_source(CompactSource { discriminant: 3, original: None }),
        Ok(Source::PreCast)
    ));
    assert!(matches!(
        load_source(CompactSource { discriminant: 4, original: None }),
        Ok(Source::UserProvidedDefault(None))
    ));
    assert!(matches!(
        load_source(CompactSource { discriminant: 4, original: boxed() }),
        Ok(Source::UserProvidedDefault(Some(prev))) if shown(&prev) == shown(&base)
    ));
}

#[test]
fn an_assigned_value_without_its_original_is_an_error() {
    assert_eq!(
        load_source(CompactSource { discriminant: 1, original: None }).err(),
        Some(DecodeError::MissingOriginal)
    );
    let data = CompactAttribute::Populated {
        name: 1,
        ty: obj(3),
        raw_value: obj(2),
        source: CompactSource { discriminant: 1, original: None },
    };
    assert_eq!(Attribute::load_data(data).err(), Some(DecodeError::MissingOriginal));
}

#[test]
fn an_unknown_number_is_an_error() {
    for d in [0, 5, -1, 100, i32::MAX, i32::MIN] {
        assert_eq!(
            load_source(CompactSource { discriminant: d, original: None }).err(),
            Some(DecodeError::UnrecognizedSource { discriminant: d })
        );
        let with_original = CompactSource {
            discriminant: d,
            original: Some(Box::new(Attribute::uninitialized(1, obj(1)))),
        };
        assert_eq!(
            load_source(with_original).err(),
            Some(DecodeError::UnrecognizedSource { discriminant: d })
        );
    }
    let data = CompactAttribute::Populated {
        name: 1,
        ty: obj(3),
        raw_value: obj(2),
        source: CompactSource { discriminant: 9, original: None },
    };
    assert_eq!(
        Attribute::load_data(data).err(),
        Some(DecodeError::UnrecognizedSource { discriminant: 9 })
    );
}

#[test]
fn errors_say_what_is_wrong() {
    assert_eq!(
        DecodeError::UnrecognizedSource { discriminant: 9 }.message(),
        "Unrecognized attribute"
    );
    assert_eq!(DecodeError::MissingOriginal.message(), "Expected an original `Attribute`");
    assert_eq!(
        DecodeError::UnrecognizedTag { label: String::from("Bogus") }.message(),
        "Unrecognized tag: Bogus"
    );
}

#[test]
fn a_populated_attribute_is_written_as_four_parts() {
    let host = Producing::new();
    let mut a = Attribute::from_database(1, obj(2), obj(3)).with_value_from_user(obj(4));
    a.settle_value(obj(44));
    match a.dump_data(&host).unwrap() {
        CompactAttribute::Populated { name, ty, raw_value, source } => {
            assert_eq!(name, 1);
            assert_eq!(ty, obj(3));
            assert_eq!(raw_value, obj(4));
            assert_eq!(source.discriminant, 1);
            assert_eq!(
                shown(&source.original.unwrap()),
                shown(&Attribute::from_database(1, obj(2), obj(3)))
            );
        },
        other => panic!("unexpected form: {:?}", other),
    }
}

#[test]
fn an_uninitialized_attribute_is_written_as_two_parts() {
    let host = Producing::new();
    let mut u = Attribute::uninitialized(6, obj(3));
    assert!(matches!(
        u.dump_data(&host),
        Ok(CompactAttribute::Uninitialized { name: 6, ty: Value::Object(3) })
    ));
    let back = Attribute::load_data(CompactAttribute::Uninitialized { name: 6, ty: obj(3) });
    assert_eq!(shown(&back.unwrap()), shown(&u));
}

#[test]
fn writing_runs_a_deferred_default_and_reading_finds_its_value() {
    let host = Producing::new();
    let mut a = Attribute::user_provided_default(7, MaybeProc::new(obj(5), true), obj(3), None);
    let data = a.dump_data(&host).unwrap();
    assert_eq!(host.calls.get(), 1);
    let b = Attribute::load_data(data).unwrap();
    assert!(matches!(
        b,
        Attribute::Populated {
            name: 7,
            raw_value: MaybeProc::NotProc(Value::Object(505)),
            ty: Value::Object(3),
            source: Source::UserProvidedDefault(None),
            value: None,
        }
    ));
    host.fail_call.set(true);
    let mut failing =
        Attribute::user_provided_default(7, MaybeProc::new(obj(5), true), obj(3), None);
    assert_eq!(failing.dump_data(&host).err(), Some(String::from("producer failed")));
}

#[test]
fn round_trip_keeps_name_type_raw_value_and_kind() {
    let base = Attribute::from_database(1, obj(2), obj(3));
    let mut all = vec![
        base.clone(),
        base.clone().with_value_from_user(obj(4)),
        Attribute::from_cast_value(2, obj(5), Value::Nil),
        Attribute::uninitialized(3, obj(6)),
        Attribute::user_provided_default(4, MaybeProc::new(obj(7), false), obj(8), None),
        Attribute::user_provided_default(4, MaybeProc::new(obj(7), true), obj(8), Some(base)),
    ];
    let kinds = [
        Kind::FromDatabase,
        Kind::FromUser,
        Kind::PreCast,
        Kind::Uninitialized,
        Kind::UserProvidedDefault,
        Kind::UserProvidedDefault,
    ];
    let host = Producing::new();
    for (a, kind) in all.iter_mut().zip(kinds) {
        let mut b = round_trip(a);
        assert_eq!(b.kind(), kind);
        assert_eq!(b.name(), a.name());
        assert_eq!(b.ty(), a.ty());
        assert_eq!(b.value_before_type_cast(&host), a.value_before_type_cast(&host));
        assert_eq!(b.original_attribute().map(shown), a.original_attribute().map(shown));
        assert!(!b.has_been_read());
        assert_eq!(a.equals(&mut b, &host), Ok(true));
    }
    assert_eq!(host.calls.get(), 0);
}
