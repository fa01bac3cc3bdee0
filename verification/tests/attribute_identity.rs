use model_attributes::attribute::identity::HashKey;
use model_attributes::{Attribute, Host, MaybeProc, Name, Value};
use std::cell::Cell;
use std::collections::hash_map::DefaultHasher;
use std::hash::{Hash, Hasher};

/// A host whose producers give `Object(b + 500)` and whose other
/// capabilities are not used here.
struct Producing {
    calls: Cell<u32>,
    fail_call: Cell<bool>,
}

impl Producing {
    fn new() -> Producing {
        Producing { calls: Cell::new(0), fail_call: Cell::new(false) }
    }
}

impl Host for Producing {
    type Error = String;

    fn call(&self, block: Value) -> Result<Value, String> {
        self.calls.set(self.calls.get() + 1);
        if self.fail_call.get() {
            return Err(String::from("producer failed"));
        }
        match block {
            Value::Object(b) => Ok(Value::Object(b + 500)),
            Value::Nil => Ok(Value::Nil),
        }
    }

    fn cast(&self, _ty: Value, _raw: Value) -> Result<Value, String> {
        Err(String::from("no cast expected"))
    }

    fn serialize(&self, _ty: Value, _value: Value) -> Result<Value, String> {
        Err(String::from("no serialization expected"))
    }

    fn changed_in_place(&self, _ty: Value, _original: Value, _value: Value) -> Result<bool, String> {
        Err(String::from("no comparison expected"))
    }

    fn null_attribute(&self, _name: Name) -> Result<Attribute, String> {
        Err(String::from("no placeholder expected"))
    }
}

fn obj(n: u64) -> Value {
    Value::Object(n)
}

fn hashed(key: &HashKey) -> u64 {
    let mut hasher = DefaultHasher::new();
    key.hash(&mut hasher);
    hasher.finish()
}

#[test]
fn hash_key_holds_kind_name_raw_value_and_type() {
    let host = Producing::new();
    let mut a = Attribute::from_database(7, obj(2), obj(3));
    assert_eq!(
        a.hash_key(&host),
        Ok(HashKey { discriminant: 2, name: 7, value: obj(2), ty: obj(3) })
    );
    let mut u = Attribute::uninitialized(7, obj(3));
    assert_eq!(
        u.hash_key(&host),
        Ok(HashKey { discriminant: 0, name: 7, value: Value::Nil, ty: obj(3) })
    );
    let mut user = Attribute::from_database(7, obj(2), obj(3)).with_value_from_user(obj(4));
    assert_eq!(
        user.hash_key(&host),
        Ok(HashKey { discriminant: 1, name: 7, value: obj(4), ty: obj(3) })
    );
    let mut cast = Attribute::from_cast_value(7, obj(2), obj(3));
    assert_eq!(
        cast.hash_key(&host),
        Ok(HashKey { discriminant: 3, name: 7, value: obj(2), ty: obj(3) })
    );
}

#[test]
fn hash_key_runs_a_deferred_default() {
    let host = Producing::new();
    let mut a = Attribute::user_provided_default(7, MaybeProc::new(obj(5), true), obj(3), None);
    assert_eq!(
        a.hash_key(&host),
        Ok(HashKey { discriminant: 4, name: 7, value: obj(505), ty: obj(3) })
    );
    assert_eq!(a.hash_key(&host).map(|k| k.value), Ok(obj(505)));
    assert_eq!(host.calls.get(), 1);
}

#[test]
fn lineage_and_cast_value_play_no_part_in_equality() {
    let host = Producing::new();
    let mut a = Attribute::from_database(7, obj(1), obj(3)).with_value_from_user(obj(4));
    let mut b = Attribute::from_cast_value(7, obj(9), obj(3))
        .with_value_from_user(obj(8))
        .with_value_from_user(obj(4));
    b.settle_value(obj(77));
    assert_eq!(a.equals(&mut b, &host), Ok(true));
    assert_eq!(b.equals(&mut a, &host), Ok(true));
    let ka = a.hash_key(&host).unwrap();
    let kb = b.hash_key(&host).unwrap();
    assert_eq!(ka, kb);
    assert_eq!(hashed(&ka), hashed(&kb));
}

#[test]
fn kind_name_raw_value_and_type_each_tell_attributes_apart() {
    let host = Producing::new();
    let mut a = Attribute::from_database(7, obj(1), obj(3));
    assert_eq!(a.equals(&mut Attribute::from_database(7, obj(1), obj(3)), &host), Ok(true));
    assert_eq!(a.equals(&mut Attribute::from_database(8, obj(1), obj(3)), &host), Ok(false));
    assert_eq!(a.equals(&mut Attribute::from_database(7, obj(2), obj(3)), &host), Ok(false));
    assert_eq!(a.equals(&mut Attribute::from_database(7, obj(1), obj(4)), &host), Ok(false));
    assert_eq!(a.equals(&mut Attribute::from_cast_value(7, obj(1), obj(3)), &host), Ok(false));
    assert_eq!(a.equals(&mut Attribute::uninitialized(7, obj(3)), &host), Ok(false));
}

#[test]
fn equality_compares_what_deferred_defaults_produce() {
    let host = Producing::new();
    let mut a = Attribute::user_provided_default(7, MaybeProc::new(obj(5), true), obj(3), None);
    let mut b = Attribute::user_provided_default(7, MaybeProc::new(obj(505), false), obj(3), None);
    assert_eq!(a.equals(&mut b, &host), Ok(true));
    assert_eq!(host.calls.get(), 1);
    assert!(matches!(
        a,
        Attribute::Populated { raw_value: MaybeProc::Proc { memo: Some(Value::Object(505)), .. }, .. }
    ));
}

#[test]
fn equality_hands_on_a_failed_producer() {
    let host = Producing::new();
    host.fail_call.set(true);
    let mut a = Attribute::user_provided_default(7, MaybeProc::new(obj(5), true), obj(3), None);
    let mut b = Attribute::from_database(7, obj(1), obj(3));
    assert_eq!(a.equals(&mut b, &host), Err(String::from("producer failed")));
    assert_eq!(b.equals(&mut a, &host), Err(String::from("producer failed")));
    assert_eq!(a.hash_key(&host), Err(String::from("producer failed")));
}
