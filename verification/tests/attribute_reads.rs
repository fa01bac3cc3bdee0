use model_attributes::{Attribute, Host, MaybeProc, Name, Source, Value};
use std::cell::Cell;

/// A host that counts what it is asked. A type `Object(t)` casts `Object(n)`
/// to `Object(n + t)`; the absent type casts a value to itself. A producer
/// `Object(b)` produces `Object(b + 500)`.
struct Counting {
    calls: Cell<u32>,
    casts: Cell<u32>,
    serializations: Cell<u32>,
    comparisons: Cell<u32>,
    fail_call: Cell<bool>,
    fail_cast: Cell<bool>,
    fail_serialize: Cell<bool>,
    mutated: Cell<bool>,
}

impl Counting {
    fn new() -> Counting {
        Counting {
            calls: Cell::new(0),
            casts: Cell::new(0),
            serializations: Cell::new(0),
            comparisons: Cell::new(0),
            fail_call: Cell::new(false),
            fail_cast: Cell::new(false),
            fail_serialize: Cell::new(false),
            mutated: Cell::new(false),
        }
    }
}

impl Host for Counting {
    type Error = String;

    fn call(&self, block: Value) -> Result<Value, String> {
        self.calls.set(self.calls.get() + 1);
        if self.fail_call.get() {
            return Err(String::from("producer failed"));
        }
        match block {
            Value::Object(b) => Ok(Value::Object(b + 500)),
            Value::Nil => Ok(Value::Nil),
        }
    }

    fn cast(&self, ty: Value, raw: Value) -> Result<Value, String> {
        self.casts.set(self.casts.get() + 1);
        if self.fail_cast.get() {
            return Err(String::from("cast failed"));
        }
        match (ty, raw) {
            (Value::Object(t), Value::Object(n)) => Ok(Value::Object(n + t)),
            (_, other) => Ok(other),
        }
    }

    fn serialize(&self, _ty: Value, value: Value) -> Result<Value, String> {
        self.serializations.set(self.serializations.get() + 1);
        if self.fail_serialize.get() {
            return Err(String::from("serialize failed"));
        }
        match value {
            Value::Object(n) => Ok(Value::Object(n + 1_000_000)),
            Value::Nil => Ok(Value::Nil),
        }
    }

    fn changed_in_place(&self, _ty: Value, _original: Value, _value: Value) -> Result<bool, String> {
        self.comparisons.set(self.comparisons.get() + 1);
        Ok(self.mutated.get())
    }

    fn null_attribute(&self, name: Name) -> Result<Attribute, String> {
        Ok(Attribute::uninitialized(name, Value::Nil))
    }
}

fn obj(n: u64) -> Value {
    Value::Object(n)
}

fn shown(a: &Attribute) -> String {
    format!("{:?}", a)
}

#[test]
fn from_database_gives_raw_value_without_cast() {
    let host = Counting::new();
    let mut a = Attribute::from_database(1, obj(21), obj(7));
    assert_eq!(a.value_before_type_cast(&host), Ok(obj(21)));
    assert_eq!(host.casts.get(), 0);
    assert_eq!(host.calls.get(), 0);
    assert!(!a.has_been_read());
}

#[test]
fn from_database_casts_exactly_once() {
    let host = Counting::new();
    let mut a = Attribute::from_database(1, obj(21), obj(7));
    assert_eq!(a.value(&host), Ok(obj(28)));
    assert_eq!(host.casts.get(), 1);
    assert!(a.has_been_read());
    assert_eq!(a.value(&host), Ok(obj(28)));
    assert_eq!(a.value(&host), Ok(obj(28)));
    assert_eq!(host.casts.get(), 1);
}

#[test]
fn cached_value_survives_a_host_that_would_cast_otherwise() {
    let first = Counting::new();
    let mut a = Attribute::from_database(1, obj(21), obj(7));
    assert_eq!(a.value(&first), Ok(obj(28)));
    let second = Counting::new();
    second.fail_cast.set(true);
    assert_eq!(a.value(&second), Ok(obj(28)));
    assert_eq!(second.casts.get(), 0);
}

#[test]
fn cast_value_needs_no_cast() {
    let host = Counting::new();
    host.fail_cast.set(true);
    let mut a = Attribute::from_cast_value(3, obj(9), obj(7));
    assert!(a.has_been_read());
    assert_eq!(a.value(&host), Ok(obj(9)));
    assert_eq!(a.value_before_type_cast(&host), Ok(obj(9)));
    assert_eq!(host.casts.get(), 0);
    assert_eq!(host.calls.get(), 0);
}

#[test]
fn deferred_default_is_produced_once() {
    let host = Counting::new();
    let mut a = Attribute::user_provided_default(4, MaybeProc::new(obj(5), true), obj(1), None);
    assert_eq!(a.value_before_type_cast(&host), Ok(obj(505)));
    assert_eq!(host.calls.get(), 1);
    assert_eq!(a.value(&host), Ok(obj(506)));
    assert_eq!(a.value_before_type_cast(&host), Ok(obj(505)));
    assert_eq!(a.value(&host), Ok(obj(506)));
    assert_eq!(host.calls.get(), 1);
    assert_eq!(host.casts.get(), 1);
}

#[test]
fn deferred_default_read_through_value_is_produced_once() {
    let host = Counting::new();
    let mut a = Attribute::user_provided_default(4, MaybeProc::new(obj(5), true), obj(1), None);
    assert_eq!(a.value(&host), Ok(obj(506)));
    assert_eq!(a.value_before_type_cast(&host), Ok(obj(505)));
    assert_eq!(host.calls.get(), 1);
    assert_eq!(host.casts.get(), 1);
}

#[test]
fn plain_default_is_not_called() {
    let host = Counting::new();
    let mut a = Attribute::user_provided_default(4, MaybeProc::new(obj(5), false), obj(1), None);
    assert_eq!(a.value_before_type_cast(&host), Ok(obj(5)));
    assert_eq!(a.value(&host), Ok(obj(6)));
    assert_eq!(host.calls.get(), 0);
}

#[test]
fn failed_producer_leaves_the_attribute_as_it_was() {
    let host = Counting::new();
    host.fail_call.set(true);
    let mut a = Attribute::user_provided_default(4, MaybeProc::new(obj(5), true), obj(1), None);
    let before = shown(&a);
    assert_eq!(a.value(&host), Err(String::from("producer failed")));
    assert_eq!(shown(&a), before);
    assert_eq!(host.casts.get(), 0);
    host.fail_call.set(false);
    assert_eq!(a.value(&host), Ok(obj(506)));
    assert_eq!(host.calls.get(), 2);
}

#[test]
fn failed_cast_keeps_what_the_producer_gave() {
    let host = Counting::new();
    host.fail_cast.set(true);
    let mut a = Attribute::user_provided_default(4, MaybeProc::new(obj(5), true), obj(1), None);
    assert_eq!(a.value(&host), Err(String::from("cast failed")));
    assert!(!a.has_been_read());
    assert!(matches!(
        a,
        Attribute::Populated {
            raw_value: MaybeProc::Proc { block: Value::Object(5), memo: Some(Value::Object(505)) },
            value: None,
            ..
        }
    ));
    host.fail_cast.set(false);
    assert_eq!(a.value(&host), Ok(obj(506)));
    assert_eq!(host.calls.get(), 1);
    assert_eq!(host.casts.get(), 2);
}

#[test]
fn uninitialized_reads_as_absent_and_is_never_read() {
    let host = Counting::new();
    let mut a = Attribute::uninitialized(2, obj(7));
    assert_eq!(a.value(&host), Ok(Value::Nil));
    assert_eq!(a.value_before_type_cast(&host), Ok(Value::Nil));
    assert_eq!(a.original_value(&host), Ok(Value::Nil));
    assert_eq!(a.value_for_database(&host), Ok(Value::Nil));
    assert!(!a.has_been_read());
    assert!(!a.is_initialized());
    assert!(!a.came_from_user());
    assert_eq!(host.casts.get() + host.calls.get() + host.serializations.get(), 0);
}

#[test]
fn value_for_database_serializes_the_cast_value() {
    let host = Counting::new();
    let mut a = Attribute::from_database(1, obj(21), obj(7));
    assert_eq!(a.value_for_database(&host), Ok(obj(1_000_028)));
    assert_eq!(host.casts.get(), 1);
    assert_eq!(host.serializations.get(), 1);
    assert!(a.has_been_read());
}

#[test]
fn value_for_database_hands_on_the_hosts_errors() {
    let host = Counting::new();
    host.fail_serialize.set(true);
    let mut a = Attribute::from_database(1, obj(21), obj(7));
    assert_eq!(a.value_for_database(&host), Err(String::from("serialize failed")));
    assert!(a.has_been_read());
    let failing = Counting::new();
    failing.fail_cast.set(true);
    let mut b = Attribute::from_database(1, obj(21), obj(7));
    assert_eq!(b.value_for_database(&failing), Err(String::from("cast failed")));
    assert_eq!(failing.serializations.get(), 0);
}

#[test]
fn original_value_of_a_chain_is_the_first_value() {
    let host = Counting::new();
    let mut a = Attribute::from_database(1, obj(1), Value::Nil)
        .with_value_from_user(obj(2))
        .with_value_from_user(obj(3));
    assert_eq!(a.original_value(&host), Ok(obj(1)));
    assert_eq!(a.value(&host), Ok(obj(3)));
    assert_eq!(a.is_changed(&host), Ok(true));
}

#[test]
fn original_value_is_cast_by_the_type() {
    let host = Counting::new();
    let mut a = Attribute::from_database(1, obj(1), obj(10))
        .with_value_from_user(obj(2))
        .with_value_from_user(obj(3));
    assert_eq!(a.original_value(&host), Ok(obj(11)));
    assert_eq!(a.original_value(&host), Ok(obj(11)));
    assert_eq!(host.casts.get(), 1);
    assert!(!a.has_been_read());
    assert_eq!(a.original_value_before_type_cast(&host), Ok(obj(1)));
}

#[test]
fn original_value_follows_a_default_that_replaced_something() {
    let host = Counting::new();
    let base = Attribute::from_database(1, obj(40), obj(2));
    let mut a =
        Attribute::user_provided_default(1, MaybeProc::new(obj(8), false), obj(2), Some(base));
    assert_eq!(a.original_value(&host), Ok(obj(42)));
    let mut alone =
        Attribute::user_provided_default(1, MaybeProc::new(obj(8), false), obj(2), None);
    assert_eq!(alone.original_value(&host), Ok(obj(10)));
    assert!(alone.has_been_read());
}

#[test]
fn assigning_the_same_raw_value_is_no_change() {
    let host = Counting::new();
    let mut a = Attribute::from_database(1, obj(1), obj(10)).with_value_from_user(obj(1));
    assert_eq!(a.is_changed(&host), Ok(false));
    assert_eq!(host.comparisons.get(), 1);
}

#[test]
fn a_different_raw_value_is_a_change_that_the_type_is_not_asked_about() {
    let host = Counting::new();
    let mut a = Attribute::from_database(1, obj(1), obj(10)).with_value_from_user(obj(2));
    assert_eq!(a.is_changed(&host), Ok(true));
    assert_eq!(host.comparisons.get(), 0);
    assert_eq!(host.casts.get(), 0);
}

#[test]
fn a_value_mutated_in_place_is_a_change() {
    let host = Counting::new();
    host.mutated.set(true);
    let mut a = Attribute::from_database(1, obj(1), obj(10)).with_value_from_user(obj(1));
    assert_eq!(a.is_changed_in_place(&host), Ok(true));
    assert_eq!(a.is_changed(&host), Ok(true));
    assert_eq!(host.casts.get(), 2);
}

#[test]
fn only_assigned_attributes_change() {
    let host = Counting::new();
    host.mutated.set(true);
    let mut stored = Attribute::from_database(1, obj(1), obj(10));
    assert_eq!(stored.is_changed(&host), Ok(false));
    assert_eq!(stored.is_changed_in_place(&host), Ok(false));
    let mut cast = Attribute::from_cast_value(1, obj(1), obj(10));
    assert_eq!(cast.is_changed(&host), Ok(false));
    let mut default =
        Attribute::user_provided_default(1, MaybeProc::new(obj(8), true), obj(2), None);
    assert_eq!(default.is_changed(&host), Ok(false));
    let mut missing = Attribute::uninitialized(1, obj(10));
    assert_eq!(missing.is_changed(&host), Ok(false));
    assert_eq!(host.comparisons.get() + host.casts.get() + host.calls.get(), 0);
}

#[test]
fn is_changed_hands_on_the_hosts_errors() {
    let host = Counting::new();
    host.fail_cast.set(true);
    let mut a = Attribute::from_database(1, obj(1), obj(10)).with_value_from_user(obj(1));
    assert_eq!(a.is_changed(&host), Err(String::from("cast failed")));
    assert_eq!(a.is_changed_in_place(&host), Err(String::from("cast failed")));
}

#[test]
fn forgetting_assignment_makes_the_value_the_baseline() {
    let host = Counting::new();
    let mut a = Attribute::from_database(1, obj(1), obj(10)).with_value_from_user(obj(2));
    let mut b = a.forgetting_assignment(&host).unwrap();
    assert_eq!(b.value(&host), Ok(obj(12)));
    assert_eq!(a.value(&host), Ok(obj(12)));
    assert!(!b.came_from_user());
    assert_eq!(b.is_changed(&host), Ok(false));
    assert_eq!(b.original_value(&host), Ok(obj(12)));
    assert_eq!(b.value_before_type_cast(&host), Ok(obj(12)));
    assert_eq!(b.name(), 1);
    assert_eq!(b.ty(), obj(10));
    assert!(b.original_attribute().is_none());
    assert_eq!(host.casts.get(), 1);
}

#[test]
fn forgetting_assignment_fails_with_the_cast() {
    let host = Counting::new();
    host.fail_cast.set(true);
    let mut a = Attribute::from_database(1, obj(1), obj(10));
    assert_eq!(a.forgetting_assignment(&host).err(), Some(String::from("cast failed")));
}

#[test]
fn settling_fills_once() {
    let mut a = Attribute::from_database(1, obj(1), obj(10));
    a.settle_value(obj(5));
    a.settle_value(obj(6));
    assert!(matches!(a, Attribute::Populated { value: Some(Value::Object(5)), .. }));
    let mut raw = MaybeProc::new(obj(3), true);
    raw.settle(obj(7));
    raw.settle(obj(8));
    assert!(matches!(raw, MaybeProc::Proc { block: Value::Object(3), memo: Some(Value::Object(7)) }));
    let mut known = MaybeProc::new(obj(3), false);
    known.settle(obj(7));
    assert!(matches!(known, MaybeProc::NotProc(Value::Object(3))));
    let mut u = Attribute::uninitialized(1, obj(10));
    u.settle_value(obj(5));
    u.settle_raw(obj(5));
    assert!(matches!(u, Attribute::Uninitialized { name: 1, ty: Value::Object(10) }));
    let mut d = Attribute::user_provided_default(4, MaybeProc::new(obj(5), true), obj(1), None);
    d.settle_raw(obj(9));
    d.settle_raw(obj(10));
    assert!(matches!(
        d,
        Attribute::Populated { raw_value: MaybeProc::Proc { memo: Some(Value::Object(9)), .. }, .. }
    ));
}

#[test]
fn constructors_build_what_they_say() {
    let a = Attribute::from_database(1, obj(2), obj(3));
    assert!(matches!(
        a,
        Attribute::Populated {
            name: 1,
            raw_value: MaybeProc::NotProc(Value::Object(2)),
            ty: Value::Object(3),
            source: Source::FromDatabase,
            value: None,
        }
    ));
    assert!(a.is_initialized());
    let b = Attribute::from_user(1, obj(4), obj(3), a);
    assert!(b.came_from_user());
    assert!(matches!(&b, Attribute::Populated { source: Source::FromUser(_), value: None, .. }));
    assert_eq!(
        shown(b.original_attribute().unwrap()),
        shown(&Attribute::from_database(1, obj(2), obj(3)))
    );
    let c = Attribute::from_cast_value(1, obj(5), obj(3));
    assert!(matches!(
        c,
        Attribute::Populated {
            raw_value: MaybeProc::NotProc(Value::Object(5)),
            source: Source::PreCast,
            value: Some(Value::Object(5)),
            ..
        }
    ));
    let d = Attribute::user_provided_default(1, MaybeProc::new(obj(6), true), obj(3), None);
    assert!(matches!(
        d,
        Attribute::Populated {
            raw_value: MaybeProc::Proc { block: Value::Object(6), memo: None },
            source: Source::UserProvidedDefault(None),
            value: None,
            ..
        }
    ));
    assert!(!d.came_from_user());
}

#[test]
fn values_know_whether_they_are_absent() {
    assert!(Value::Nil.is_nil());
    assert!(!obj(0).is_nil());
    assert_eq!(Value::Nil.present(), None);
    assert_eq!(obj(3).present(), Some(obj(3)));
    assert_eq!(Value::of_field(None), Value::Nil);
    assert_eq!(Value::of_field(Some(obj(3))), obj(3));
}
