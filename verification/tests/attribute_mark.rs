use model_attributes::{Attribute, AttributeSet, MaybeProc, Value};

fn obj(n: u64) -> Value {
    Value::Object(n)
}

fn marked(a: &Attribute) -> Vec<Value> {
    let mut out = vec![obj(999)];
    a.mark(&mut out);
    assert_eq!(out[0], obj(999));
    out.split_off(1)
}

#[test]
fn raw_values_hold_themselves_or_block_and_memo() {
    let mut out = Vec::new();
    MaybeProc::new(obj(1), false).mark(&mut out);
    MaybeProc::new(obj(2), true).mark(&mut out);
    let mut settled = MaybeProc::new(obj(3), true);
    settled.settle(obj(4));
    settled.mark(&mut out);
    assert_eq!(out, vec![obj(1), obj(2), obj(3), obj(4)]);
}

#[test]
fn an_attribute_holds_raw_value_type_lineage_and_cast_value() {
    assert_eq!(marked(&Attribute::uninitialized(1, obj(7))), vec![obj(7)]);
    assert_eq!(marked(&Attribute::from_database(1, obj(2), obj(7))), vec![obj(2), obj(7)]);
    assert_eq!(
        marked(&Attribute::from_cast_value(1, obj(2), obj(7))),
        vec![obj(2), obj(7), obj(2)]
    );
    let mut base = Attribute::from_database(1, obj(2), obj(7));
    base.settle_value(obj(20));
    let mut a = base.with_value_from_user(obj(3));
    a.settle_value(obj(30));
    assert_eq!(marked(&a), vec![obj(3), obj(7), obj(2), obj(7), obj(20), obj(30)]);
    let mut d = Attribute::user_provided_default(
        1,
        MaybeProc::new(obj(5), true),
        obj(8),
        Some(Attribute::uninitialized(1, Value::Nil)),
    );
    assert_eq!(marked(&d), vec![obj(5), obj(8), Value::Nil]);
    d.settle_raw(obj(6));
    assert_eq!(marked(&d), vec![obj(5), obj(6), obj(8), Value::Nil]);
}

#[test]
fn a_set_holds_what_its_attributes_hold() {
    let set = AttributeSet::from_mapping(&vec![
        (1, Attribute::from_database(1, obj(2), obj(7))),
        (2, Attribute::uninitialized(2, obj(8))),
        (3, Attribute::from_cast_value(3, obj(4), obj(9))),
    ]);
    let mut out = vec![obj(0)];
    set.mark(&mut out);
    assert_eq!(out, vec![obj(0), obj(2), obj(7), obj(8), obj(4), obj(9), obj(4)]);
    let mut none = Vec::new();
    AttributeSet::new().mark(&mut none);
    assert!(none.is_empty());
}
