//! Handles to the host's values.

use vstd::prelude::*;

verus! {

/// The interned identifier of a field's name.
pub type Name = u64;

/// A value of the host, as the library sees it: an opaque handle that can be
/// copied and compared, or the host's absent value.
#[derive(Clone, Copy, PartialEq, Eq, Structural, Debug, Hash)]
pub enum Value {
    /// The absent value.
    Nil,
    /// Any other value, by its handle.
    Object(u64),
}

impl Value {
    /// Whether this is the absent value.
    pub fn is_nil(&self) -> (r: bool)
        ensures
            r == (*self == Value::Nil),
    {
        match self {
            Value::Nil => true,
            Value::Object(_) => false,
        }
    }

    /// `None` for the absent value, the value itself otherwise.
    pub fn present(self) -> (r: Option<Value>)
        ensures
            r == self.spec_present(),
    {
        match self {
            Value::Nil => None,
            Value::Object(_) => Some(self),
        }
    }

    /// The value a field of a record stands for: an omitted field reads as
    /// the absent value.
    pub fn of_field(field: Option<Value>) -> (r: Value)
        ensures
            r == Value::spec_of_field(field),
    {
        match field {
            Some(v) => v,
            None => Value::Nil,
        }
    }

    pub open spec fn spec_present(self) -> Option<Value> {
        if self == Value::Nil {
            None
        } else {
            Some(self)
        }
    }

    pub open spec fn spec_of_field(field: Option<Value>) -> Value {
        match field {
            Some(v) => v,
            None => Value::Nil,
        }
    }
}

} // verus!
