//! The values that an attribute keeps alive.
//!
//! A host that collects garbage has to be told which of its values the
//! library still holds. An attribute holds its raw value, or its producer and
//! what that has produced, its type, its cast value once it is held, and
//! whatever the attributes of its lineage hold. Names are identifiers, not
//! values, and are not listed.

use crate::attribute::{Attribute, MaybeProc, Source};
use crate::value::Value;
use vstd::prelude::*;

verus! {

impl MaybeProc {
    /// The values that this raw value holds: the value, or the producer
    /// followed by what it has produced.
    pub open spec fn reachable(self) -> Seq<Value> {
        match self {
            MaybeProc::NotProc(v) => seq![v],
            MaybeProc::Proc { block, memo: Some(produced) } => seq![block, produced],
            MaybeProc::Proc { block, memo: None } => seq![block],
        }
    }

    /// Appends to `marked` the values that this raw value holds.
    pub fn mark(&self, marked: &mut Vec<Value>)
        ensures
            final(marked)@ == old(marked)@ + self.reachable(),
    {
        match self {
            MaybeProc::NotProc(v) => {
                marked.push(*v);
            },
            MaybeProc::Proc { block, memo } => {
                marked.push(*block);
                match memo {
                    Some(produced) => {
                        marked.push(*produced);
                    },
                    None => {},
                }
            },
        }
    }
}

impl Attribute {
    /// The values that this attribute holds: its raw value, its type, what
    /// the attributes of its lineage hold, and its cast value if it holds
    /// one, in this order.
    pub open spec fn reachable(self) -> Seq<Value>
        decreases self,
    {
        match self {
            Attribute::Populated { raw_value, ty, source, value, .. } => {
                raw_value.reachable() + seq![ty] + (match source {
                    Source::FromUser(prev) => prev.reachable(),
                    Source::UserProvidedDefault(Some(prev)) => prev.reachable(),
                    _ => Seq::empty(),
                }) + (match value {
                    Some(cast) => seq![cast],
                    None => Seq::empty(),
                })
            },
            Attribute::Uninitialized { ty, .. } => seq![ty],
        }
    }

    /// Appends to `marked` the values that this attribute holds.
    pub fn mark(&self, marked: &mut Vec<Value>)
        ensures
            final(marked)@ == old(marked)@ + self.reachable(),
        decreases *self,
    {
        match self {
            Attribute::Populated { raw_value, ty, source, value, .. } => {
                raw_value.mark(marked);
                marked.push(*ty);
                match source {
                    Source::FromUser(prev) => {
                        prev.mark(marked);
                    },
                    Source::UserProvidedDefault(Some(prev)) => {
                        prev.mark(marked);
                    },
                    _ => {},
                }
                match value {
                    Some(cast) => {
                        marked.push(*cast);
                    },
                    None => {},
                }
            },
            Attribute::Uninitialized { ty, .. } => {
                marked.push(*ty);
            },
        }
    }
}

} // verus!
