//! What can be wrong with serialized data.

use vstd::prelude::*;
use vstd::string::*;

verus! {

/// Why serialized data could not be read back.
#[derive(Debug, PartialEq, Eq)]
pub enum DecodeError {
    /// The compact form names a kind of source that does not exist.
    UnrecognizedSource { discriminant: i32 },
    /// The compact form says that the value was assigned by the caller but
    /// does not hold the attribute it was assigned to.
    MissingOriginal,
    /// The record carries a tag that is none of the five known; holds what
    /// follows the prefix of the tag.
    UnrecognizedTag { label: String },
}

impl DecodeError {
    /// What the message of this error says.
    pub open spec fn spec_message(self) -> Seq<char> {
        match self {
            DecodeError::UnrecognizedSource { .. } => "Unrecognized attribute"@,
            DecodeError::MissingOriginal => "Expected an original `Attribute`"@,
            DecodeError::UnrecognizedTag { label } => "Unrecognized tag: "@ + label@,
        }
    }

    /// The error in words, for whoever has to report it.
    pub fn message(&self) -> (m: String)
        ensures
            m@ == self.spec_message(),
    {
        match self {
            DecodeError::UnrecognizedSource { .. } => String::from_str("Unrecognized attribute"),
            DecodeError::MissingOriginal => String::from_str("Expected an original `Attribute`"),
            DecodeError::UnrecognizedTag { label } => String::from_str("Unrecognized tag: ").concat(
                label.as_str(),
            ),
        }
    }
}

} // verus!
