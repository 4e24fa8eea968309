//! Why a document was not accepted as a typed value, or a typed value not
//! written as a document.

use vstd::prelude::*;
use vstd::string::*;

verus! {

/// What was wrong with the part of a document that was being read.
#[derive(Clone, Copy, Debug, PartialEq, Eq)]
pub enum Fault {
    /// A document was expected and another kind of value was found.
    NotADocument,
    /// A field that must be there is absent.
    MissingField,
    /// The value is of the wrong kind for the field.
    WrongType,
    /// The number does not fit the field.
    OutOfRange,
    /// The text is not a decimal amount of at most 128 bits.
    MalformedAmount,
    /// A union was written as a document that does not hold exactly one entry.
    NotOneVariant,
    /// The tag names no variant of the union.
    UnknownVariant,
}

/// A decode failure: the fault, and the field or the type at which it was met.
#[derive(Clone, Copy, Debug, PartialEq, Eq)]
pub struct DecodeError {
    pub fault: Fault,
    pub at: &'static str,
}

/// Why a typed value has no document form.
#[derive(Clone, Copy, Debug, PartialEq, Eq)]
pub enum EncodeError {
    /// A number is larger than the largest integer a document can hold.
    NumberTooLarge,
}

/// What a fault is called in a diagnostic.
pub open spec fn fault_words(fault: Fault) -> Seq<char> {
    match fault {
        Fault::NotADocument => "not a document"@,
        Fault::MissingField => "missing field"@,
        Fault::WrongType => "wrong type"@,
        Fault::OutOfRange => "number out of range"@,
        Fault::MalformedAmount => "malformed amount"@,
        Fault::NotOneVariant => "not one variant"@,
        Fault::UnknownVariant => "unknown variant"@,
    }
}

impl Fault {
    /// What the fault is called in a diagnostic.
    pub fn words(self) -> (words: &'static str)
        ensures
            words@ == fault_words(self),
    {
        match self {
            Fault::NotADocument => "not a document",
            Fault::MissingField => "missing field",
            Fault::WrongType => "wrong type",
            Fault::OutOfRange => "number out of range",
            Fault::MalformedAmount => "malformed amount",
            Fault::NotOneVariant => "not one variant",
            Fault::UnknownVariant => "unknown variant",
        }
    }
}

impl DecodeError {
    /// The diagnostic for the failure: what the fault is called, and where
    /// it was met.
    pub open spec fn diagnostic(self) -> Seq<char> {
        fault_words(self.fault) + " at "@ + self.at@
    }

    /// The diagnostic for the failure, for an observer to show.
    pub fn describe(&self) -> (text: String)
        ensures
            text@ == self.diagnostic(),
    {
        let mut text = String::from_str(self.fault.words());
        text.append(" at ");
        text.append(self.at);
        text
    }
}

/// The failure `fault` met at `at`.
pub open spec fn failure(fault: Fault, at: &'static str) -> DecodeError {
    DecodeError { fault, at }
}

} // verus!
