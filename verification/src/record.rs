//! The types that a stored document can be read as.

use crate::decode::{decode_event, parse_event};
use crate::document::{Value, ValueView};
use crate::error::DecodeError;
use crate::legacy::OmniEventOld;
use crate::legacy_decode::{decode_event_old, parse_event_old};
use crate::schema::OmniEvent;
use vstd::prelude::*;

verus! {

/// A type of record with a document form.
pub trait Record: View + Sized {
    /// What a document says as a record of this type.
    spec fn parse(v: ValueView) -> Result<Self::V, DecodeError>;

    /// Reads a document as a record of this type.
    fn decode(v: &Value) -> (r: Result<Self, DecodeError>)
        ensures
            match r {
                Ok(x) => Self::parse(v@) == Ok::<Self::V, DecodeError>(x@),
                Err(e) => Self::parse(v@) == Err::<Self::V, DecodeError>(e),
            },
    ;
}

impl Record for OmniEvent {
    open spec fn parse(v: ValueView) -> Result<Self::V, DecodeError> {
        parse_event(v)
    }

    fn decode(v: &Value) -> (r: Result<Self, DecodeError>) {
        decode_event(v)
    }
}

impl Record for OmniEventOld {
    open spec fn parse(v: ValueView) -> Result<Self::V, DecodeError> {
        parse_event_old(v)
    }

    fn decode(v: &Value) -> (r: Result<Self, DecodeError>) {
        decode_event_old(v)
    }
}

} // verus!
