//! Reading single values and fields out of a document, each reader beside
//! the statement of what it accepts.

use crate::decimal::{parse_amount, read_amount};
use crate::document::{
    entries_of, find, lemma_document_view, lookup, Entries, Field, Value, ValueView,
};
use crate::error::{failure, DecodeError, Fault};
use vstd::prelude::*;

verus! {

/// The entries of `v`, which has to be a document.
pub open spec fn entries_in(v: ValueView, at: &'static str) -> Result<Entries, DecodeError> {
    match v {
        ValueView::Document(entries) => Ok(entries),
        _ => Err(failure(Fault::NotADocument, at)),
    }
}

/// The text that `v` holds.
pub open spec fn text_in(v: ValueView, at: &'static str) -> Result<Seq<char>, DecodeError> {
    match v {
        ValueView::Text(s) => Ok(s),
        _ => Err(failure(Fault::WrongType, at)),
    }
}

/// The integer that `v` holds, whichever of the two widths it is stored in.
pub open spec fn integer_in(v: ValueView, at: &'static str) -> Result<int, DecodeError> {
    match v {
        ValueView::Int32(n) => Ok(n as int),
        ValueView::Int64(n) => Ok(n as int),
        _ => Err(failure(Fault::WrongType, at)),
    }
}

/// The integer that `v` holds, which has to lie between 0 and `max`.
pub open spec fn bounded_in(v: ValueView, max: int, at: &'static str) -> Result<int, DecodeError> {
    match integer_in(v, at) {
        Ok(n) => if 0 <= n <= max {
            Ok(n)
        } else {
            Err(failure(Fault::OutOfRange, at))
        },
        Err(e) => Err(e),
    }
}

/// The unsigned 64-bit number that `v` holds.
pub open spec fn u64_in(v: ValueView, at: &'static str) -> Result<u64, DecodeError> {
    match bounded_in(v, i64::MAX as int, at) {
        Ok(n) => Ok(n as u64),
        Err(e) => Err(e),
    }
}

/// The unsigned 32-bit number that `v` holds.
pub open spec fn u32_in(v: ValueView, at: &'static str) -> Result<u32, DecodeError> {
    match bounded_in(v, u32::MAX as int, at) {
        Ok(n) => Ok(n as u32),
        Err(e) => Err(e),
    }
}

/// The unsigned 8-bit number that `v` holds.
pub open spec fn u8_in(v: ValueView, at: &'static str) -> Result<u8, DecodeError> {
    match bounded_in(v, u8::MAX as int, at) {
        Ok(n) => Ok(n as u8),
        Err(e) => Err(e),
    }
}

/// The amount that `v` holds as decimal text.
pub open spec fn amount_in(v: ValueView, at: &'static str) -> Result<u128, DecodeError> {
    match v {
        ValueView::Text(s) => match parse_amount(s) {
            Some(n) => Ok(n),
            None => Err(failure(Fault::MalformedAmount, at)),
        },
        _ => Err(failure(Fault::WrongType, at)),
    }
}

/// The bit pattern of the floating-point number that `v` holds.
pub open spec fn double_in(v: ValueView, at: &'static str) -> Result<u64, DecodeError> {
    match v {
        ValueView::Double(bits) => Ok(bits),
        _ => Err(failure(Fault::WrongType, at)),
    }
}

/// The object identifier that `v` holds.
pub open spec fn object_id_in(v: ValueView, at: &'static str) -> Result<[u8; 12], DecodeError> {
    match v {
        ValueView::ObjectId(id) => Ok(id),
        _ => Err(failure(Fault::WrongType, at)),
    }
}

/// The value of a field that must be there.
pub open spec fn required(entries: Entries, key: &'static str) -> Result<ValueView, DecodeError> {
    match lookup(entries, key@) {
        Some(v) => Ok(v),
        None => Err(failure(Fault::MissingField, key)),
    }
}

/// The value of a field that may be left out: an absent field and a field
/// that holds null both count as no value.
pub open spec fn optional(entries: Entries, key: &'static str) -> Option<ValueView> {
    match lookup(entries, key@) {
        Some(ValueView::Null) => None,
        other => other,
    }
}

/// A union as it is written: a bare tag, or a tag with a body.
pub ghost enum Tagged {
    Bare(Seq<char>),
    Body(Seq<char>, ValueView),
}

/// The tag of a union value, with its body where it has one. A text is a
/// bare tag; a document has to hold exactly one entry, whose key is the tag.
pub open spec fn tagged_in(v: ValueView, at: &'static str) -> Result<Tagged, DecodeError> {
    match v {
        ValueView::Text(tag) => Ok(Tagged::Bare(tag)),
        ValueView::Document(entries) => if entries.len() == 1 {
            Ok(Tagged::Body(entries[0].0, entries[0].1))
        } else {
            Err(failure(Fault::NotOneVariant, at))
        },
        _ => Err(failure(Fault::WrongType, at)),
    }
}

/// A union value as the reading code holds it.
pub enum Variant<'a> {
    Bare(&'a str),
    Body(&'a str, &'a Value),
}

impl<'a> View for Variant<'a> {
    type V = Tagged;

    open spec fn view(&self) -> Tagged {
        match self {
            Variant::Bare(tag) => Tagged::Bare(tag@),
            Variant::Body(tag, body) => Tagged::Body(tag@, body@),
        }
    }
}

/// Reads `v` as a document.
pub fn get_entries<'a>(v: &'a Value, at: &'static str) -> (r: Result<&'a Vec<Field>, DecodeError>)
    ensures
        match r {
            Ok(fields) => entries_in(v@, at) == Ok::<Entries, DecodeError>(entries_of(fields@)),
            Err(e) => entries_in(v@, at) == Err::<Entries, DecodeError>(e),
        },
{
    match v {
        Value::Document(fields) => {
            proof {
                lemma_document_view(*fields);
            }
            Ok(fields)
        },
        _ => Err(DecodeError { fault: Fault::NotADocument, at }),
    }
}

/// Reads `v` as text.
pub fn get_text(v: &Value, at: &'static str) -> (r: Result<String, DecodeError>)
    ensures
        match r {
            Ok(s) => text_in(v@, at) == Ok::<Seq<char>, DecodeError>(s@),
            Err(e) => text_in(v@, at) == Err::<Seq<char>, DecodeError>(e),
        },
{
    match v {
        Value::Text(s) => Ok(s.clone()),
        _ => Err(DecodeError { fault: Fault::WrongType, at }),
    }
}

/// Reads `v` as an integer between 0 and `max`.
pub fn get_bounded(v: &Value, max: u64, at: &'static str) -> (r: Result<u64, DecodeError>)
    ensures
        match r {
            Ok(n) => bounded_in(v@, max as int, at) == Ok::<int, DecodeError>(n as int),
            Err(e) => bounded_in(v@, max as int, at) == Err::<int, DecodeError>(e),
        },
{
    let n: i64 = match v {
        Value::Int32(n) => *n as i64,
        Value::Int64(n) => *n,
        _ => {
            return Err(DecodeError { fault: Fault::WrongType, at });
        },
    };
    if n < 0 || n as u64 > max {
        Err(DecodeError { fault: Fault::OutOfRange, at })
    } else {
        Ok(n as u64)
    }
}

/// Reads `v` as an unsigned 64-bit number.
pub fn get_u64(v: &Value, at: &'static str) -> (r: Result<u64, DecodeError>)
    ensures
        r == u64_in(v@, at),
{
    match get_bounded(v, i64::MAX as u64, at) {
        Ok(n) => Ok(n),
        Err(e) => Err(e),
    }
}

/// Reads `v` as an unsigned 32-bit number.
pub fn get_u32(v: &Value, at: &'static str) -> (r: Result<u32, DecodeError>)
    ensures
        r == u32_in(v@, at),
{
    match get_bounded(v, u32::MAX as u64, at) {
        Ok(n) => Ok(n as u32),
        Err(e) => Err(e),
    }
}

/// Reads `v` as an unsigned 8-bit number.
pub fn get_u8(v: &Value, at: &'static str) -> (r: Result<u8, DecodeError>)
    ensures
        r == u8_in(v@, at),
{
    match get_bounded(v, u8::MAX as u64, at) {
        Ok(n) => Ok(n as u8),
        Err(e) => Err(e),
    }
}

/// Reads `v` as an amount.
pub fn get_amount(v: &Value, at: &'static str) -> (r: Result<u128, DecodeError>)
    ensures
        r == amount_in(v@, at),
{
    match v {
        Value::Text(s) => match read_amount(s.as_str()) {
            Some(n) => Ok(n),
            None => Err(DecodeError { fault: Fault::MalformedAmount, at }),
        },
        _ => Err(DecodeError { fault: Fault::WrongType, at }),
    }
}

/// Reads `v` as the bit pattern of a floating-point number.
pub fn get_double(v: &Value, at: &'static str) -> (r: Result<u64, DecodeError>)
    ensures
        r == double_in(v@, at),
{
    match v {
        Value::Double(bits) => Ok(*bits),
        _ => Err(DecodeError { fault: Fault::WrongType, at }),
    }
}

/// Reads `v` as an object identifier.
pub fn get_object_id(v: &Value, at: &'static str) -> (r: Result<[u8; 12], DecodeError>)
    ensures
        r == object_id_in(v@, at),
{
    match v {
        Value::ObjectId(id) => Ok(*id),
        _ => Err(DecodeError { fault: Fault::WrongType, at }),
    }
}

/// The value of the field `key`, which must be there.
pub fn require<'a>(fields: &'a Vec<Field>, key: &'static str) -> (r: Result<&'a Value, DecodeError>)
    ensures
        match r {
            Ok(v) => required(entries_of(fields@), key) == Ok::<ValueView, DecodeError>(v@),
            Err(e) => required(entries_of(fields@), key) == Err::<ValueView, DecodeError>(e),
        },
{
    match find(fields, key) {
        Some(v) => Ok(v),
        None => Err(DecodeError { fault: Fault::MissingField, at: key }),
    }
}

/// The value of the field `key`, if the document gives it one.
pub fn present<'a>(fields: &'a Vec<Field>, key: &'static str) -> (r: Option<&'a Value>)
    ensures
        match r {
            Some(v) => optional(entries_of(fields@), key) == Some(v@),
            None => optional(entries_of(fields@), key) is None,
        },
{
    match find(fields, key) {
        Some(Value::Null) => None,
        other => other,
    }
}

/// Reads `v` as a union value.
pub fn get_variant<'a>(v: &'a Value, at: &'static str) -> (r: Result<Variant<'a>, DecodeError>)
    ensures
        match r {
            Ok(variant) => tagged_in(v@, at) == Ok::<Tagged, DecodeError>(variant@),
            Err(e) => tagged_in(v@, at) == Err::<Tagged, DecodeError>(e),
        },
{
    match v {
        Value::Text(tag) => Ok(Variant::Bare(tag.as_str())),
        Value::Document(fields) => {
            proof {
                lemma_document_view(*fields);
            }
            if fields.len() == 1 {
                Ok(Variant::Body(fields[0].key.as_str(), &fields[0].value))
            } else {
                Err(DecodeError { fault: Fault::NotOneVariant, at })
            }
        },
        _ => Err(DecodeError { fault: Fault::WrongType, at }),
    }
}

/// The text stored in the field `key`.
pub open spec fn text_field(entries: Entries, key: &'static str) -> Result<Seq<char>, DecodeError> {
    match required(entries, key) {
        Ok(v) => text_in(v, key),
        Err(e) => Err(e),
    }
}

/// The unsigned 64-bit number stored in the field `key`.
pub open spec fn u64_field(entries: Entries, key: &'static str) -> Result<u64, DecodeError> {
    match required(entries, key) {
        Ok(v) => u64_in(v, key),
        Err(e) => Err(e),
    }
}

/// The unsigned 32-bit number stored in the field `key`.
pub open spec fn u32_field(entries: Entries, key: &'static str) -> Result<u32, DecodeError> {
    match required(entries, key) {
        Ok(v) => u32_in(v, key),
        Err(e) => Err(e),
    }
}

/// The unsigned 8-bit number stored in the field `key`.
pub open spec fn u8_field(entries: Entries, key: &'static str) -> Result<u8, DecodeError> {
    match required(entries, key) {
        Ok(v) => u8_in(v, key),
        Err(e) => Err(e),
    }
}

/// The amount stored in the field `key`.
pub open spec fn amount_field(entries: Entries, key: &'static str) -> Result<u128, DecodeError> {
    match required(entries, key) {
        Ok(v) => amount_in(v, key),
        Err(e) => Err(e),
    }
}

/// The floating-point bit pattern stored in the field `key`.
pub open spec fn double_field(entries: Entries, key: &'static str) -> Result<u64, DecodeError> {
    match required(entries, key) {
        Ok(v) => double_in(v, key),
        Err(e) => Err(e),
    }
}

/// The value of the field `key` as `parse` reads it.
pub open spec fn field_as<T>(
    entries: Entries,
    key: &'static str,
    parse: spec_fn(ValueView) -> Result<T, DecodeError>,
) -> Result<T, DecodeError> {
    match required(entries, key) {
        Ok(v) => parse(v),
        Err(e) => Err(e),
    }
}

/// The value of the field `key` as `parse` reads it, or nothing where the
/// document gives the field no value.
pub open spec fn optional_as<T>(
    entries: Entries,
    key: &'static str,
    parse: spec_fn(ValueView) -> Result<T, DecodeError>,
) -> Result<Option<T>, DecodeError> {
    match optional(entries, key) {
        Some(v) => match parse(v) {
            Ok(x) => Ok(Some(x)),
            Err(e) => Err(e),
        },
        None => Ok(None),
    }
}

/// The text stored in the field `key`, if any.
pub open spec fn optional_text_field(entries: Entries, key: &'static str) -> Result<
    Option<Seq<char>>,
    DecodeError,
> {
    optional_as(entries, key, |v: ValueView| text_in(v, key))
}

/// The unsigned 64-bit number stored in the field `key`, if any.
pub open spec fn optional_u64_field(entries: Entries, key: &'static str) -> Result<
    Option<u64>,
    DecodeError,
> {
    optional_as(entries, key, |v: ValueView| u64_in(v, key))
}

/// The object identifier stored in the field `key`, if any.
pub open spec fn optional_object_id_field(entries: Entries, key: &'static str) -> Result<
    Option<[u8; 12]>,
    DecodeError,
> {
    optional_as(entries, key, |v: ValueView| object_id_in(v, key))
}

/// The characters of an optional string.
pub open spec fn optional_text(text: Option<String>) -> Option<Seq<char>> {
    match text {
        Some(s) => Some(s@),
        None => None,
    }
}

/// Reads the text of the field `key`.
pub fn read_text(fields: &Vec<Field>, key: &'static str) -> (r: Result<String, DecodeError>)
    ensures
        match r {
            Ok(s) => text_field(entries_of(fields@), key) == Ok::<Seq<char>, DecodeError>(s@),
            Err(e) => text_field(entries_of(fields@), key) == Err::<Seq<char>, DecodeError>(e),
        },
{
    get_text(require(fields, key)?, key)
}

/// Reads the unsigned 64-bit number of the field `key`.
pub fn read_u64(fields: &Vec<Field>, key: &'static str) -> (r: Result<u64, DecodeError>)
    ensures
        r == u64_field(entries_of(fields@), key),
{
    get_u64(require(fields, key)?, key)
}

/// Reads the unsigned 32-bit number of the field `key`.
pub fn read_u32(fields: &Vec<Field>, key: &'static str) -> (r: Result<u32, DecodeError>)
    ensures
        r == u32_field(entries_of(fields@), key),
{
    get_u32(require(fields, key)?, key)
}

/// Reads the unsigned 8-bit number of the field `key`.
pub fn read_u8(fields: &Vec<Field>, key: &'static str) -> (r: Result<u8, DecodeError>)
    ensures
        r == u8_field(entries_of(fields@), key),
{
    get_u8(require(fields, key)?, key)
}

/// Reads the amount of the field `key`.
pub fn read_amount_field(fields: &Vec<Field>, key: &'static str) -> (r: Result<u128, DecodeError>)
    ensures
        r == amount_field(entries_of(fields@), key),
{
    get_amount(require(fields, key)?, key)
}

/// Reads the floating-point bit pattern of the field `key`.
pub fn read_double(fields: &Vec<Field>, key: &'static str) -> (r: Result<u64, DecodeError>)
    ensures
        r == double_field(entries_of(fields@), key),
{
    get_double(require(fields, key)?, key)
}

/// Reads the text of the field `key`, if the document gives it one.
pub fn read_optional_text(fields: &Vec<Field>, key: &'static str) -> (r: Result<
    Option<String>,
    DecodeError,
>)
    ensures
        match r {
            Ok(s) => optional_text_field(entries_of(fields@), key) == Ok::<
                Option<Seq<char>>,
                DecodeError,
            >(optional_text(s)),
            Err(e) => optional_text_field(entries_of(fields@), key) == Err::<
                Option<Seq<char>>,
                DecodeError,
            >(e),
        },
{
    match present(fields, key) {
        Some(v) => Ok(Some(get_text(v, key)?)),
        None => Ok(None),
    }
}

/// Reads the unsigned 64-bit number of the field `key`, if the document
/// gives it one.
pub fn read_optional_u64(fields: &Vec<Field>, key: &'static str) -> (r: Result<
    Option<u64>,
    DecodeError,
>)
    ensures
        r == optional_u64_field(entries_of(fields@), key),
{
    match present(fields, key) {
        Some(v) => Ok(Some(get_u64(v, key)?)),
        None => Ok(None),
    }
}

/// Reads the object identifier of the field `key`, if the document gives it
/// one.
pub fn read_optional_object_id(fields: &Vec<Field>, key: &'static str) -> (r: Result<
    Option<[u8; 12]>,
    DecodeError,
>)
    ensures
        r == optional_object_id_field(entries_of(fields@), key),
{
    match present(fields, key) {
        Some(v) => Ok(Some(get_object_id(v, key)?)),
        None => Ok(None),
    }
}

} // verus!
