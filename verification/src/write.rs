//! Building documents entry by entry, each step beside the statement of the
//! entries it leaves.

use crate::decimal::{decimal_text, format_amount};
use crate::document::{
    entries_of, lemma_document_view, lemma_lookup_concat, lemma_lookup_single, lookup, Entries,
    Field, Value, ValueView,
};
use crate::error::EncodeError;
use vstd::prelude::*;

verus! {

/// The empty list of entries.
pub open spec fn no_entries() -> Entries {
    Seq::empty()
}

/// `entries` followed by the entry of `v` under `key`.
pub open spec fn with_field(entries: Entries, key: &'static str, v: ValueView) -> Entries {
    entries.push((key@, v))
}

/// `entries` followed by the entry of `v` under `key` where there is a
/// value, and `entries` unchanged where there is none.
pub open spec fn with_optional(
    entries: Entries, key: &'static str, v: Option<ValueView>,
) -> Entries {
    match v {
        Some(v) => entries.push((key@, v)),
        None => entries,
    }
}

/// A union value that carries a body: a document of the one entry `tag`.
pub open spec fn tagged(tag: &'static str, body: ValueView) -> ValueView {
    ValueView::Document(seq![(tag@, body)])
}

/// The document value of an unsigned 64-bit number that a document can hold.
pub open spec fn number_value(n: u64) -> ValueView {
    ValueView::Int64(n as i64)
}

/// The document value of an amount: its decimal text.
pub open spec fn amount_value(n: u128) -> ValueView {
    ValueView::Text(decimal_text(n as nat))
}

/// The document value of an optional text.
pub open spec fn optional_text_value(text: Option<Seq<char>>) -> Option<ValueView> {
    match text {
        Some(s) => Some(ValueView::Text(s)),
        None => None,
    }
}

/// The document value of an optional unsigned 64-bit number.
pub open spec fn optional_number_value(n: Option<u64>) -> Option<ValueView> {
    match n {
        Some(n) => Some(number_value(n)),
        None => None,
    }
}

/// The document value of an optional object identifier.
pub open spec fn optional_object_id_value(id: Option<[u8; 12]>) -> Option<ValueView> {
    match id {
        Some(id) => Some(ValueView::ObjectId(id)),
        None => None,
    }
}

/// The document value of an optional value that `render` writes.
pub open spec fn optional_rendered<T>(o: Option<T>, render: spec_fn(T) -> ValueView) -> Option<
    ValueView,
> {
    match o {
        Some(x) => Some(render(x)),
        None => None,
    }
}

/// Whether a document can hold the optional number.
pub open spec fn optional_storable(n: Option<u64>) -> bool {
    n matches Some(n) ==> n <= i64::MAX
}

/// A lookup after one more entry reads the earlier entries first.
pub broadcast proof fn lemma_lookup_push(
    entries: Entries, k: Seq<char>, v: ValueView, key: Seq<char>,
)
    ensures
        #[trigger] lookup(entries.push((k, v)), key) == if lookup(entries, key) is Some {
            lookup(entries, key)
        } else if k == key {
            Some(v)
        } else {
            None
        },
{
    lemma_lookup_concat(entries, seq![(k, v)], key);
    lemma_lookup_single(k, v, key);
    assert(entries + seq![(k, v)] =~= entries.push((k, v)));
}

/// A fresh list of fields.
pub fn new_fields() -> (fields: Vec<Field>)
    ensures
        entries_of(fields@) == no_entries(),
{
    let fields: Vec<Field> = Vec::new();
    assert(entries_of(fields@) =~= no_entries());
    fields
}

/// Appends the entry of `value` under `key`.
pub fn put(fields: &mut Vec<Field>, key: &'static str, value: Value)
    ensures
        entries_of(final(fields)@) == with_field(entries_of(old(fields)@), key, value@),
{
    fields.push(Field { key: key.to_owned(), value });
    assert(entries_of(fields@) =~= with_field(entries_of(old(fields)@), key, value@));
}

/// The document of `fields`.
pub fn document(fields: Vec<Field>) -> (v: Value)
    ensures
        v@ == ValueView::Document(entries_of(fields@)),
{
    proof {
        lemma_document_view(fields);
    }
    Value::Document(fields)
}

/// The union value of `tag` with `body`.
pub fn tag_with(tag: &'static str, body: Value) -> (v: Value)
    ensures
        v@ == tagged(tag, body@),
{
    let mut fields = new_fields();
    put(&mut fields, tag, body);
    assert(entries_of(fields@) =~= seq![(tag@, body@)]);
    document(fields)
}

/// The text value that holds the characters of `s`.
pub fn text(s: &str) -> (v: Value)
    ensures
        v@ == ValueView::Text(s@),
{
    Value::Text(s.to_owned())
}

/// The value of a number, where a document can hold it.
pub fn number(n: u64) -> (r: Result<Value, EncodeError>)
    ensures
        match r {
            Ok(v) => n <= i64::MAX && v@ == number_value(n),
            Err(_) => n > i64::MAX,
        },
{
    if n > i64::MAX as u64 {
        Err(EncodeError::NumberTooLarge)
    } else {
        Ok(Value::Int64(n as i64))
    }
}

/// The value of an amount.
pub fn amount(n: u128) -> (v: Value)
    ensures
        v@ == amount_value(n),
{
    Value::Text(format_amount(n))
}

} // verus!
