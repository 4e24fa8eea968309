//! The untyped structured document that events are stored as, with the
//! lookups that typed decoding is built from.

use vstd::prelude::*;
use vstd::utf8::{encode_utf8, encode_utf8_decode_utf8};

verus! {

/// One named entry of a document.
#[derive(Debug, PartialEq, Eq)]
pub struct Field {
    pub key: String,
    pub value: Value,
}

/// An untyped structured value.
///
/// A `Double` holds the IEEE-754 bit pattern of the number, so that values
/// are carried exactly. A `Document` keeps its entries in order; where a key
/// occurs twice the first entry is the one that is read. `Other` stands for
/// a value of a kind that no field of an event holds, such as a date or
/// binary data: it can sit in a field that is passed over, and is the wrong
/// type for every field that is read.
#[derive(Debug, PartialEq, Eq)]
pub enum Value {
    Null,
    Bool(bool),
    Int32(i32),
    Int64(i64),
    Double(u64),
    Text(String),
    ObjectId([u8; 12]),
    Array(Vec<Value>),
    Document(Vec<Field>),
    Other,
}

/// The entries of a document as a sequence of key and value.
pub type Entries = Seq<(Seq<char>, ValueView)>;

/// The mathematical form of a [`Value`].
pub ghost enum ValueView {
    Null,
    Bool(bool),
    Int32(i32),
    Int64(i64),
    Double(u64),
    Text(Seq<char>),
    ObjectId([u8; 12]),
    Array(Seq<ValueView>),
    Document(Entries),
    Other,
}

/// The mathematical form of `v`.
pub open spec fn value_view(v: Value) -> ValueView
    decreases v,
{
    match v {
        Value::Null => ValueView::Null,
        Value::Bool(b) => ValueView::Bool(b),
        Value::Int32(n) => ValueView::Int32(n),
        Value::Int64(n) => ValueView::Int64(n),
        Value::Double(bits) => ValueView::Double(bits),
        Value::Text(s) => ValueView::Text(s@),
        Value::ObjectId(id) => ValueView::ObjectId(id),
        Value::Other => ValueView::Other,
        Value::Array(items) => ValueView::Array(
            Seq::new(
                items@.len(),
                |i: int|
                    if 0 <= i < items@.len() {
                        value_view(items@[i])
                    } else {
                        ValueView::Null
                    },
            ),
        ),
        Value::Document(fields) => ValueView::Document(
            Seq::new(
                fields@.len(),
                |i: int|
                    if 0 <= i < fields@.len() {
                        (fields@[i].key@, value_view(fields@[i].value))
                    } else {
                        (Seq::empty(), ValueView::Null)
                    },
            ),
        ),
    }
}

impl View for Value {
    type V = ValueView;

    open spec fn view(&self) -> ValueView {
        value_view(*self)
    }
}

impl Clone for Value {
    fn clone(&self) -> (copy: Self)
        ensures
            copy@ == self@,
        decreases self,
    {
        match self {
            Value::Null => Value::Null,
            Value::Bool(b) => Value::Bool(*b),
            Value::Int32(n) => Value::Int32(*n),
            Value::Int64(n) => Value::Int64(*n),
            Value::Double(bits) => Value::Double(*bits),
            Value::Text(s) => Value::Text(s.clone()),
            Value::ObjectId(id) => Value::ObjectId(*id),
            Value::Other => Value::Other,
            Value::Array(items) => {
                let mut copies: Vec<Value> = Vec::new();
                let mut i: usize = 0;
                while i < items.len()
                    invariant
                        i <= items.len(),
                        copies@.len() == i,
                        *self == Value::Array(*items),
                        forall|j: int| 0 <= j < i ==> copies@[j]@ == items@[j]@,
                    decreases items.len() - i,
                {
                    assert(decreases_to!(*self => self->Array_0[i as int]));
                    copies.push(items[i].clone());
                    i += 1;
                }
                assert(Value::Array(copies)@->Array_0 =~= self@->Array_0);
                Value::Array(copies)
            },
            Value::Document(fields) => {
                let mut copies: Vec<Field> = Vec::new();
                let mut i: usize = 0;
                while i < fields.len()
                    invariant
                        i <= fields.len(),
                        copies@.len() == i,
                        *self == Value::Document(*fields),
                        forall|j: int|
                            0 <= j < i ==> copies@[j].key@ == fields@[j].key@ && copies@[j].value@
                                == fields@[j].value@,
                    decreases fields.len() - i,
                {
                    assert(decreases_to!(*self => self->Document_0[i as int].value));
                    copies.push(
                        Field { key: fields[i].key.clone(), value: fields[i].value.clone() },
                    );
                    i += 1;
                }
                assert(Value::Document(copies)@->Document_0 =~= self@->Document_0);
                Value::Document(copies)
            },
        }
    }
}

impl Clone for Field {
    fn clone(&self) -> (copy: Self)
        ensures
            copy.key@ == self.key@,
            copy.value@ == self.value@,
    {
        Field { key: self.key.clone(), value: self.value.clone() }
    }
}

/// The entries that a list of fields stands for.
pub open spec fn entries_of(fields: Seq<Field>) -> Entries {
    Seq::new(fields.len(), |i: int| (fields[i].key@, fields[i].value@))
}

/// The value stored under `key`: that of the first entry with this key.
pub open spec fn lookup(entries: Entries, key: Seq<char>) -> Option<ValueView>
    decreases entries.len(),
{
    if entries.len() == 0 {
        None
    } else if entries[0].0 == key {
        Some(entries[0].1)
    } else {
        lookup(entries.skip(1), key)
    }
}

/// A document's view holds exactly the entries of its fields.
pub proof fn lemma_document_view(fields: Vec<Field>)
    ensures
        Value::Document(fields)@ == ValueView::Document(entries_of(fields@)),
{
    let entries = Value::Document(fields)@->Document_0;
    assert(entries.len() == fields@.len());
    assert forall|i: int| 0 <= i < entries.len() implies entries[i] == entries_of(fields@)[i] by {}
    assert(entries =~= entries_of(fields@));
}

/// A lookup in two lists joined reads the first list, then the second.
pub proof fn lemma_lookup_concat(a: Entries, b: Entries, key: Seq<char>)
    ensures
        lookup(a + b, key) == if lookup(a, key) is Some {
            lookup(a, key)
        } else {
            lookup(b, key)
        },
    decreases a.len(),
{
    if a.len() == 0 {
        assert(a + b =~= b);
    } else {
        assert((a + b).skip(1) =~= a.skip(1) + b);
        lemma_lookup_concat(a.skip(1), b, key);
    }
}

/// A lookup in a single entry finds it exactly under its own key.
pub proof fn lemma_lookup_single(k: Seq<char>, v: ValueView, key: Seq<char>)
    ensures
        lookup(seq![(k, v)], key) == if k == key {
            Some(v)
        } else {
            None
        },
{
    reveal_with_fuel(lookup, 2);
    assert(seq![(k, v)][0] == (k, v));
    assert(seq![(k, v)].skip(1).len() == 0);
}

/// An entry under another key does not change what is stored under `key`:
/// fields that a reader does not ask for are passed over.
pub proof fn law_other_entries_are_passed_over(
    entries: Entries,
    k: Seq<char>,
    v: ValueView,
    key: Seq<char>,
)
    requires
        k != key,
    ensures
        lookup(entries.push((k, v)), key) == lookup(entries, key),
        lookup(seq![(k, v)] + entries, key) == lookup(entries, key),
{
    lemma_lookup_concat(entries, seq![(k, v)], key);
    lemma_lookup_concat(seq![(k, v)], entries, key);
    lemma_lookup_single(k, v, key);
    assert(entries + seq![(k, v)] =~= entries.push((k, v)));
}

/// Whether two strings hold the same characters.
pub fn same_text(a: &str, b: &str) -> (same: bool)
    ensures
        same == (a@ == b@),
{
    let x = a.as_bytes();
    let y = b.as_bytes();
    proof {
        encode_utf8_decode_utf8(a@);
        encode_utf8_decode_utf8(b@);
    }
    if x.len() != y.len() {
        return false;
    }
    let mut i: usize = 0;
    while i < x.len()
        invariant
            i <= x.len(),
            x.len() == y.len(),
            x@ == encode_utf8(a@),
            y@ == encode_utf8(b@),
            forall|j: int| 0 <= j < i ==> x@[j] == y@[j],
        decreases x.len() - i,
    {
        if x[i] != y[i] {
            return false;
        }
        i += 1;
    }
    assert(x@ =~= y@);
    true
}

/// The value that a list of fields stores under `key`.
pub fn find<'a>(fields: &'a Vec<Field>, key: &str) -> (found: Option<&'a Value>)
    ensures
        match found {
            Some(v) => lookup(entries_of(fields@), key@) == Some(v@),
            None => lookup(entries_of(fields@), key@) is None,
        },
{
    let ghost entries = entries_of(fields@);
    let mut i: usize = 0;
    assert(entries.skip(0) =~= entries);
    while i < fields.len()
        invariant
            i <= fields.len(),
            entries == entries_of(fields@),
            lookup(entries, key@) == lookup(entries.skip(i as int), key@),
        decreases fields.len() - i,
    {
        if same_text(fields[i].key.as_str(), key) {
            return Some(&fields[i].value);
        }
        assert(entries.skip(i as int).skip(1) =~= entries.skip(i as int + 1));
        i += 1;
    }
    None
}

} // verus!
