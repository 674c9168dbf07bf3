//! The values of the JSON library, read through its own accessors.

use vstd::prelude::*;
use crate::document::{array_view, entry_views_of, object_view, views_of};
use crate::document::{Document, DocumentView, Number};

verus! {

/// A value of the JSON library.
#[verifier::external_type_specification]
#[verifier::external_body]
pub struct ExJsonValue(serde_json::Value);

/// The document that a value of the JSON library holds. An object gives its
/// entries in the order in which the library's map hands them out.
pub uninterp spec fn json_model(v: serde_json::Value) -> DocumentView;

/// The document that a text is parsed to by the JSON library, if the text
/// is well-formed.
pub uninterp spec fn parsed_document(text: Seq<char>) -> Option<DocumentView>;

/// The bits of the double nearest to an integer between the least 64-bit
/// signed and the greatest 64-bit unsigned integer, as the JSON library
/// converts it.
pub uninterp spec fn double_of_integer(v: int) -> u64;

/// `serde_json::from_str`: parses a text. The outcome depends on the text
/// alone, and a value that is parsed holds a well-formed document.
#[verifier::external_body]
pub(crate) fn json_from_str(text: &str) -> (r: Option<serde_json::Value>)
    ensures
        match r {
            Some(v) => parsed_document(text@) == Some(json_model(v)) && json_model(
                v,
            ).well_formed(),
            None => parsed_document(text@) is None,
        },
{
    serde_json::from_str(text).ok()
}

/// `Value::as_bool`: the boolean of a boolean value, nothing for any other.
#[verifier::external_body]
pub(crate) fn json_as_bool(v: &serde_json::Value) -> (r: Option<bool>)
    ensures
        r == match json_model(*v) {
            DocumentView::Bool(b) => Some(b),
            _ => None,
        },
{
    v.as_bool()
}

/// `Value::as_u64`: the integer of a number that is a non-negative integer,
/// nothing for any other value.
#[verifier::external_body]
pub(crate) fn json_as_u64(v: &serde_json::Value) -> (r: Option<u64>)
    ensures
        r == match json_model(*v) {
            DocumentView::Number(Number::PosInt(u)) => Some(u),
            _ => None,
        },
{
    v.as_u64()
}

/// `Value::as_i64`: the integer of a number that is an integer of the
/// 64-bit signed range, nothing for any other value.
#[verifier::external_body]
pub(crate) fn json_as_i64(v: &serde_json::Value) -> (r: Option<i64>)
    ensures
        r == match json_model(*v) {
            DocumentView::Number(Number::PosInt(u)) => if u <= i64::MAX {
                Some(u as i64)
            } else {
                None
            },
            DocumentView::Number(Number::NegInt(i)) => Some(i),
            _ => None,
        },
{
    v.as_i64()
}

/// `Value::as_f64`, with the double taken by its bits: a float as it is, an
/// integer as the nearest double, nothing for a value that is no number.
#[verifier::external_body]
pub(crate) fn json_as_double(v: &serde_json::Value) -> (r: Option<u64>)
    ensures
        r == match json_model(*v) {
            DocumentView::Number(Number::Float(bits)) => Some(bits),
            DocumentView::Number(Number::PosInt(u)) => Some(double_of_integer(u as int)),
            DocumentView::Number(Number::NegInt(i)) => Some(double_of_integer(i as int)),
            _ => None,
        },
{
    v.as_f64().map(|x| x.to_bits())
}

/// `Value::as_str`: the text of a string value, nothing for any other.
#[verifier::external_body]
pub(crate) fn json_as_str(v: &serde_json::Value) -> (r: Option<&str>)
    ensures
        match r {
            Some(s) => json_model(*v) == DocumentView::String(s@),
            None => !(json_model(*v) is String),
        },
{
    v.as_str()
}

/// `Value::as_array`: the items of an array value, nothing for any other.
#[verifier::external_body]
pub(crate) fn json_as_array(v: &serde_json::Value) -> (r: Option<&Vec<serde_json::Value>>)
    ensures
        match r {
            Some(items) => {
                &&& json_model(*v) is Array
                &&& json_model(*v)->Array_0.len() == items@.len()
                &&& forall|i: int|
                    0 <= i < items@.len() ==> json_model(#[trigger] items@[i]) == json_model(
                        *v,
                    )->Array_0[i]
            },
            None => !(json_model(*v) is Array),
        },
{
    v.as_array()
}

/// `Value::as_object` and `Map::iter`: the entries of an object value in the
/// order of the map, nothing for any other value.
#[verifier::external_body]
pub(crate) fn json_entries(v: &serde_json::Value) -> (r: Option<Vec<(&String, &serde_json::Value)>>)
    ensures
        match r {
            Some(entries) => {
                &&& json_model(*v) is Object
                &&& json_model(*v)->Object_0.len() == entries@.len()
                &&& forall|i: int|
                    0 <= i < entries@.len() ==> (#[trigger] entries@[i]).0@ == json_model(
                        *v,
                    )->Object_0[i].0 && json_model(*entries@[i].1) == json_model(
                        *v,
                    )->Object_0[i].1
            },
            None => !(json_model(*v) is Object),
        },
{
    v.as_object().map(|map| map.iter().collect())
}

/// `Value::from` for an unsigned integer: the number of that integer.
#[verifier::external_body]
pub(crate) fn json_from_u64(u: u64) -> (r: serde_json::Value)
    ensures
        json_model(r) == DocumentView::Number(Number::PosInt(u)),
{
    serde_json::Value::from(u)
}

/// `Value::from` for a signed integer: the number of that integer.
#[verifier::external_body]
pub(crate) fn json_from_i64(i: i64) -> (r: serde_json::Value)
    ensures
        json_model(r) == DocumentView::Number(Number::of_signed(i as int)),
{
    serde_json::Value::from(i)
}

/// The document that a value of the JSON library holds, built part by part.
pub fn document_of_json(v: &serde_json::Value) -> (d: Document)
    ensures
        d@ == json_model(*v),
    decreases json_model(*v),
{
    if let Some(b) = json_as_bool(v) {
        return Document::Bool(b);
    }
    if let Some(s) = json_as_str(v) {
        return Document::String(String::from_str(s));
    }
    if let Some(u) = json_as_u64(v) {
        return Document::Number(Number::PosInt(u));
    }
    if let Some(i) = json_as_i64(v) {
        return Document::Number(Number::NegInt(i));
    }
    if let Some(bits) = json_as_double(v) {
        return Document::Number(Number::Float(bits));
    }
    if let Some(items) = json_as_array(v) {
        let mut documents: Vec<Document> = Vec::new();
        let mut i: usize = 0;
        while i < items.len()
            invariant
                0 <= i <= items@.len(),
                documents@.len() == i,
                json_model(*v) is Array,
                json_model(*v)->Array_0.len() == items@.len(),
                forall|j: int|
                    0 <= j < items@.len() ==> json_model(#[trigger] items@[j]) == json_model(
                        *v,
                    )->Array_0[j],
                forall|j: int| 0 <= j < i ==> (#[trigger] documents@[j])@ == json_model(items@[j]),
            decreases items@.len() - i,
        {
            documents.push(document_of_json(&items[i]));
            i += 1;
        }
        proof {
            array_view(documents);
            assert(views_of(documents@) =~= json_model(*v)->Array_0);
        }
        return Document::Array(documents);
    }
    if let Some(entries) = json_entries(v) {
        let mut documents: Vec<(String, Document)> = Vec::new();
        let mut i: usize = 0;
        while i < entries.len()
            invariant
                0 <= i <= entries@.len(),
                documents@.len() == i,
                json_model(*v) is Object,
                json_model(*v)->Object_0.len() == entries@.len(),
                forall|j: int|
                    0 <= j < entries@.len() ==> (#[trigger] entries@[j]).0@ == json_model(
                        *v,
                    )->Object_0[j].0 && json_model(*entries@[j].1) == json_model(
                        *v,
                    )->Object_0[j].1,
                forall|j: int|
                    0 <= j < i ==> (#[trigger] documents@[j]).0@ == entries@[j].0@
                        && documents@[j].1@ == json_model(*entries@[j].1),
            decreases entries@.len() - i,
        {
            let key: String = entries[i].0.clone();
            let value = document_of_json(entries[i].1);
            documents.push((key, value));
            i += 1;
        }
        proof {
            object_view(documents);
            assert(entry_views_of(documents@) =~= json_model(*v)->Object_0);
        }
        return Document::Object(documents);
    }
    Document::Null
}

} // verus!
