//! The encoder: the projection of a typed value onto a document. It goes by
//! the value's own variant and never fails.

use vstd::prelude::*;
use crate::document::{array_view, finite_bits, is_finite_bits, views_of};
use crate::document::{Document, DocumentView, Number};
use crate::text::string_of_char;
use crate::typed::{list_view, value_views_of, TypedValue, TypedValueView};

verus! {

/// The text that the derived `Debug` formatting of a typed value produces.
pub uninterp spec fn debug_rendering(v: TypedValueView) -> Seq<char>;

/// The document of a float held by its bits: the float itself when it is
/// finite, and zero when it is an infinity or a NaN.
pub open spec fn encode_float(bits: u64) -> DocumentView {
    if finite_bits(bits) {
        DocumentView::Number(Number::Float(bits))
    } else {
        DocumentView::Number(Number::PosInt(0))
    }
}

/// The document with the single entry `key`.
pub open spec fn single_entry(key: Seq<char>, value: DocumentView) -> DocumentView {
    DocumentView::Object(seq![(key, value)])
}

/// What a typed value encodes to.
///
/// Booleans and strings stay as they are; an integer of any width becomes
/// the number of the same value; a float becomes a number, or zero when it
/// is not finite; a character becomes a string of that one character; a list
/// becomes the array of its encoded items; a result with a payload becomes
/// an object with the one key `ok` or `err`, and one without becomes the
/// string `_`; a record becomes the string of its diagnostic rendering, and
/// a value of any other kind the string it carries.
pub open spec fn encode(v: TypedValueView) -> DocumentView
    decreases v,
{
    match v {
        TypedValueView::Bool(b) => DocumentView::Bool(b),
        TypedValueView::S8(i) => DocumentView::Number(Number::of_signed(i as int)),
        TypedValueView::S16(i) => DocumentView::Number(Number::of_signed(i as int)),
        TypedValueView::S32(i) => DocumentView::Number(Number::of_signed(i as int)),
        TypedValueView::S64(i) => DocumentView::Number(Number::of_signed(i as int)),
        TypedValueView::U8(u) => DocumentView::Number(Number::PosInt(u as u64)),
        TypedValueView::U16(u) => DocumentView::Number(Number::PosInt(u as u64)),
        TypedValueView::U32(u) => DocumentView::Number(Number::PosInt(u as u64)),
        TypedValueView::U64(u) => DocumentView::Number(Number::PosInt(u)),
        TypedValueView::Float32(bits) => encode_float(bits),
        TypedValueView::Float64(bits) => encode_float(bits),
        TypedValueView::Char(c) => DocumentView::String(seq![c]),
        TypedValueView::String(s) => DocumentView::String(s),
        TypedValueView::List(items) => DocumentView::Array(
            Seq::new(
                items.len(),
                |i: int|
                    if 0 <= i < items.len() {
                        encode(items[i])
                    } else {
                        DocumentView::Null
                    },
            ),
        ),
        TypedValueView::Result(Ok(Some(payload))) => single_entry("ok"@, encode(*payload)),
        TypedValueView::Result(Ok(None)) => DocumentView::String("_"@),
        TypedValueView::Result(Err(Some(payload))) => single_entry("err"@, encode(*payload)),
        TypedValueView::Result(Err(None)) => DocumentView::String("_"@),
        TypedValueView::Record(_) => DocumentView::String(debug_rendering(v)),
        TypedValueView::Other(text) => DocumentView::String(text),
    }
}

/// The encodings of a sequence of values, in order.
pub open spec fn encode_all(items: Seq<TypedValueView>) -> Seq<DocumentView> {
    Seq::new(items.len(), |i: int| encode(items[i]))
}

/// A list encodes to the array of its encoded items.
pub proof fn encode_list(items: Seq<TypedValueView>)
    ensures
        encode(TypedValueView::List(items)) == DocumentView::Array(encode_all(items)),
{
    assert(encode(TypedValueView::List(items))->Array_0 =~= encode_all(items));
}

/// Every encoding is well-formed: its numbers are canonical and its objects
/// hold no key twice.
pub proof fn encode_is_well_formed(v: TypedValueView)
    ensures
        encode(v).well_formed(),
    decreases v,
{
    match v {
        TypedValueView::List(items) => {
            encode_list(items);
            assert forall|i: int| 0 <= i < encode_all(items).len() implies (
            #[trigger] encode_all(items)[i]).well_formed() by {
                encode_is_well_formed(items[i]);
            }
        },
        TypedValueView::Result(Ok(Some(payload))) => {
            encode_is_well_formed(*payload);
        },
        TypedValueView::Result(Err(Some(payload))) => {
            encode_is_well_formed(*payload);
        },
        _ => {},
    }
}

/// Formats a typed value with the `Debug` implementation that `derive`
/// wrote for it, through std's `format!`.
#[verifier::external_body]
fn render_debug(v: &TypedValue) -> (text: String)
    ensures
        text@ == debug_rendering(v@),
{
    format!("{:?}", v)
}

/// Builds the object with the single entry `key`.
fn single_entry_document(key: &str, value: Document) -> (d: Document)
    ensures
        d@ == single_entry(key@, value@),
{
    let mut entries: Vec<(String, Document)> = Vec::new();
    entries.push((String::from_str(key), value));
    let d = Document::Object(entries);
    proof {
        crate::document::object_view(entries);
        assert(d@->Object_0 =~= seq![(key@, value@)]);
    }
    d
}

/// Encodes a float held by its bits.
fn float_document(bits: u64) -> (d: Document)
    ensures
        d@ == encode_float(bits),
{
    if is_finite_bits(bits) {
        Document::Number(Number::Float(bits))
    } else {
        Document::Number(Number::PosInt(0))
    }
}

/// Projects a typed value onto a document. Every value has a document: the
/// result is exactly [`encode`] of the value.
pub fn wasm_value_to_json(val: &TypedValue) -> (d: Document)
    ensures
        d@ == encode(val@),
        d@.well_formed(),
    decreases val,
{
    proof {
        encode_is_well_formed(val@);
    }
    match val {
        TypedValue::Bool(b) => Document::Bool(*b),
        TypedValue::S8(i) => Document::Number(Number::from_signed(*i as i64)),
        TypedValue::S16(i) => Document::Number(Number::from_signed(*i as i64)),
        TypedValue::S32(i) => Document::Number(Number::from_signed(*i as i64)),
        TypedValue::S64(i) => Document::Number(Number::from_signed(*i)),
        TypedValue::U8(u) => Document::Number(Number::from_unsigned(*u as u64)),
        TypedValue::U16(u) => Document::Number(Number::from_unsigned(*u as u64)),
        TypedValue::U32(u) => Document::Number(Number::from_unsigned(*u as u64)),
        TypedValue::U64(u) => Document::Number(Number::from_unsigned(*u)),
        TypedValue::Float32(bits) => float_document(*bits),
        TypedValue::Float64(bits) => float_document(*bits),
        TypedValue::Char(c) => Document::String(string_of_char(*c)),
        TypedValue::String(s) => Document::String(s.clone()),
        TypedValue::List(items) => {
            let mut documents: Vec<Document> = Vec::new();
            let mut i: usize = 0;
            proof {
                list_view(*items);
                encode_list(value_views_of(items@));
            }
            while i < items.len()
                invariant
                    0 <= i <= items.len(),
                    documents@.len() == i,
                    forall|j: int|
                        0 <= j < i ==> (#[trigger] documents@[j])@ == encode(items@[j]@),
                    decreases_to!(val => items),
                decreases items.len() - i,
            {
                let d = wasm_value_to_json(&items[i]);
                documents.push(d);
                i += 1;
            }
            proof {
                array_view(documents);
                assert(views_of(documents@) =~= encode_all(value_views_of(items@)));
            }
            Document::Array(documents)
        },
        TypedValue::Result(Ok(Some(payload))) => single_entry_document(
            "ok",
            wasm_value_to_json(payload),
        ),
        TypedValue::Result(Ok(None)) => Document::String(String::from_str("_")),
        TypedValue::Result(Err(Some(payload))) => single_entry_document(
            "err",
            wasm_value_to_json(payload),
        ),
        TypedValue::Result(Err(None)) => Document::String(String::from_str("_")),
        TypedValue::Record(_) => Document::String(render_debug(val)),
        TypedValue::Other(text) => Document::String(text.clone()),
    }
}

} // verus!
