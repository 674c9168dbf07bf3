//! Decoding what the encoder produced gives the value back.

use vstd::prelude::*;
use crate::decode::{decode, decode_items, DecodeErrorView};
use crate::document::{finite_bits, DocumentView};
use crate::encode::{encode, encode_all, encode_list};
use crate::typed::{DeclaredTypeView, TypedValueView};

verus! {

/// A value is of a declared type, for the types whose values survive the
/// way through a document: booleans, the integers of every width, finite
/// doubles, characters, strings, and lists of these.
pub open spec fn conforms(v: TypedValueView, ty: DeclaredTypeView) -> bool
    decreases v,
{
    match (v, ty) {
        (TypedValueView::Bool(_), DeclaredTypeView::Bool) => true,
        (TypedValueView::S8(_), DeclaredTypeView::S8) => true,
        (TypedValueView::S16(_), DeclaredTypeView::S16) => true,
        (TypedValueView::S32(_), DeclaredTypeView::S32) => true,
        (TypedValueView::S64(_), DeclaredTypeView::S64) => true,
        (TypedValueView::U8(_), DeclaredTypeView::U8) => true,
        (TypedValueView::U16(_), DeclaredTypeView::U16) => true,
        (TypedValueView::U32(_), DeclaredTypeView::U32) => true,
        (TypedValueView::U64(_), DeclaredTypeView::U64) => true,
        (TypedValueView::Float64(bits), DeclaredTypeView::Float64) => finite_bits(bits),
        (TypedValueView::Char(_), DeclaredTypeView::Char) => true,
        (TypedValueView::String(_), DeclaredTypeView::String) => true,
        (TypedValueView::List(items), DeclaredTypeView::List(element)) => forall|i: int|
            0 <= i < items.len() ==> conforms(#[trigger] items[i], *element),
        _ => false,
    }
}

/// Round trip: a value that conforms to a declared type is what its own
/// encoding decodes to against that type.
pub proof fn decode_inverts_encode(v: TypedValueView, ty: DeclaredTypeView)
    requires
        conforms(v, ty),
    ensures
        decode(encode(v), ty) == Ok::<TypedValueView, DecodeErrorView>(v),
    decreases v,
{
    match (v, ty) {
        (TypedValueView::Char(c), DeclaredTypeView::Char) => {
            assert(seq![c].len() == 1);
            assert(seq![c][0] == c);
        },
        (TypedValueView::List(items), DeclaredTypeView::List(element)) => {
            encode_list(items);
            decode_items_inverts_encode(items, *element, items.len());
            assert(items.take(items.len() as int) =~= items);
        },
        _ => {},
    }
}

/// Round trip for the first `n` items of a list.
pub proof fn decode_items_inverts_encode(
    items: Seq<TypedValueView>,
    element: DeclaredTypeView,
    n: nat,
)
    requires
        n <= items.len(),
        forall|i: int| 0 <= i < items.len() ==> conforms(#[trigger] items[i], element),
    ensures
        decode_items(encode_all(items), element, n) == Ok::<
            Seq<TypedValueView>,
            DecodeErrorView,
        >(items.take(n as int)),
    decreases items, n,
{
    if n == 0 {
        assert(items.take(0) =~= Seq::empty());
    } else {
        decode_items_inverts_encode(items, element, (n - 1) as nat);
        decode_inverts_encode(items[n - 1], element);
        assert(items.take(n - 1).push(items[n - 1]) =~= items.take(n as int));
    }
}

} // verus!
