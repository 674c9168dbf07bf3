//! The decoder: the conversion of a document into a typed value, directed
//! by the declared type.

use vstd::prelude::*;
use crate::document::{get_entry, lookup, entry_views_of, views_of, array_view, object_view};
use crate::document::{Document, DocumentView, Number, Shape};
use crate::json::{double_of_integer, json_as_double, json_from_i64, json_from_u64};
use crate::typed::{field_value_views_of, field_views_of, list_view, record_type_view, record_view};
use crate::typed::{value_views_of, DeclaredType, DeclaredTypeView, TypeTag, TypedValue};
use crate::typed::{has_type, TypedValueView};

verus! {

/// Why a document could not be decoded.
#[derive(Debug, PartialEq)]
pub enum DecodeError {
    /// The document has a shape that the declared type does not take.
    TypeMismatch { expected: TypeTag, got: Shape },
    /// The number is not an integer of the declared width and signedness.
    RangeOverflow { value: Number, target_width: u8 },
    /// The object has no entry for a field of the declared record.
    MissingField { name: String },
    /// The value of a record field could not be decoded.
    InField { name: String, cause: Box<DecodeError> },
}

/// What a [`DecodeError`] is, as a mathematical value.
pub enum DecodeErrorView {
    TypeMismatch { expected: TypeTag, got: Shape },
    RangeOverflow { value: Number, target_width: u8 },
    MissingField { name: Seq<char> },
    InField { name: Seq<char>, cause: Box<DecodeErrorView> },
}

impl DecodeError {
    /// What this error is, as a mathematical value.
    pub open spec fn model(&self) -> DecodeErrorView
        decreases self,
    {
        match self {
            DecodeError::TypeMismatch { expected, got } => DecodeErrorView::TypeMismatch {
                expected: *expected,
                got: *got,
            },
            DecodeError::RangeOverflow { value, target_width } => DecodeErrorView::RangeOverflow {
                value: *value,
                target_width: *target_width,
            },
            DecodeError::MissingField { name } => DecodeErrorView::MissingField { name: name@ },
            DecodeError::InField { name, cause } => DecodeErrorView::InField {
                name: name@,
                cause: Box::new(cause.model()),
            },
        }
    }
}

/// The words for the width of an integer type.
pub open spec fn width_word(width: u8) -> Seq<char> {
    if width == 8 {
        "an 8-bit"@
    } else if width == 16 {
        "a 16-bit"@
    } else if width == 32 {
        "a 32-bit"@
    } else if width == 64 {
        "a 64-bit"@
    } else {
        "an"@
    }
}

/// The words for the width of an integer type, as text.
fn width_name(width: u8) -> (text: &'static str)
    ensures
        text@ == width_word(width),
{
    if width == 8 {
        "an 8-bit"
    } else if width == 16 {
        "a 16-bit"
    } else if width == 32 {
        "a 32-bit"
    } else if width == 64 {
        "a 64-bit"
    } else {
        "an"
    }
}

impl DecodeErrorView {
    /// The message of this error. A string of another length than one
    /// against a character says so in its own words; an error inside a
    /// record field stands behind the name of the field.
    pub open spec fn message(self) -> Seq<char>
        decreases self,
    {
        match self {
            DecodeErrorView::TypeMismatch { expected, got } => if expected == TypeTag::Char && got
                == Shape::String {
                "expected single character string"@
            } else {
                "expected "@ + expected.word() + ", got "@ + got.word()
            },
            DecodeErrorView::RangeOverflow { value, target_width } => "number out of range for "@
                + width_word(target_width) + " integer"@,
            DecodeErrorView::MissingField { name } => "Field "@ + name + " not found"@,
            DecodeErrorView::InField { name, cause } => "bad field "@ + name + ": "@
                + cause.message(),
        }
    }
}

impl DecodeError {
    /// The message of this error, as text.
    pub fn to_string(&self) -> (text: String)
        ensures
            text@ == self@.message(),
        decreases self,
    {
        match self {
            DecodeError::TypeMismatch { expected, got } => {
                if matches!(expected, TypeTag::Char) && matches!(got, Shape::String) {
                    String::from_str("expected single character string")
                } else {
                    String::from_str("expected ").concat(expected.name()).concat(", got ").concat(
                        got.name(),
                    )
                }
            },
            DecodeError::RangeOverflow { value, target_width } => String::from_str(
                "number out of range for ",
            ).concat(width_name(*target_width)).concat(" integer"),
            DecodeError::MissingField { name } => String::from_str("Field ").concat(
                name.as_str(),
            ).concat(" not found"),
            DecodeError::InField { name, cause } => {
                let inner = cause.to_string();
                String::from_str("bad field ").concat(name.as_str()).concat(": ").concat(
                    inner.as_str(),
                )
            },
        }
    }
}

impl View for DecodeError {
    type V = DecodeErrorView;

    open spec fn view(&self) -> DecodeErrorView {
        self.model()
    }
}

/// The integer `n` denotes, if it is one between `low` and `high`.
pub open spec fn integer_within(n: Number, low: int, high: int) -> Option<int> {
    match n.integer() {
        Some(v) => if low <= v <= high {
            Some(v)
        } else {
            None
        },
        None => None,
    }
}

/// The bits of the double that a number is decoded to: its own bits when it
/// is written as a float, those of the nearest double when it is an integer.
pub open spec fn double_bits(n: Number) -> u64 {
    match n {
        Number::Float(bits) => bits,
        Number::PosInt(u) => double_of_integer(u as int),
        Number::NegInt(i) => double_of_integer(i as int),
    }
}

/// The error for a document whose shape the declared type does not take.
pub open spec fn mismatch(ty: DeclaredTypeView, doc: DocumentView) -> DecodeErrorView {
    DecodeErrorView::TypeMismatch { expected: ty.tag(), got: doc.shape() }
}

/// The error for a number outside the declared integer type.
pub open spec fn overflow(n: Number, width: u8) -> DecodeErrorView {
    DecodeErrorView::RangeOverflow { value: n, target_width: width }
}

/// What a numeric document decodes to against a numeric type: an integer of
/// the declared width and signedness when the number is one, a double for
/// either float width, and a range overflow otherwise. A number that is no
/// integer, and a negative one against an unsigned type, overflow the range
/// like an integer that is too large.
pub open spec fn decode_number(n: Number, ty: DeclaredTypeView) -> Result<
    TypedValueView,
    DecodeErrorView,
>
    recommends
        numeric(ty),
{
    match ty {
        DeclaredTypeView::S8 => match integer_within(n, -0x80, 0x7f) {
            Some(v) => Ok(TypedValueView::S8(v as i8)),
            None => Err(overflow(n, 8)),
        },
        DeclaredTypeView::S16 => match integer_within(n, -0x8000, 0x7fff) {
            Some(v) => Ok(TypedValueView::S16(v as i16)),
            None => Err(overflow(n, 16)),
        },
        DeclaredTypeView::S32 => match integer_within(n, -0x8000_0000, 0x7fff_ffff) {
            Some(v) => Ok(TypedValueView::S32(v as i32)),
            None => Err(overflow(n, 32)),
        },
        DeclaredTypeView::S64 => match integer_within(
            n,
            -0x8000_0000_0000_0000,
            0x7fff_ffff_ffff_ffff,
        ) {
            Some(v) => Ok(TypedValueView::S64(v as i64)),
            None => Err(overflow(n, 64)),
        },
        DeclaredTypeView::U8 => match integer_within(n, 0, 0xff) {
            Some(v) => Ok(TypedValueView::U8(v as u8)),
            None => Err(overflow(n, 8)),
        },
        DeclaredTypeView::U16 => match integer_within(n, 0, 0xffff) {
            Some(v) => Ok(TypedValueView::U16(v as u16)),
            None => Err(overflow(n, 16)),
        },
        DeclaredTypeView::U32 => match integer_within(n, 0, 0xffff_ffff) {
            Some(v) => Ok(TypedValueView::U32(v as u32)),
            None => Err(overflow(n, 32)),
        },
        DeclaredTypeView::U64 => match integer_within(n, 0, 0xffff_ffff_ffff_ffff) {
            Some(v) => Ok(TypedValueView::U64(v as u64)),
            None => Err(overflow(n, 64)),
        },
        DeclaredTypeView::Float32 => Ok(TypedValueView::Float32(double_bits(n))),
        _ => Ok(TypedValueView::Float64(double_bits(n))),
    }
}

/// The integer and float types.
pub open spec fn numeric(ty: DeclaredTypeView) -> bool {
    match ty {
        DeclaredTypeView::S8
        | DeclaredTypeView::S16
        | DeclaredTypeView::S32
        | DeclaredTypeView::S64
        | DeclaredTypeView::U8
        | DeclaredTypeView::U16
        | DeclaredTypeView::U32
        | DeclaredTypeView::U64
        | DeclaredTypeView::Float32
        | DeclaredTypeView::Float64 => true,
        _ => false,
    }
}

/// What a document decodes to against a declared type.
///
/// A boolean takes a boolean; a numeric type takes a number (see
/// [`decode_number`]); a character takes a string of exactly one character;
/// a string takes a string; a list takes an array, element by element; a
/// record takes an object, field by field in declared order, each field
/// found by its exact name while other keys are passed over. Every other
/// pairing is a type mismatch.
pub open spec fn decode(doc: DocumentView, ty: DeclaredTypeView) -> Result<
    TypedValueView,
    DecodeErrorView,
>
    decreases ty, 0nat, 0nat,
{
    match ty {
        DeclaredTypeView::Bool => match doc {
            DocumentView::Bool(b) => Ok(TypedValueView::Bool(b)),
            _ => Err(mismatch(ty, doc)),
        },
        DeclaredTypeView::Char => match doc {
            DocumentView::String(s) => if s.len() == 1 {
                Ok(TypedValueView::Char(s[0]))
            } else {
                Err(mismatch(ty, doc))
            },
            _ => Err(mismatch(ty, doc)),
        },
        DeclaredTypeView::String => match doc {
            DocumentView::String(s) => Ok(TypedValueView::String(s)),
            _ => Err(mismatch(ty, doc)),
        },
        DeclaredTypeView::List(element) => match doc {
            DocumentView::Array(items) => match decode_items(items, *element, items.len()) {
                Ok(values) => Ok(TypedValueView::List(values)),
                Err(e) => Err(e),
            },
            _ => Err(mismatch(ty, doc)),
        },
        DeclaredTypeView::Record(fields) => match doc {
            DocumentView::Object(entries) => match decode_fields(entries, fields, fields.len()) {
                Ok(values) => Ok(TypedValueView::Record(values)),
                Err(e) => Err(e),
            },
            _ => Err(mismatch(ty, doc)),
        },
        DeclaredTypeView::Other => Err(mismatch(ty, doc)),
        _ => match doc {
            DocumentView::Number(n) => decode_number(n, ty),
            _ => Err(mismatch(ty, doc)),
        },
    }
}

/// What the first `n` items of an array decode to against the element type:
/// the values in order, or the error of the first item that fails.
pub open spec fn decode_items(items: Seq<DocumentView>, element: DeclaredTypeView, n: nat) -> Result<
    Seq<TypedValueView>,
    DecodeErrorView,
>
    decreases element, 1nat, n,
{
    if n == 0 || n > items.len() {
        Ok(Seq::empty())
    } else {
        match decode_items(items, element, (n - 1) as nat) {
            Err(e) => Err(e),
            Ok(values) => match decode(items[n - 1], element) {
                Err(e) => Err(e),
                Ok(v) => Ok(values.push(v)),
            },
        }
    }
}

/// What an object decodes to against the first `n` fields of a record type:
/// the named values in declared order, or the error of the first field that
/// is missing or whose value fails.
pub open spec fn decode_fields(
    entries: Seq<(Seq<char>, DocumentView)>,
    fields: Seq<(Seq<char>, DeclaredTypeView)>,
    n: nat,
) -> Result<Seq<(Seq<char>, TypedValueView)>, DecodeErrorView>
    decreases fields, 1nat, n,
{
    if n == 0 || n > fields.len() {
        Ok(Seq::empty())
    } else {
        match decode_fields(entries, fields, (n - 1) as nat) {
            Err(e) => Err(e),
            Ok(values) => {
                let name = fields[n - 1].0;
                match lookup(entries, name) {
                    None => Err(DecodeErrorView::MissingField { name }),
                    Some(doc) => match decode(doc, fields[n - 1].1) {
                        Err(e) => Err(DecodeErrorView::InField { name, cause: Box::new(e) }),
                        Ok(v) => Ok(values.push((name, v))),
                    },
                }
            },
        }
    }
}

/// Computes [`double_bits`]: an integer goes through the JSON library, which
/// makes a number of it and reads that number as a double.
fn number_to_double(n: Number) -> (bits: u64)
    ensures
        bits == double_bits(n),
{
    let converted: Option<u64> = match n {
        Number::Float(bits) => Some(bits),
        Number::PosInt(u) => json_as_double(&json_from_u64(u)),
        Number::NegInt(i) => json_as_double(&json_from_i64(i)),
    };
    match converted {
        Some(bits) => bits,
        None => vstd::pervasive::unreached(),
    }
}

/// Decodes a number against a signed integer type of the given width.
fn signed_within(n: Number, low: i64, high: i64) -> (r: Option<i64>)
    ensures
        match r {
            Some(v) => integer_within(n, low as int, high as int) == Some(v as int),
            None => integer_within(n, low as int, high as int) is None,
        },
{
    match n.as_signed() {
        Some(v) => if low <= v && v <= high {
            Some(v)
        } else {
            None
        },
        None => None,
    }
}

/// Decodes a number against an unsigned integer type of the given width.
fn unsigned_within(n: Number, high: u64) -> (r: Option<u64>)
    ensures
        match r {
            Some(v) => integer_within(n, 0, high as int) == Some(v as int),
            None => integer_within(n, 0, high as int) is None,
        },
{
    match n.as_unsigned() {
        Some(v) => if v <= high {
            Some(v)
        } else {
            None
        },
        None => None,
    }
}

/// Decodes a numeric document against a numeric type.
fn decode_numeric(n: Number, expect_type: &DeclaredType) -> (r: Result<TypedValue, DecodeError>)
    requires
        numeric(expect_type@),
    ensures
        match r {
            Ok(v) => decode_number(n, expect_type@) == Ok::<TypedValueView, DecodeErrorView>(v@),
            Err(e) => decode_number(n, expect_type@) == Err::<TypedValueView, DecodeErrorView>(
                e@,
            ),
        },
{
    match expect_type {
        DeclaredType::S8 => match signed_within(n, -0x80, 0x7f) {
            Some(v) => Ok(TypedValue::S8(v as i8)),
            None => Err(DecodeError::RangeOverflow { value: n, target_width: 8 }),
        },
        DeclaredType::S16 => match signed_within(n, -0x8000, 0x7fff) {
            Some(v) => Ok(TypedValue::S16(v as i16)),
            None => Err(DecodeError::RangeOverflow { value: n, target_width: 16 }),
        },
        DeclaredType::S32 => match signed_within(n, -0x8000_0000, 0x7fff_ffff) {
            Some(v) => Ok(TypedValue::S32(v as i32)),
            None => Err(DecodeError::RangeOverflow { value: n, target_width: 32 }),
        },
        DeclaredType::S64 => match signed_within(n, i64::MIN, i64::MAX) {
            Some(v) => Ok(TypedValue::S64(v)),
            None => Err(DecodeError::RangeOverflow { value: n, target_width: 64 }),
        },
        DeclaredType::U8 => match unsigned_within(n, 0xff) {
            Some(v) => Ok(TypedValue::U8(v as u8)),
            None => Err(DecodeError::RangeOverflow { value: n, target_width: 8 }),
        },
        DeclaredType::U16 => match unsigned_within(n, 0xffff) {
            Some(v) => Ok(TypedValue::U16(v as u16)),
            None => Err(DecodeError::RangeOverflow { value: n, target_width: 16 }),
        },
        DeclaredType::U32 => match unsigned_within(n, 0xffff_ffff) {
            Some(v) => Ok(TypedValue::U32(v as u32)),
            None => Err(DecodeError::RangeOverflow { value: n, target_width: 32 }),
        },
        DeclaredType::U64 => match unsigned_within(n, u64::MAX) {
            Some(v) => Ok(TypedValue::U64(v)),
            None => Err(DecodeError::RangeOverflow { value: n, target_width: 64 }),
        },
        DeclaredType::Float32 => Ok(TypedValue::Float32(number_to_double(n))),
        _ => Ok(TypedValue::Float64(number_to_double(n))),
    }
}

/// Decodes a document against a declared type, leaving the document in
/// place.
pub fn decode_document(value: &Document, expect_type: &DeclaredType) -> (r: Result<
    TypedValue,
    DecodeError,
>)
    ensures
        match r {
            Ok(v) => decode(value@, expect_type@) == Ok::<TypedValueView, DecodeErrorView>(v@),
            Err(e) => decode(value@, expect_type@) == Err::<TypedValueView, DecodeErrorView>(e@),
        },
        r matches Ok(v) ==> has_type(v@, expect_type@),
    decreases expect_type,
{
    proof {
        if decode(value@, expect_type@) is Ok {
            decoded_value_has_type(value@, expect_type@);
        }
    }
    match expect_type {
        DeclaredType::Bool => match value {
            Document::Bool(b) => Ok(TypedValue::Bool(*b)),
            _ => Err(DecodeError::TypeMismatch { expected: TypeTag::Bool, got: value.shape() }),
        },
        DeclaredType::Char => match value {
            Document::String(s) => {
                if s.as_str().unicode_len() == 1 {
                    Ok(TypedValue::Char(s.as_str().get_char(0)))
                } else {
                    Err(DecodeError::TypeMismatch { expected: TypeTag::Char, got: Shape::String })
                }
            },
            _ => Err(DecodeError::TypeMismatch { expected: TypeTag::Char, got: value.shape() }),
        },
        DeclaredType::String => match value {
            Document::String(s) => Ok(TypedValue::String(s.clone())),
            _ => Err(DecodeError::TypeMismatch { expected: TypeTag::String, got: value.shape() }),
        },
        DeclaredType::List(element) => match value {
            Document::Array(items) => {
                let mut values: Vec<TypedValue> = Vec::new();
                let mut i: usize = 0;
                proof {
                    array_view(*items);
                    assert(value_views_of(values@) =~= Seq::empty());
                }
                while i < items.len()
                    invariant
                        0 <= i <= items.len(),
                        decode_items(views_of(items@), element@, i as nat) == Ok::<
                            Seq<TypedValueView>,
                            DecodeErrorView,
                        >(value_views_of(values@)),
                        value@ == DocumentView::Array(views_of(items@)),
                        expect_type@ == DeclaredTypeView::List(Box::new(element@)),
                        decreases_to!(expect_type => element),
                    decreases items.len() - i,
                {
                    match decode_document(&items[i], element) {
                        Ok(v) => {
                            proof {
                                assert(value_views_of(values@).push(v@) =~= value_views_of(
                                    values@.push(v),
                                ));
                            }
                            values.push(v);
                        },
                        Err(e) => {
                            proof {
                                decode_items_fails_on(
                                    views_of(items@),
                                    element@,
                                    (i + 1) as nat,
                                    items.len() as nat,
                                );
                            }
                            return Err(e);
                        },
                    }
                    i += 1;
                }
                proof {
                    list_view(values);
                }
                Ok(TypedValue::List(values))
            },
            _ => Err(DecodeError::TypeMismatch { expected: TypeTag::List, got: value.shape() }),
        },
        DeclaredType::Record(fields) => match value {
            Document::Object(entries) => {
                let mut values: Vec<(String, TypedValue)> = Vec::new();
                let mut i: usize = 0;
                proof {
                    object_view(*entries);
                    record_type_view(*fields);
                    assert(field_value_views_of(values@) =~= Seq::empty());
                }
                while i < fields.len()
                    invariant
                        0 <= i <= fields.len(),
                        decode_fields(
                            entry_views_of(entries@),
                            field_views_of(fields@),
                            i as nat,
                        ) == Ok::<Seq<(Seq<char>, TypedValueView)>, DecodeErrorView>(
                            field_value_views_of(values@),
                        ),
                        value@ == DocumentView::Object(entry_views_of(entries@)),
                        expect_type@ == DeclaredTypeView::Record(field_views_of(fields@)),
                        decreases_to!(expect_type => fields),
                    decreases fields.len() - i,
                {
                    let name: &String = &fields[i].0;
                    match get_entry(entries, name) {
                        None => {
                            proof {
                                decode_fields_fails_on(
                                    entry_views_of(entries@),
                                    field_views_of(fields@),
                                    (i + 1) as nat,
                                    fields.len() as nat,
                                );
                            }
                            return Err(DecodeError::MissingField { name: name.clone() });
                        },
                        Some(entry) => match decode_document(entry, &fields[i].1) {
                            Ok(v) => {
                                let owned: String = name.clone();
                                proof {
                                    assert(field_value_views_of(values@).push((owned@, v@))
                                        =~= field_value_views_of(values@.push((owned, v))));
                                }
                                values.push((owned, v));
                            },
                            Err(e) => {
                                proof {
                                    decode_fields_fails_on(
                                        entry_views_of(entries@),
                                        field_views_of(fields@),
                                        (i + 1) as nat,
                                        fields.len() as nat,
                                    );
                                }
                                return Err(
                                    DecodeError::InField { name: name.clone(), cause: Box::new(e) },
                                );
                            },
                        },
                    }
                    i += 1;
                }
                proof {
                    record_view(values);
                }
                Ok(TypedValue::Record(values))
            },
            _ => Err(DecodeError::TypeMismatch { expected: TypeTag::Record, got: value.shape() }),
        },
        DeclaredType::Other => Err(
            DecodeError::TypeMismatch { expected: TypeTag::Other, got: value.shape() },
        ),
        _ => match value {
            Document::Number(n) => decode_numeric(*n, expect_type),
            _ => Err(DecodeError::TypeMismatch { expected: expect_type.tag(), got: value.shape() }),
        },
    }
}

/// Converts a document into the typed value that the declared type asks for.
///
/// The result is exactly [`decode`] of the document and the type: the value
/// when every part of the document fits, and otherwise the error of the
/// first part, in document order of lists and declared order of fields,
/// that does not.
pub fn json_to_wasm_value(value: Document, expect_type: &DeclaredType) -> (r: Result<
    TypedValue,
    DecodeError,
>)
    ensures
        match r {
            Ok(v) => decode(value@, expect_type@) == Ok::<TypedValueView, DecodeErrorView>(v@),
            Err(e) => decode(value@, expect_type@) == Err::<TypedValueView, DecodeErrorView>(e@),
        },
        r matches Ok(v) ==> has_type(v@, expect_type@),
{
    decode_document(&value, expect_type)
}

/// Once a prefix of the items fails, every longer prefix fails the same way.
pub proof fn decode_items_fails_on(
    items: Seq<DocumentView>,
    element: DeclaredTypeView,
    n: nat,
    m: nat,
)
    requires
        decode_items(items, element, n) is Err,
        n <= m <= items.len(),
    ensures
        decode_items(items, element, m) == decode_items(items, element, n),
    decreases m,
{
    if n < m {
        decode_items_fails_on(items, element, n, (m - 1) as nat);
    }
}

/// Once a prefix of the fields fails, every longer prefix fails the same way.
pub proof fn decode_fields_fails_on(
    entries: Seq<(Seq<char>, DocumentView)>,
    fields: Seq<(Seq<char>, DeclaredTypeView)>,
    n: nat,
    m: nat,
)
    requires
        decode_fields(entries, fields, n) is Err,
        n <= m <= fields.len(),
    ensures
        decode_fields(entries, fields, m) == decode_fields(entries, fields, n),
    decreases m,
{
    if n < m {
        decode_fields_fails_on(entries, fields, n, (m - 1) as nat);
    }
}

/// Shape compatibility: a value that is decoded has the shape that the
/// declared type asks for.
pub proof fn decoded_value_has_type(doc: DocumentView, ty: DeclaredTypeView)
    requires
        decode(doc, ty) is Ok,
    ensures
        has_type(decode(doc, ty)->Ok_0, ty),
    decreases ty, 0nat, 0nat,
{
    match ty {
        DeclaredTypeView::List(element) => {
            let items = doc->Array_0;
            decoded_items_have_type(items, *element, items.len());
        },
        DeclaredTypeView::Record(fields) => {
            let entries = doc->Object_0;
            decoded_fields_have_type(entries, fields, fields.len());
        },
        _ => {},
    }
}

/// Shape compatibility for the first `n` items of an array.
pub proof fn decoded_items_have_type(items: Seq<DocumentView>, element: DeclaredTypeView, n: nat)
    requires
        n <= items.len(),
        decode_items(items, element, n) is Ok,
    ensures
        decode_items(items, element, n)->Ok_0.len() == n,
        forall|i: int|
            0 <= i < n ==> has_type(#[trigger] decode_items(items, element, n)->Ok_0[i], element),
    decreases element, 1nat, n,
{
    if n > 0 {
        decoded_items_have_type(items, element, (n - 1) as nat);
        decoded_value_has_type(items[n - 1], element);
    }
}

/// Shape compatibility for the first `n` fields of a record type.
pub proof fn decoded_fields_have_type(
    entries: Seq<(Seq<char>, DocumentView)>,
    fields: Seq<(Seq<char>, DeclaredTypeView)>,
    n: nat,
)
    requires
        n <= fields.len(),
        decode_fields(entries, fields, n) is Ok,
    ensures
        decode_fields(entries, fields, n)->Ok_0.len() == n,
        forall|i: int|
            0 <= i < n ==> (#[trigger] decode_fields(entries, fields, n)->Ok_0[i]).0
                == fields[i].0 && has_type(
                decode_fields(entries, fields, n)->Ok_0[i].1,
                fields[i].1,
            ),
    decreases fields, 1nat, n,
{
    if n > 0 {
        decoded_fields_have_type(entries, fields, (n - 1) as nat);
        decoded_value_has_type(lookup(entries, fields[n - 1].0)->Some_0, fields[n - 1].1);
    }
}

} // verus!
