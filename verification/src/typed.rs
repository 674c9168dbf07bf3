//! The typed value model: the values of a component interface, and the
//! declared types that direct their decoding.

use vstd::prelude::*;

verus! {

/// The kind of a declared type, without what it is made of.
#[derive(Clone, Copy, Debug, PartialEq, Eq, Structural)]
pub enum TypeTag {
    Bool,
    S8,
    U8,
    S16,
    U16,
    S32,
    U32,
    S64,
    U64,
    Float32,
    Float64,
    Char,
    String,
    List,
    Record,
    Other,
}

impl TypeTag {
    /// The word for this kind of type.
    pub open spec fn word(self) -> Seq<char> {
        match self {
            TypeTag::Bool => "bool"@,
            TypeTag::S8 => "s8"@,
            TypeTag::U8 => "u8"@,
            TypeTag::S16 => "s16"@,
            TypeTag::U16 => "u16"@,
            TypeTag::S32 => "s32"@,
            TypeTag::U32 => "u32"@,
            TypeTag::S64 => "s64"@,
            TypeTag::U64 => "u64"@,
            TypeTag::Float32 => "float32"@,
            TypeTag::Float64 => "float64"@,
            TypeTag::Char => "char"@,
            TypeTag::String => "string"@,
            TypeTag::List => "list"@,
            TypeTag::Record => "record"@,
            TypeTag::Other => "a type that takes no document"@,
        }
    }

    /// The word for this kind of type, as text.
    pub fn name(&self) -> (text: &'static str)
        ensures
            text@ == self.word(),
    {
        match self {
            TypeTag::Bool => "bool",
            TypeTag::S8 => "s8",
            TypeTag::U8 => "u8",
            TypeTag::S16 => "s16",
            TypeTag::U16 => "u16",
            TypeTag::S32 => "s32",
            TypeTag::U32 => "u32",
            TypeTag::S64 => "s64",
            TypeTag::U64 => "u64",
            TypeTag::Float32 => "float32",
            TypeTag::Float64 => "float64",
            TypeTag::Char => "char",
            TypeTag::String => "string",
            TypeTag::List => "list",
            TypeTag::Record => "record",
            TypeTag::Other => "a type that takes no document",
        }
    }
}

/// The type a callee declares for a parameter or a result.
#[derive(Debug, PartialEq)]
pub enum DeclaredType {
    Bool,
    S8,
    U8,
    S16,
    U16,
    S32,
    U32,
    S64,
    U64,
    Float32,
    Float64,
    Char,
    String,
    /// A list, with the type of its elements.
    List(Box<DeclaredType>),
    /// A record, with its fields in their declared order.
    Record(Vec<(String, DeclaredType)>),
    /// Any type that no document is decoded into.
    Other,
}

/// What a [`DeclaredType`] is, as a mathematical value.
pub enum DeclaredTypeView {
    Bool,
    S8,
    U8,
    S16,
    U16,
    S32,
    U32,
    S64,
    U64,
    Float32,
    Float64,
    Char,
    String,
    List(Box<DeclaredTypeView>),
    Record(Seq<(Seq<char>, DeclaredTypeView)>),
    Other,
}

impl DeclaredType {
    /// What this type is, as a mathematical value.
    pub open spec fn model(&self) -> DeclaredTypeView
        decreases self,
    {
        match self {
            DeclaredType::Bool => DeclaredTypeView::Bool,
            DeclaredType::S8 => DeclaredTypeView::S8,
            DeclaredType::U8 => DeclaredTypeView::U8,
            DeclaredType::S16 => DeclaredTypeView::S16,
            DeclaredType::U16 => DeclaredTypeView::U16,
            DeclaredType::S32 => DeclaredTypeView::S32,
            DeclaredType::U32 => DeclaredTypeView::U32,
            DeclaredType::S64 => DeclaredTypeView::S64,
            DeclaredType::U64 => DeclaredTypeView::U64,
            DeclaredType::Float32 => DeclaredTypeView::Float32,
            DeclaredType::Float64 => DeclaredTypeView::Float64,
            DeclaredType::Char => DeclaredTypeView::Char,
            DeclaredType::String => DeclaredTypeView::String,
            DeclaredType::List(element) => DeclaredTypeView::List(Box::new(element.model())),
            DeclaredType::Record(fields) => DeclaredTypeView::Record(
                Seq::new(
                    fields@.len(),
                    |i: int|
                        if 0 <= i < fields@.len() {
                            (fields@[i].0@, fields@[i].1.model())
                        } else {
                            (Seq::empty(), DeclaredTypeView::Other)
                        },
                ),
            ),
            DeclaredType::Other => DeclaredTypeView::Other,
        }
    }

    /// The kind of this type.
    pub fn tag(&self) -> (t: TypeTag)
        ensures
            t == self@.tag(),
    {
        match self {
            DeclaredType::Bool => TypeTag::Bool,
            DeclaredType::S8 => TypeTag::S8,
            DeclaredType::U8 => TypeTag::U8,
            DeclaredType::S16 => TypeTag::S16,
            DeclaredType::U16 => TypeTag::U16,
            DeclaredType::S32 => TypeTag::S32,
            DeclaredType::U32 => TypeTag::U32,
            DeclaredType::S64 => TypeTag::S64,
            DeclaredType::U64 => TypeTag::U64,
            DeclaredType::Float32 => TypeTag::Float32,
            DeclaredType::Float64 => TypeTag::Float64,
            DeclaredType::Char => TypeTag::Char,
            DeclaredType::String => TypeTag::String,
            DeclaredType::List(_) => TypeTag::List,
            DeclaredType::Record(_) => TypeTag::Record,
            DeclaredType::Other => TypeTag::Other,
        }
    }
}

impl View for DeclaredType {
    type V = DeclaredTypeView;

    open spec fn view(&self) -> DeclaredTypeView {
        self.model()
    }
}

impl DeclaredTypeView {
    /// The kind of this type.
    pub open spec fn tag(self) -> TypeTag {
        match self {
            DeclaredTypeView::Bool => TypeTag::Bool,
            DeclaredTypeView::S8 => TypeTag::S8,
            DeclaredTypeView::U8 => TypeTag::U8,
            DeclaredTypeView::S16 => TypeTag::S16,
            DeclaredTypeView::U16 => TypeTag::U16,
            DeclaredTypeView::S32 => TypeTag::S32,
            DeclaredTypeView::U32 => TypeTag::U32,
            DeclaredTypeView::S64 => TypeTag::S64,
            DeclaredTypeView::U64 => TypeTag::U64,
            DeclaredTypeView::Float32 => TypeTag::Float32,
            DeclaredTypeView::Float64 => TypeTag::Float64,
            DeclaredTypeView::Char => TypeTag::Char,
            DeclaredTypeView::String => TypeTag::String,
            DeclaredTypeView::List(_) => TypeTag::List,
            DeclaredTypeView::Record(_) => TypeTag::Record,
            DeclaredTypeView::Other => TypeTag::Other,
        }
    }
}

/// The views of the fields of a record type.
pub open spec fn field_views_of(fields: Seq<(String, DeclaredType)>) -> Seq<
    (Seq<char>, DeclaredTypeView),
> {
    Seq::new(fields.len(), |i: int| (fields[i].0@, fields[i].1@))
}

/// The view of a record type is the views of its fields.
pub proof fn record_type_view(fields: Vec<(String, DeclaredType)>)
    ensures
        DeclaredType::Record(fields)@ == DeclaredTypeView::Record(field_views_of(fields@)),
{
    assert(DeclaredType::Record(fields)@->Record_0 =~= field_views_of(fields@));
}

/// A value of a component interface. A floating-point value of either width
/// is held by the bits of the double that equals it; the single-precision
/// width is applied where the value is handed to the runtime.
#[derive(Debug, PartialEq)]
pub enum TypedValue {
    Bool(bool),
    S8(i8),
    U8(u8),
    S16(i16),
    U16(u16),
    S32(i32),
    U32(u32),
    S64(i64),
    U64(u64),
    Float32(u64),
    Float64(u64),
    Char(char),
    String(String),
    List(Vec<TypedValue>),
    /// The fields of a record, in the order of its declared type.
    Record(Vec<(String, TypedValue)>),
    /// The outcome of a fallible call, with or without a payload.
    Result(Result<Option<Box<TypedValue>>, Option<Box<TypedValue>>>),
    /// A value of any other kind, by its diagnostic rendering.
    Other(String),
}

/// What a [`TypedValue`] is, as a mathematical value.
pub enum TypedValueView {
    Bool(bool),
    S8(i8),
    U8(u8),
    S16(i16),
    U16(u16),
    S32(i32),
    U32(u32),
    S64(i64),
    U64(u64),
    Float32(u64),
    Float64(u64),
    Char(char),
    String(Seq<char>),
    List(Seq<TypedValueView>),
    Record(Seq<(Seq<char>, TypedValueView)>),
    Result(Result<Option<Box<TypedValueView>>, Option<Box<TypedValueView>>>),
    Other(Seq<char>),
}

impl TypedValue {
    /// What this value is, as a mathematical value.
    pub open spec fn model(&self) -> TypedValueView
        decreases self,
    {
        match self {
            TypedValue::Bool(b) => TypedValueView::Bool(*b),
            TypedValue::S8(i) => TypedValueView::S8(*i),
            TypedValue::U8(u) => TypedValueView::U8(*u),
            TypedValue::S16(i) => TypedValueView::S16(*i),
            TypedValue::U16(u) => TypedValueView::U16(*u),
            TypedValue::S32(i) => TypedValueView::S32(*i),
            TypedValue::U32(u) => TypedValueView::U32(*u),
            TypedValue::S64(i) => TypedValueView::S64(*i),
            TypedValue::U64(u) => TypedValueView::U64(*u),
            TypedValue::Float32(bits) => TypedValueView::Float32(*bits),
            TypedValue::Float64(bits) => TypedValueView::Float64(*bits),
            TypedValue::Char(c) => TypedValueView::Char(*c),
            TypedValue::String(s) => TypedValueView::String(s@),
            TypedValue::List(items) => TypedValueView::List(
                Seq::new(
                    items@.len(),
                    |i: int|
                        if 0 <= i < items@.len() {
                            items@[i].model()
                        } else {
                            TypedValueView::Bool(false)
                        },
                ),
            ),
            TypedValue::Record(fields) => TypedValueView::Record(
                Seq::new(
                    fields@.len(),
                    |i: int|
                        if 0 <= i < fields@.len() {
                            (fields@[i].0@, fields@[i].1.model())
                        } else {
                            (Seq::empty(), TypedValueView::Bool(false))
                        },
                ),
            ),
            TypedValue::Result(Ok(Some(payload))) => TypedValueView::Result(
                Ok(Some(Box::new(payload.model()))),
            ),
            TypedValue::Result(Ok(None)) => TypedValueView::Result(Ok(None)),
            TypedValue::Result(Err(Some(payload))) => TypedValueView::Result(
                Err(Some(Box::new(payload.model()))),
            ),
            TypedValue::Result(Err(None)) => TypedValueView::Result(Err(None)),
            TypedValue::Other(text) => TypedValueView::Other(text@),
        }
    }
}

impl View for TypedValue {
    type V = TypedValueView;

    open spec fn view(&self) -> TypedValueView {
        self.model()
    }
}

/// The views of the items of a list.
pub open spec fn value_views_of(items: Seq<TypedValue>) -> Seq<TypedValueView> {
    Seq::new(items.len(), |i: int| items[i]@)
}

/// The views of the fields of a record value.
pub open spec fn field_value_views_of(fields: Seq<(String, TypedValue)>) -> Seq<
    (Seq<char>, TypedValueView),
> {
    Seq::new(fields.len(), |i: int| (fields[i].0@, fields[i].1@))
}

/// The view of a list is the views of its items.
pub proof fn list_view(items: Vec<TypedValue>)
    ensures
        TypedValue::List(items)@ == TypedValueView::List(value_views_of(items@)),
{
    assert(TypedValue::List(items)@->List_0 =~= value_views_of(items@));
}

/// The view of a record value is the views of its fields.
pub proof fn record_view(fields: Vec<(String, TypedValue)>)
    ensures
        TypedValue::Record(fields)@ == TypedValueView::Record(field_value_views_of(fields@)),
{
    assert(TypedValue::Record(fields)@->Record_0 =~= field_value_views_of(fields@));
}

/// A value has the shape that a declared type asks for: the same variant,
/// every item of a list of the element type, and the fields of a record
/// those of the type, by name and in order, each of its field's type.
pub open spec fn has_type(v: TypedValueView, ty: DeclaredTypeView) -> bool
    decreases v,
{
    match (v, ty) {
        (TypedValueView::Bool(_), DeclaredTypeView::Bool) => true,
        (TypedValueView::S8(_), DeclaredTypeView::S8) => true,
        (TypedValueView::U8(_), DeclaredTypeView::U8) => true,
        (TypedValueView::S16(_), DeclaredTypeView::S16) => true,
        (TypedValueView::U16(_), DeclaredTypeView::U16) => true,
        (TypedValueView::S32(_), DeclaredTypeView::S32) => true,
        (TypedValueView::U32(_), DeclaredTypeView::U32) => true,
        (TypedValueView::S64(_), DeclaredTypeView::S64) => true,
        (TypedValueView::U64(_), DeclaredTypeView::U64) => true,
        (TypedValueView::Float32(_), DeclaredTypeView::Float32) => true,
        (TypedValueView::Float64(_), DeclaredTypeView::Float64) => true,
        (TypedValueView::Char(_), DeclaredTypeView::Char) => true,
        (TypedValueView::String(_), DeclaredTypeView::String) => true,
        (TypedValueView::List(items), DeclaredTypeView::List(element)) => forall|i: int|
            0 <= i < items.len() ==> has_type(#[trigger] items[i], *element),
        (TypedValueView::Record(values), DeclaredTypeView::Record(fields)) => {
            &&& values.len() == fields.len()
            &&& forall|i: int|
                0 <= i < values.len() ==> (#[trigger] values[i]).0 == fields[i].0 && has_type(
                    values[i].1,
                    fields[i].1,
                )
        },
        _ => false,
    }
}

} // verus!
