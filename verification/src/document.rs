//! The untyped document model: a tree of null, booleans, numbers, strings,
//! arrays and objects whose entries keep their order.

use vstd::prelude::*;

verus! {

/// Two to the power 52: the weight of the lowest exponent bit of a double.
pub const EXPONENT_UNIT: u64 = 0x10_0000_0000_0000u64;

/// The number of values an eleven-bit exponent field can hold.
pub const EXPONENT_SPAN: u64 = 0x800u64;

/// True when `bits`, read as an IEEE 754 double, is neither an infinity nor a
/// NaN: its exponent field is not all ones.
pub open spec fn finite_bits(bits: u64) -> bool {
    (bits / EXPONENT_UNIT) % EXPONENT_SPAN != 0x7ff
}

/// Decides [`finite_bits`].
pub fn is_finite_bits(bits: u64) -> (r: bool)
    ensures
        r == finite_bits(bits),
{
    (bits / EXPONENT_UNIT) % EXPONENT_SPAN != 0x7ff
}

/// A numeric document. A floating-point number is held by the bits of its
/// double-precision encoding.
#[derive(Clone, Copy, Debug, PartialEq, Eq, Structural)]
pub enum Number {
    /// A non-negative integer.
    PosInt(u64),
    /// A negative integer.
    NegInt(i64),
    /// A finite double, by its bits.
    Float(u64),
}

impl Number {
    /// The canonical form: negative integers, and only those, are `NegInt`,
    /// and a float is finite.
    pub open spec fn well_formed(self) -> bool {
        match self {
            Number::PosInt(_) => true,
            Number::NegInt(i) => i < 0,
            Number::Float(bits) => finite_bits(bits),
        }
    }

    /// The integer this number denotes, if it is written as one.
    pub open spec fn integer(self) -> Option<int> {
        match self {
            Number::PosInt(u) => Some(u as int),
            Number::NegInt(i) => Some(i as int),
            Number::Float(_) => None,
        }
    }

    /// The number that stands for a signed integer.
    pub open spec fn of_signed(i: int) -> Number
        recommends
            i64::MIN <= i <= i64::MAX,
    {
        if i < 0 {
            Number::NegInt(i as i64)
        } else {
            Number::PosInt(i as u64)
        }
    }

    /// Builds the number of a signed integer.
    pub fn from_signed(i: i64) -> (n: Number)
        ensures
            n == Number::of_signed(i as int),
            n.well_formed(),
            n.integer() == Some(i as int),
    {
        if i < 0 {
            Number::NegInt(i)
        } else {
            Number::PosInt(i as u64)
        }
    }

    /// Builds the number of an unsigned integer.
    pub fn from_unsigned(u: u64) -> (n: Number)
        ensures
            n == Number::PosInt(u),
            n.well_formed(),
            n.integer() == Some(u as int),
    {
        Number::PosInt(u)
    }

    /// The number as a 64-bit signed integer, when it is an integer in that
    /// range.
    pub fn as_signed(&self) -> (r: Option<i64>)
        ensures
            r == match self.integer() {
                Some(v) => if i64::MIN <= v <= i64::MAX {
                    Some(v as i64)
                } else {
                    None
                },
                None => None,
            },
    {
        match *self {
            Number::PosInt(u) => if u <= 0x7fff_ffff_ffff_ffffu64 {
                Some(u as i64)
            } else {
                None
            },
            Number::NegInt(i) => Some(i),
            Number::Float(_) => None,
        }
    }

    /// The number as a 64-bit unsigned integer, when it is an integer in that
    /// range.
    pub fn as_unsigned(&self) -> (r: Option<u64>)
        ensures
            r == match self.integer() {
                Some(v) => if 0 <= v <= u64::MAX {
                    Some(v as u64)
                } else {
                    None
                },
                None => None,
            },
    {
        match *self {
            Number::PosInt(u) => Some(u),
            Number::NegInt(i) => if i >= 0 {
                Some(i as u64)
            } else {
                None
            },
            Number::Float(_) => None,
        }
    }
}

/// The shape of a document, without its contents.
#[derive(Clone, Copy, Debug, PartialEq, Eq, Structural)]
pub enum Shape {
    Null,
    Bool,
    Number,
    String,
    Array,
    Object,
}

impl Shape {
    /// The word for this shape.
    pub open spec fn word(self) -> Seq<char> {
        match self {
            Shape::Null => "null"@,
            Shape::Bool => "bool"@,
            Shape::Number => "number"@,
            Shape::String => "string"@,
            Shape::Array => "array"@,
            Shape::Object => "object"@,
        }
    }

    /// The word for this shape, as text.
    pub fn name(&self) -> (text: &'static str)
        ensures
            text@ == self.word(),
    {
        match self {
            Shape::Null => "null",
            Shape::Bool => "bool",
            Shape::Number => "number",
            Shape::String => "string",
            Shape::Array => "array",
            Shape::Object => "object",
        }
    }
}

/// An untyped value tree. The entries of an object keep the order in which
/// they were given.
#[derive(Debug, PartialEq)]
pub enum Document {
    Null,
    Bool(bool),
    Number(Number),
    String(String),
    Array(Vec<Document>),
    Object(Vec<(String, Document)>),
}

/// What a [`Document`] is, as a mathematical value.
pub enum DocumentView {
    Null,
    Bool(bool),
    Number(Number),
    String(Seq<char>),
    Array(Seq<DocumentView>),
    Object(Seq<(Seq<char>, DocumentView)>),
}

impl Document {
    /// What this document is, as a mathematical value.
    pub open spec fn model(&self) -> DocumentView
        decreases self,
    {
        match self {
            Document::Null => DocumentView::Null,
            Document::Bool(b) => DocumentView::Bool(*b),
            Document::Number(n) => DocumentView::Number(*n),
            Document::String(s) => DocumentView::String(s@),
            Document::Array(items) => DocumentView::Array(
                Seq::new(
                    items@.len(),
                    |i: int|
                        if 0 <= i < items@.len() {
                            items@[i].model()
                        } else {
                            DocumentView::Null
                        },
                ),
            ),
            Document::Object(entries) => DocumentView::Object(
                Seq::new(
                    entries@.len(),
                    |i: int|
                        if 0 <= i < entries@.len() {
                            (entries@[i].0@, entries@[i].1.model())
                        } else {
                            (Seq::empty(), DocumentView::Null)
                        },
                ),
            ),
        }
    }
}

impl View for Document {
    type V = DocumentView;

    open spec fn view(&self) -> DocumentView {
        self.model()
    }
}

/// The views of a sequence of documents, in order.
pub open spec fn views_of(items: Seq<Document>) -> Seq<DocumentView> {
    Seq::new(items.len(), |i: int| items[i]@)
}

/// The views of the entries of an object.
pub open spec fn entry_views_of(entries: Seq<(String, Document)>) -> Seq<(Seq<char>, DocumentView)> {
    Seq::new(entries.len(), |i: int| (entries[i].0@, entries[i].1@))
}

/// The view of an array is the views of its items.
pub proof fn array_view(items: Vec<Document>)
    ensures
        Document::Array(items)@ == DocumentView::Array(views_of(items@)),
{
    assert(Document::Array(items)@->Array_0 =~= views_of(items@));
}

/// The view of an object is the views of its entries.
pub proof fn object_view(entries: Vec<(String, Document)>)
    ensures
        Document::Object(entries)@ == DocumentView::Object(entry_views_of(entries@)),
{
    assert(Document::Object(entries)@->Object_0 =~= entry_views_of(entries@));
}

impl DocumentView {
    /// The shape of this document.
    pub open spec fn shape(self) -> Shape {
        match self {
            DocumentView::Null => Shape::Null,
            DocumentView::Bool(_) => Shape::Bool,
            DocumentView::Number(_) => Shape::Number,
            DocumentView::String(_) => Shape::String,
            DocumentView::Array(_) => Shape::Array,
            DocumentView::Object(_) => Shape::Object,
        }
    }

    /// Every number is canonical and no object holds a key twice.
    pub open spec fn well_formed(self) -> bool
        decreases self,
    {
        match self {
            DocumentView::Number(n) => n.well_formed(),
            DocumentView::Array(items) => forall|i: int|
                0 <= i < items.len() ==> (#[trigger] items[i]).well_formed(),
            DocumentView::Object(entries) => {
                &&& forall|i: int|
                    0 <= i < entries.len() ==> (#[trigger] entries[i]).1.well_formed()
                &&& forall|i: int, j: int|
                    0 <= i < j < entries.len() ==> (#[trigger] entries[i]).0 != (
                    #[trigger] entries[j]).0
            },
            _ => true,
        }
    }
}

/// The index of the first entry of `entries` whose key is `key`, or the
/// number of entries if there is none.
pub open spec fn first_index_of(entries: Seq<(Seq<char>, DocumentView)>, key: Seq<char>) -> int
    decreases entries.len(),
{
    if entries.len() == 0 {
        0
    } else if entries[0].0 == key {
        0
    } else {
        1 + first_index_of(entries.drop_first(), key)
    }
}

/// The value under `key`: that of the first entry with this key.
pub open spec fn lookup(entries: Seq<(Seq<char>, DocumentView)>, key: Seq<char>) -> Option<
    DocumentView,
> {
    let i = first_index_of(entries, key);
    if i < entries.len() {
        Some(entries[i].1)
    } else {
        None
    }
}

/// `first_index_of` is in range, points at the key, and nothing before it
/// has the key.
pub proof fn first_index_of_is_first(entries: Seq<(Seq<char>, DocumentView)>, key: Seq<char>)
    ensures
        0 <= first_index_of(entries, key) <= entries.len(),
        first_index_of(entries, key) < entries.len() ==> entries[first_index_of(entries, key)].0
            == key,
        forall|j: int| 0 <= j < first_index_of(entries, key) ==> (#[trigger] entries[j]).0 != key,
    decreases entries.len(),
{
    if entries.len() != 0 && entries[0].0 != key {
        let rest = entries.drop_first();
        first_index_of_is_first(rest, key);
        assert forall|j: int| 0 <= j < first_index_of(entries, key) implies (
        #[trigger] entries[j]).0 != key by {
            if j > 0 {
                assert(rest[j - 1] == entries[j]);
            }
        }
    }
}

/// Any index that points at the key with nothing like it before is the first.
pub proof fn first_index_of_unique(
    entries: Seq<(Seq<char>, DocumentView)>,
    key: Seq<char>,
    k: int,
)
    requires
        0 <= k <= entries.len(),
        k < entries.len() ==> entries[k].0 == key,
        forall|j: int| 0 <= j < k ==> (#[trigger] entries[j]).0 != key,
    ensures
        first_index_of(entries, key) == k,
{
    first_index_of_is_first(entries, key);
    let f = first_index_of(entries, key);
    if f < k {
        assert(entries[f].0 != key);
    }
}

impl Document {
    /// The shape of this document.
    pub fn shape(&self) -> (s: Shape)
        ensures
            s == self@.shape(),
    {
        match self {
            Document::Null => Shape::Null,
            Document::Bool(_) => Shape::Bool,
            Document::Number(_) => Shape::Number,
            Document::String(_) => Shape::String,
            Document::Array(_) => Shape::Array,
            Document::Object(_) => Shape::Object,
        }
    }
}

/// Finds the value under `key` among the entries of an object: the first
/// entry with this key, by exact comparison of names.
pub fn get_entry<'a>(entries: &'a Vec<(String, Document)>, key: &String) -> (r: Option<
    &'a Document,
>)
    ensures
        match r {
            Some(d) => lookup(entry_views_of(entries@), key@) == Some(d@),
            None => lookup(entry_views_of(entries@), key@) is None,
        },
{
    let ghost views = entry_views_of(entries@);
    let mut i: usize = 0;
    while i < entries.len()
        invariant
            0 <= i <= entries.len(),
            views == entry_views_of(entries@),
            forall|j: int| 0 <= j < i ==> (#[trigger] views[j]).0 != key@,
        decreases entries.len() - i,
    {
        if entries[i].0 == *key {
            proof {
                first_index_of_unique(views, key@, i as int);
            }
            return Some(&entries[i].1);
        }
        i += 1;
    }
    proof {
        first_index_of_unique(views, key@, entries.len() as int);
    }
    None
}

} // verus!
