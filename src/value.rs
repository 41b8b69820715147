use vstd::prelude::*;

use crate::geometry::{Point, Rectangle, Size};

verus! {

/// The tag of a tagged value: which kind of element it holds.
#[derive(Clone, Copy, Debug, PartialEq, Eq, Structural)]
pub enum ControlType {
    Unset,
    Bool,
    Int32,
    Int64,
    Float,
    Text,
    Rectangle,
    Size,
    Point,
}

/// A control or property value of any kind.
///
/// Every numeric kind keeps its own width. A scalar is held as a sequence of
/// one element; an array as a sequence of any length. Floating-point elements
/// are held as their IEEE-754 single-precision bit patterns.
#[derive(Debug)]
pub enum ControlValue {
    Unset,
    Bool(Vec<bool>),
    Int32(Vec<i32>),
    Int64(Vec<i64>),
    Float(Vec<u32>),
    Text(String),
    Rectangle(Vec<Rectangle>),
    Size(Vec<Size>),
    Point(Vec<Point>),
}

/// The mathematical content of a [`ControlValue`].
pub enum ValueView {
    Unset,
    Bool(Seq<bool>),
    Int32(Seq<i32>),
    Int64(Seq<i64>),
    Float(Seq<u32>),
    Text(Seq<char>),
    Rectangle(Seq<Rectangle>),
    Size(Seq<Size>),
    Point(Seq<Point>),
}

impl ValueView {
    /// The tag of the value.
    pub open spec fn kind(self) -> ControlType {
        match self {
            ValueView::Unset => ControlType::Unset,
            ValueView::Bool(_) => ControlType::Bool,
            ValueView::Int32(_) => ControlType::Int32,
            ValueView::Int64(_) => ControlType::Int64,
            ValueView::Float(_) => ControlType::Float,
            ValueView::Text(_) => ControlType::Text,
            ValueView::Rectangle(_) => ControlType::Rectangle,
            ValueView::Size(_) => ControlType::Size,
            ValueView::Point(_) => ControlType::Point,
        }
    }
}

impl View for ControlValue {
    type V = ValueView;

    open spec fn view(&self) -> ValueView {
        match self {
            ControlValue::Unset => ValueView::Unset,
            ControlValue::Bool(v) => ValueView::Bool(v@),
            ControlValue::Int32(v) => ValueView::Int32(v@),
            ControlValue::Int64(v) => ValueView::Int64(v@),
            ControlValue::Float(v) => ValueView::Float(v@),
            ControlValue::Text(s) => ValueView::Text(s@),
            ControlValue::Rectangle(v) => ValueView::Rectangle(v@),
            ControlValue::Size(v) => ValueView::Size(v@),
            ControlValue::Point(v) => ValueView::Point(v@),
        }
    }
}

/// Why a tagged value could not be turned into the value asked for.
#[allow(inconsistent_fields)]
#[derive(Clone, Copy, Debug, PartialEq, Eq, Structural)]
pub enum ControlValueError {
    /// The value carries another tag than the one expected.
    InvalidType { expected: ControlType, found: ControlType },
    /// The value holds another number of elements than expected.
    InvalidLength { expected: usize, found: usize },
    /// The native value declares a tag that has no kind here.
    UnknownType(u32),
    /// The payload of a text value is not valid UTF-8.
    InvalidText,
}

/// Copies the elements of a vector one by one.
fn copy_elements<T: Copy>(v: &Vec<T>) -> (r: Vec<T>)
    ensures
        r@ == v@,
{
    let mut r: Vec<T> = Vec::new();
    let mut i: usize = 0;
    while i < v.len()
        invariant
            i <= v@.len(),
            r@ == v@.subrange(0, i as int),
        decreases v@.len() - i,
    {
        r.push(v[i]);
        i += 1;
    }
    assert(r@ =~= v@);
    r
}

impl ControlValue {
    /// The tag of this value.
    pub fn kind(&self) -> (r: ControlType)
        ensures
            r == self@.kind(),
    {
        match self {
            ControlValue::Unset => ControlType::Unset,
            ControlValue::Bool(_) => ControlType::Bool,
            ControlValue::Int32(_) => ControlType::Int32,
            ControlValue::Int64(_) => ControlType::Int64,
            ControlValue::Float(_) => ControlType::Float,
            ControlValue::Text(_) => ControlType::Text,
            ControlValue::Rectangle(_) => ControlType::Rectangle,
            ControlValue::Size(_) => ControlType::Size,
            ControlValue::Point(_) => ControlType::Point,
        }
    }
}

impl Clone for ControlValue {
    fn clone(&self) -> (r: Self)
        ensures
            r@ == self@,
    {
        match self {
            ControlValue::Unset => ControlValue::Unset,
            ControlValue::Bool(v) => ControlValue::Bool(copy_elements(v)),
            ControlValue::Int32(v) => ControlValue::Int32(copy_elements(v)),
            ControlValue::Int64(v) => ControlValue::Int64(copy_elements(v)),
            ControlValue::Float(v) => ControlValue::Float(copy_elements(v)),
            ControlValue::Text(s) => ControlValue::Text(s.clone()),
            ControlValue::Rectangle(v) => ControlValue::Rectangle(copy_elements(v)),
            ControlValue::Size(v) => ControlValue::Size(copy_elements(v)),
            ControlValue::Point(v) => ControlValue::Point(copy_elements(v)),
        }
    }
}

} // verus!
