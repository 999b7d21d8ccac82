//! Field values: what a filter or an assignment carries, which type it has,
//! and how it is rendered for inspection.
//!
//! A value has exactly one type, and a field holds the values of its own type
//! and no others. Booleans, the integers and strings are held as they are. A
//! value of any other type is carried as the name of its type and its debug
//! text.

use vstd::prelude::*;
use vstd::string::*;

use crate::ops::ValueShape;
use crate::text::{
    decimal, decimal_text, integer, integer_text, lemma_push_deep_view, same_text,
};

verus! {

/// A value of a field.
#[derive(Clone, Debug, PartialEq, Eq)]
pub enum FieldValue {
    Bool(bool),
    I8(i8),
    I16(i16),
    I32(i32),
    I64(i64),
    Isize(isize),
    U8(u8),
    U16(u16),
    U32(u32),
    U64(u64),
    Usize(usize),
    Text(String),
    /// A value of any other type: the type as it is written in the
    /// declaration, and the debug text of the value.
    Other { ty: String, text: String },
}

/// The mathematical value of a [`FieldValue`].
pub enum FieldValueView {
    Bool(bool),
    I8(i8),
    I16(i16),
    I32(i32),
    I64(i64),
    Isize(isize),
    U8(u8),
    U16(u16),
    U32(u32),
    U64(u64),
    Usize(usize),
    Text(Seq<char>),
    Other { ty: Seq<char>, text: Seq<char> },
}

impl View for FieldValue {
    type V = FieldValueView;

    open spec fn view(&self) -> FieldValueView {
        match *self {
            FieldValue::Bool(b) => FieldValueView::Bool(b),
            FieldValue::I8(n) => FieldValueView::I8(n),
            FieldValue::I16(n) => FieldValueView::I16(n),
            FieldValue::I32(n) => FieldValueView::I32(n),
            FieldValue::I64(n) => FieldValueView::I64(n),
            FieldValue::Isize(n) => FieldValueView::Isize(n),
            FieldValue::U8(n) => FieldValueView::U8(n),
            FieldValue::U16(n) => FieldValueView::U16(n),
            FieldValue::U32(n) => FieldValueView::U32(n),
            FieldValue::U64(n) => FieldValueView::U64(n),
            FieldValue::Usize(n) => FieldValueView::Usize(n),
            FieldValue::Text(s) => FieldValueView::Text(s@),
            FieldValue::Other { ty, text } => FieldValueView::Other { ty: ty@, text: text@ },
        }
    }
}

impl DeepView for FieldValue {
    type V = FieldValueView;

    open spec fn deep_view(&self) -> FieldValueView {
        self@
    }
}

/// Whether a type name is that of a type whose values are held as they are:
/// `bool`, a fixed-width or pointer-sized integer, or `String`.
pub open spec fn native_name(ty: Seq<char>) -> bool {
    ty == "bool"@ || ty == "i8"@ || ty == "i16"@ || ty == "i32"@
        || ty == "i64"@ || ty == "isize"@ || ty == "u8"@ || ty == "u16"@
        || ty == "u32"@ || ty == "u64"@ || ty == "usize"@ || ty == "String"@
}

/// The text that Rust's `Debug` formatting gives for a string slice: the
/// characters between double quotes, with escapes.
pub uninterp spec fn debug_str(s: Seq<char>) -> Seq<char>;

/// Formats a string slice with `{:?}`, that is with `<str as Debug>::fmt`.
/// The contract only gives the text its name: it depends on the characters of
/// the slice alone.
#[verifier::external_body]
fn fmt_debug_str(s: &str) -> (out: String)
    ensures
        out@ == debug_str(s@),
{
    format!("{:?}", s)
}

impl FieldValueView {
    /// The name of the type of the value.
    pub open spec fn type_text(self) -> Seq<char> {
        match self {
            FieldValueView::Bool(_) => "bool"@,
            FieldValueView::I8(_) => "i8"@,
            FieldValueView::I16(_) => "i16"@,
            FieldValueView::I32(_) => "i32"@,
            FieldValueView::I64(_) => "i64"@,
            FieldValueView::Isize(_) => "isize"@,
            FieldValueView::U8(_) => "u8"@,
            FieldValueView::U16(_) => "u16"@,
            FieldValueView::U32(_) => "u32"@,
            FieldValueView::U64(_) => "u64"@,
            FieldValueView::Usize(_) => "usize"@,
            FieldValueView::Text(_) => "String"@,
            FieldValueView::Other { ty, text } => ty,
        }
    }

    /// Whether a field of type `ty` holds the value: the value is of that
    /// type. A value that is carried as text is of no type whose values are
    /// held as they are.
    pub open spec fn has_type(self, ty: Seq<char>) -> bool {
        self.type_text() == ty && (self is Other ==> !native_name(ty))
    }

    /// The text a value is rendered as in a filter record: `true` or `false`
    /// for a boolean, the decimal numeral for an integer, the `Debug` form
    /// for a string, and the text that is carried for a value of another type.
    pub open spec fn rendering(self) -> Seq<char> {
        match self {
            FieldValueView::Bool(b) => if b {
                "true"@
            } else {
                "false"@
            },
            FieldValueView::I8(i) => integer_text(i as int),
            FieldValueView::I16(i) => integer_text(i as int),
            FieldValueView::I32(i) => integer_text(i as int),
            FieldValueView::I64(i) => integer_text(i as int),
            FieldValueView::Isize(i) => integer_text(i as int),
            FieldValueView::U8(u) => decimal_text(u as nat),
            FieldValueView::U16(u) => decimal_text(u as nat),
            FieldValueView::U32(u) => decimal_text(u as nat),
            FieldValueView::U64(u) => decimal_text(u as nat),
            FieldValueView::Usize(u) => decimal_text(u as nat),
            FieldValueView::Text(s) => debug_str(s),
            FieldValueView::Other { ty, text } => text,
        }
    }
}

/// Whether a type name is that of a type whose values are held as they are.
pub fn is_native_name(ty: &str) -> (native: bool)
    ensures
        native == native_name(ty@),
{
    same_text(ty, "bool")
        || same_text(ty, "i8")
        || same_text(ty, "i16")
        || same_text(ty, "i32")
        || same_text(ty, "i64")
        || same_text(ty, "isize")
        || same_text(ty, "u8")
        || same_text(ty, "u16")
        || same_text(ty, "u32")
        || same_text(ty, "u64")
        || same_text(ty, "usize")
        || same_text(ty, "String")
}

impl FieldValue {
    /// The name of the type of the value.
    pub fn type_text(&self) -> (name: &str)
        ensures
            name@ == self@.type_text(),
    {
        match self {
            FieldValue::Bool(_) => "bool",
            FieldValue::I8(_) => "i8",
            FieldValue::I16(_) => "i16",
            FieldValue::I32(_) => "i32",
            FieldValue::I64(_) => "i64",
            FieldValue::Isize(_) => "isize",
            FieldValue::U8(_) => "u8",
            FieldValue::U16(_) => "u16",
            FieldValue::U32(_) => "u32",
            FieldValue::U64(_) => "u64",
            FieldValue::Usize(_) => "usize",
            FieldValue::Text(_) => "String",
            FieldValue::Other { ty, text } => ty.as_str(),
        }
    }

    /// Whether a field of type `ty` holds the value.
    pub fn has_type(&self, ty: &str) -> (held: bool)
        ensures
            held == self@.has_type(ty@),
    {
        match self {
            FieldValue::Other { ty: own, text } => same_text(own.as_str(), ty) && !is_native_name(
                ty,
            ),
            _ => same_text(self.type_text(), ty),
        }
    }

    /// The text the value is rendered as in a filter record.
    pub fn render(&self) -> (out: String)
        ensures
            out@ == self@.rendering(),
    {
        match self {
            FieldValue::Bool(b) => if *b {
                String::from_str("true")
            } else {
                String::from_str("false")
            },
            FieldValue::I8(i) => integer(*i as i64),
            FieldValue::I16(i) => integer(*i as i64),
            FieldValue::I32(i) => integer(*i as i64),
            FieldValue::I64(i) => integer(*i as i64),
            FieldValue::Isize(i) => integer(*i as i64),
            FieldValue::U8(u) => decimal(*u as u64),
            FieldValue::U16(u) => decimal(*u as u64),
            FieldValue::U32(u) => decimal(*u as u64),
            FieldValue::U64(u) => decimal(*u as u64),
            FieldValue::Usize(u) => decimal(*u as u64),
            FieldValue::Text(s) => fmt_debug_str(s.as_str()),
            FieldValue::Other { ty, text } => text.clone(),
        }
    }

    /// A copy of the value.
    pub fn duplicate(&self) -> (copy: FieldValue)
        ensures
            copy@ == self@,
    {
        match self {
            FieldValue::Bool(b) => FieldValue::Bool(*b),
            FieldValue::I8(n) => FieldValue::I8(*n),
            FieldValue::I16(n) => FieldValue::I16(*n),
            FieldValue::I32(n) => FieldValue::I32(*n),
            FieldValue::I64(n) => FieldValue::I64(*n),
            FieldValue::Isize(n) => FieldValue::Isize(*n),
            FieldValue::U8(n) => FieldValue::U8(*n),
            FieldValue::U16(n) => FieldValue::U16(*n),
            FieldValue::U32(n) => FieldValue::U32(*n),
            FieldValue::U64(n) => FieldValue::U64(*n),
            FieldValue::Usize(n) => FieldValue::Usize(*n),
            FieldValue::Text(s) => FieldValue::Text(s.clone()),
            FieldValue::Other { ty, text } => FieldValue::Other {
                ty: ty.clone(),
                text: text.clone(),
            },
        }
    }
}

/// The mathematical values of a sequence of values, in order.
pub open spec fn value_views(values: Seq<FieldValue>) -> Seq<FieldValueView> {
    Seq::new(values.len(), |i: int| values[i]@)
}

/// Copies a list of values.
pub fn duplicate_values(values: &Vec<FieldValue>) -> (copy: Vec<FieldValue>)
    ensures
        copy.deep_view() == values.deep_view(),
{
    let mut copy: Vec<FieldValue> = Vec::new();
    let mut i: usize = 0;
    proof {
        assert(copy.deep_view() =~= values.deep_view().take(0));
    }
    while i < values.len()
        invariant
            i <= values.len(),
            copy.deep_view() == values.deep_view().take(i as int),
        decreases values.len() - i,
    {
        let ghost before = copy;
        let v = values[i].duplicate();
        copy.push(v);
        proof {
            lemma_push_deep_view(before, copy, v);
            assert(values.deep_view().take(i + 1) =~= values.deep_view().take(i as int).push(
                values@[i as int]@,
            ));
        }
        i += 1;
    }
    proof {
        assert(values.deep_view().take(i as int) =~= values.deep_view());
    }
    copy
}

/// What a storage slot holds once it is set: one value, a list, or a pair.
#[derive(Clone, Debug, PartialEq, Eq)]
pub enum SlotValue {
    Scalar(FieldValue),
    List(Vec<FieldValue>),
    Pair(FieldValue, FieldValue),
}

/// The mathematical value of a [`SlotValue`].
pub enum SlotValueView {
    Scalar(FieldValueView),
    List(Seq<FieldValueView>),
    Pair(FieldValueView, FieldValueView),
}

impl View for SlotValue {
    type V = SlotValueView;

    open spec fn view(&self) -> SlotValueView {
        match *self {
            SlotValue::Scalar(v) => SlotValueView::Scalar(v@),
            SlotValue::List(vs) => SlotValueView::List(vs.deep_view()),
            SlotValue::Pair(a, b) => SlotValueView::Pair(a@, b@),
        }
    }
}

impl DeepView for SlotValue {
    type V = SlotValueView;

    open spec fn deep_view(&self) -> SlotValueView {
        self@
    }
}

impl SlotValueView {
    /// Whether this is one value, a list, or a pair.
    pub open spec fn shape(self) -> ValueShape {
        match self {
            SlotValueView::Scalar(_) => ValueShape::Scalar,
            SlotValueView::List(_) => ValueShape::List,
            SlotValueView::Pair(_, _) => ValueShape::Pair,
        }
    }

    /// Whether a field of type `ty` holds every value in here.
    pub open spec fn fits(self, ty: Seq<char>) -> bool {
        match self {
            SlotValueView::Scalar(v) => v.has_type(ty),
            SlotValueView::List(vs) => {
                forall|i: int| 0 <= i < vs.len() ==> (#[trigger] vs[i]).has_type(ty)
            },
            SlotValueView::Pair(a, b) => a.has_type(ty) && b.has_type(ty),
        }
    }
}

/// A list with a value of another type does not fit.
proof fn lemma_list_misfit(values: Seq<FieldValueView>, ty: Seq<char>, at: int)
    requires
        0 <= at < values.len(),
        !values[at].has_type(ty),
    ensures
        !SlotValueView::List(values).fits(ty),
{
    let list = SlotValueView::List(values);
    assert(list->List_0 == values);
    if list.fits(ty) {
        assert(values[at].has_type(ty));
    }
}

impl SlotValue {
    /// Whether this is one value, a list, or a pair.
    pub fn shape(&self) -> (shape: ValueShape)
        ensures
            shape == self@.shape(),
    {
        match self {
            SlotValue::Scalar(_) => ValueShape::Scalar,
            SlotValue::List(_) => ValueShape::List,
            SlotValue::Pair(_, _) => ValueShape::Pair,
        }
    }

    /// Whether a field of type `ty` holds every value in here.
    pub fn fits(&self, ty: &str) -> (ok: bool)
        ensures
            ok == self@.fits(ty@),
    {
        match self {
            SlotValue::Scalar(v) => v.has_type(ty),
            SlotValue::List(vs) => {
                let mut i: usize = 0;
                while i < vs.len()
                    invariant
                        i <= vs.len(),
                        *self == SlotValue::List(*vs),
                        forall|k: int|
                            0 <= k < i ==> (#[trigger] vs.deep_view()[k]).has_type(ty@),
                    decreases vs.len() - i,
                {
                    if !vs[i].has_type(ty) {
                        proof {
                            lemma_list_misfit(vs.deep_view(), ty@, i as int);
                        }
                        return false;
                    }
                    i += 1;
                }
                true
            },
            SlotValue::Pair(a, b) => a.has_type(ty) && b.has_type(ty),
        }
    }

    /// A copy of the slot value.
    pub fn duplicate(&self) -> (copy: SlotValue)
        ensures
            copy@ == self@,
    {
        match self {
            SlotValue::Scalar(v) => SlotValue::Scalar(v.duplicate()),
            SlotValue::List(vs) => SlotValue::List(duplicate_values(vs)),
            SlotValue::Pair(a, b) => SlotValue::Pair(a.duplicate(), b.duplicate()),
        }
    }
}

} // verus!
