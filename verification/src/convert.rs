//! Conversion of what a caller passes into the type a field holds.

use vstd::prelude::*;

use crate::value::{FieldValue, FieldValueView};

verus! {

/// Conversion into a field of type `T`: a string slice becomes an owned
/// string, and a value that already has the type is handed on as it is. A
/// boolean, an integer or a string also becomes the field value that holds it.
pub trait IntoField<T>: Sized {
    /// Whether `out` is what `self` converts to.
    spec fn converts_to(self, out: T) -> bool;

    fn into_field(self) -> (out: T)
        ensures
            self.converts_to(out),
    ;
}

impl<'a> IntoField<String> for &'a str {
    open spec fn converts_to(self, out: String) -> bool {
        out@ == self@
    }

    #[inline]
    fn into_field(self) -> (out: String) {
        self.to_owned()
    }
}

impl<T> IntoField<T> for T {
    open spec fn converts_to(self, out: T) -> bool {
        out == self
    }

    #[inline]
    fn into_field(self) -> (out: T) {
        self
    }
}

impl<'a> IntoField<FieldValue> for &'a str {
    open spec fn converts_to(self, out: FieldValue) -> bool {
        out@ == FieldValueView::Text(self@)
    }

    #[inline]
    fn into_field(self) -> (out: FieldValue) {
        FieldValue::Text(self.to_owned())
    }
}

impl IntoField<FieldValue> for String {
    open spec fn converts_to(self, out: FieldValue) -> bool {
        out@ == FieldValueView::Text(self@)
    }

    #[inline]
    fn into_field(self) -> (out: FieldValue) {
        FieldValue::Text(self)
    }
}

impl IntoField<FieldValue> for bool {
    open spec fn converts_to(self, out: FieldValue) -> bool {
        out@ == FieldValueView::Bool(self)
    }

    #[inline]
    fn into_field(self) -> (out: FieldValue) {
        FieldValue::Bool(self)
    }
}

impl IntoField<FieldValue> for i8 {
    open spec fn converts_to(self, out: FieldValue) -> bool {
        out@ == FieldValueView::I8(self)
    }

    #[inline]
    fn into_field(self) -> (out: FieldValue) {
        FieldValue::I8(self)
    }
}

impl IntoField<FieldValue> for i16 {
    open spec fn converts_to(self, out: FieldValue) -> bool {
        out@ == FieldValueView::I16(self)
    }

    #[inline]
    fn into_field(self) -> (out: FieldValue) {
        FieldValue::I16(self)
    }
}

impl IntoField<FieldValue> for i32 {
    open spec fn converts_to(self, out: FieldValue) -> bool {
        out@ == FieldValueView::I32(self)
    }

    #[inline]
    fn into_field(self) -> (out: FieldValue) {
        FieldValue::I32(self)
    }
}

impl IntoField<FieldValue> for i64 {
    open spec fn converts_to(self, out: FieldValue) -> bool {
        out@ == FieldValueView::I64(self)
    }

    #[inline]
    fn into_field(self) -> (out: FieldValue) {
        FieldValue::I64(self)
    }
}

impl IntoField<FieldValue> for isize {
    open spec fn converts_to(self, out: FieldValue) -> bool {
        out@ == FieldValueView::Isize(self)
    }

    #[inline]
    fn into_field(self) -> (out: FieldValue) {
        FieldValue::Isize(self)
    }
}

impl IntoField<FieldValue> for u8 {
    open spec fn converts_to(self, out: FieldValue) -> bool {
        out@ == FieldValueView::U8(self)
    }

    #[inline]
    fn into_field(self) -> (out: FieldValue) {
        FieldValue::U8(self)
    }
}

impl IntoField<FieldValue> for u16 {
    open spec fn converts_to(self, out: FieldValue) -> bool {
        out@ == FieldValueView::U16(self)
    }

    #[inline]
    fn into_field(self) -> (out: FieldValue) {
        FieldValue::U16(self)
    }
}

impl IntoField<FieldValue> for u32 {
    open spec fn converts_to(self, out: FieldValue) -> bool {
        out@ == FieldValueView::U32(self)
    }

    #[inline]
    fn into_field(self) -> (out: FieldValue) {
        FieldValue::U32(self)
    }
}

impl IntoField<FieldValue> for u64 {
    open spec fn converts_to(self, out: FieldValue) -> bool {
        out@ == FieldValueView::U64(self)
    }

    #[inline]
    fn into_field(self) -> (out: FieldValue) {
        FieldValue::U64(self)
    }
}

impl IntoField<FieldValue> for usize {
    open spec fn converts_to(self, out: FieldValue) -> bool {
        out@ == FieldValueView::Usize(self)
    }

    #[inline]
    fn into_field(self) -> (out: FieldValue) {
        FieldValue::Usize(self)
    }
}

/// Whether `out` holds what each of `values` converts to, in order.
pub open spec fn convert_to_all<V: IntoField<FieldValue>>(
    values: Seq<V>,
    out: Seq<FieldValue>,
) -> bool {
    &&& out.len() == values.len()
    &&& forall|i: int| 0 <= i < values.len() ==> (#[trigger] values[i]).converts_to(out[i])
}

/// Converts each value of a list, in order.
pub fn convert_all<V: IntoField<FieldValue>>(values: Vec<V>) -> (out: Vec<FieldValue>)
    ensures
        convert_to_all(values@, out@),
{
    let mut out: Vec<FieldValue> = Vec::new();
    for v in it: values
        invariant
            it.seq() == values@,
            out@.len() == it.index(),
            forall|i: int| 0 <= i < it.index() ==> (#[trigger] values@[i]).converts_to(out@[i]),
    {
        let value = v.into_field();
        out.push(value);
    }
    out
}

} // verus!
