//! The records a builder keeps of its filters, for inspection only.

use vstd::prelude::*;

use crate::ops::OpKind;
use crate::text::lemma_push_deep_view;
use crate::value::{FieldValueView, SlotValue, SlotValueView};

verus! {

/// A filter value as text: one rendering, a list of them, or the two ends of
/// a range.
#[derive(Debug, Clone, PartialEq, Eq)]
pub enum WhereValue {
    Single(String),
    List(Vec<String>),
    Range { start: String, end: String },
}

/// The mathematical value of a [`WhereValue`].
pub enum WhereValueView {
    Single(Seq<char>),
    List(Seq<Seq<char>>),
    Range { start: Seq<char>, end: Seq<char> },
}

impl View for WhereValue {
    type V = WhereValueView;

    open spec fn view(&self) -> WhereValueView {
        match *self {
            WhereValue::Single(s) => WhereValueView::Single(s@),
            WhereValue::List(items) => WhereValueView::List(items.deep_view()),
            WhereValue::Range { start, end } => WhereValueView::Range { start: start@, end: end@ },
        }
    }
}

impl DeepView for WhereValue {
    type V = WhereValueView;

    open spec fn deep_view(&self) -> WhereValueView {
        self@
    }
}

/// What one filter call was made with: the field, the operation and the
/// value as text.
#[derive(Debug, Clone, PartialEq, Eq)]
pub struct WhereParam {
    pub field: String,
    pub op: OpKind,
    pub value: WhereValue,
}

/// The mathematical value of a [`WhereParam`].
pub struct WhereParamView {
    pub field: Seq<char>,
    pub op: OpKind,
    pub value: WhereValueView,
}

impl View for WhereParam {
    type V = WhereParamView;

    open spec fn view(&self) -> WhereParamView {
        WhereParamView { field: self.field@, op: self.op, value: self.value@ }
    }
}

impl DeepView for WhereParam {
    type V = WhereParamView;

    open spec fn deep_view(&self) -> WhereParamView {
        self@
    }
}

/// The renderings of a sequence of values, in order.
pub open spec fn renderings(values: Seq<FieldValueView>) -> Seq<Seq<char>> {
    Seq::new(values.len(), |i: int| values[i].rendering())
}

impl SlotValueView {
    /// The text form of a slot value: a scalar as `Single`, a list as `List`
    /// with one text per element, a pair as `Range` with its ends in the order
    /// given.
    pub open spec fn rendering(self) -> WhereValueView {
        match self {
            SlotValueView::Scalar(v) => WhereValueView::Single(v.rendering()),
            SlotValueView::List(vs) => WhereValueView::List(renderings(vs)),
            SlotValueView::Pair(a, b) => WhereValueView::Range {
                start: a.rendering(),
                end: b.rendering(),
            },
        }
    }
}

impl SlotValue {
    /// Renders the slot value as text.
    pub fn render(&self) -> (out: WhereValue)
        ensures
            out@ == self@.rendering(),
    {
        match self {
            SlotValue::Scalar(v) => WhereValue::Single(v.render()),
            SlotValue::List(vs) => {
                let mut texts: Vec<String> = Vec::new();
                let mut i: usize = 0;
                proof {
                    assert(texts.deep_view() =~= renderings(vs.deep_view()).take(0));
                }
                while i < vs.len()
                    invariant
                        i <= vs.len(),
                        texts.deep_view() == renderings(vs.deep_view()).take(i as int),
                    decreases vs.len() - i,
                {
                    let ghost before = texts;
                    let text = vs[i].render();
                    texts.push(text);
                    proof {
                        lemma_push_deep_view(before, texts, text);
                        assert(renderings(vs.deep_view()).take(i + 1) =~= renderings(
                            vs.deep_view(),
                        ).take(i as int).push(vs@[i as int]@.rendering()));
                    }
                    i += 1;
                }
                proof {
                    assert(renderings(vs.deep_view()).take(i as int) =~= renderings(
                        vs.deep_view(),
                    ));
                }
                WhereValue::List(texts)
            },
            SlotValue::Pair(a, b) => WhereValue::Range { start: a.render(), end: b.render() },
        }
    }
}

} // verus!
