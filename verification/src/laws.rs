//! What holds of every builder, whatever calls made it.
//!
//! The laws speak of the mathematical values of builders and of sequences of
//! calls. A builder that the library hands out has a value that is well
//! formed, and every call of the library takes the step that the laws name.

use vstd::prelude::*;

use crate::builder::{slot_from, slot_of, suits, set_of, BuilderView, CallError, SeaOrmBuilderError};
use crate::mode::Mode;
use crate::ops::OpKind;
use crate::record::{WhereParamView, WhereValueView};
use crate::statement::{lemma_count_clause, ClauseView};
use crate::synth::{BuilderShapeView, WherePiecesView};
use crate::value::{FieldValueView, SlotValueView};

verus! {

/// A slot that is found belongs to the field and the operation asked for, and
/// no earlier slot does; where none is found, no slot does.
pub proof fn lemma_slot_from(slots: Seq<WherePiecesView>, field: Seq<char>, op: OpKind, from: int)
    requires
        0 <= from,
    ensures
        match slot_from(slots, field, op, from) {
            Some(i) => from <= i < slots.len() && slots[i].field == field && slots[i].op == op
                && forall|k: int|
                from <= k < i ==> !(#[trigger] slots[k].field == field && slots[k].op == op),
            None => forall|k: int|
                from <= k < slots.len() ==> !(#[trigger] slots[k].field == field && slots[k].op
                    == op),
        },
    decreases slots.len() - from,
{
    if from < slots.len() && !(slots[from].field == field && slots[from].op == op) {
        lemma_slot_from(slots, field, op, from + 1);
    }
}

/// A filter call is accepted exactly where the shape has a slot for the
/// field and the operation, the value has the operation's shape, and every
/// value in it is of the type of the slot's field.
pub proof fn law_filter_accepted_iff_permitted(
    b: BuilderView,
    field: Seq<char>,
    op: OpKind,
    value: SlotValueView,
    text: WhereValueView,
)
    ensures
        b.filtered(field, op, value, text) is Ok <==> (slot_of(
            b.shape.slots,
            field,
            op,
        ) matches Some(i) && value.shape() == op.shape() && value.fits(b.shape.slots[i].ty)),
{
}

/// An accepted filter call leaves a well-formed builder well formed.
pub proof fn law_filter_keeps_wf(
    b: BuilderView,
    field: Seq<char>,
    op: OpKind,
    value: SlotValueView,
    text: WhereValueView,
)
    requires
        b.wf(),
        b.filtered(field, op, value, text) is Ok,
    ensures
        b.filtered(field, op, value, text)->Ok_0.wf(),
{
    lemma_slot_from(b.shape.slots, field, op, 0);
    let next = b.filtered(field, op, value, text)->Ok_0;
    let i = slot_of(b.shape.slots, field, op)->0;
    lemma_count_clause(
        b.statement.clauses,
        ClauseView::Filter { column: b.shape.slots[i].column, op, operand: value },
    );
    assert forall|k: int| 0 <= k < next.values.len() implies suits(
        next.shape.slots[k],
        #[trigger] next.values[k],
    ) by {
        if k != i {
            assert(next.values[k] == b.values[k]);
        }
    }
}

/// Last write wins: after an accepted filter call the slot of its field and
/// operation is set and holds the value passed, whatever it held before, and
/// every other slot holds what it held.
pub proof fn law_last_write_wins(
    b: BuilderView,
    field: Seq<char>,
    op: OpKind,
    value: SlotValueView,
    text: WhereValueView,
)
    requires
        b.wf(),
        b.filtered(field, op, value, text) is Ok,
    ensures
        ({
            let next = b.filtered(field, op, value, text)->Ok_0;
            &&& next.is_set(field, op)
            &&& next.get(field, op) == Some(value)
            &&& forall|f: Seq<char>, o: OpKind|
                !(f == field && o == op) ==> #[trigger] next.get(f, o) == b.get(f, o)
        }),
{
    lemma_slot_from(b.shape.slots, field, op, 0);
    let next = b.filtered(field, op, value, text)->Ok_0;
    assert forall|f: Seq<char>, o: OpKind| !(f == field && o == op) implies #[trigger] next.get(
        f,
        o,
    ) == b.get(f, o) by {
        lemma_slot_from(b.shape.slots, f, o, 0);
    }
}

/// A second accepted filter call on the same field and operation replaces
/// what the first stored: the slot holds the second value alone.
pub proof fn law_repeated_filter_overwrites(
    b: BuilderView,
    field: Seq<char>,
    op: OpKind,
    first: SlotValueView,
    second: SlotValueView,
)
    requires
        b.wf(),
        b.filtered(field, op, first, first.rendering()) is Ok,
        b.filtered(field, op, first, first.rendering())->Ok_0.filtered(
            field,
            op,
            second,
            second.rendering(),
        ) is Ok,
    ensures
        ({
            let end = b.filtered(field, op, first, first.rendering())->Ok_0.filtered(
                field,
                op,
                second,
                second.rendering(),
            )->Ok_0;
            &&& end.get(field, op) == Some(second)
            &&& end.where_params.len() == b.where_params.len() + 2
        }),
{
    let mid = b.filtered(field, op, first, first.rendering())->Ok_0;
    law_filter_keeps_wf(b, field, op, first, first.rendering());
    law_last_write_wins(mid, field, op, second, second.rendering());
}

/// A range filter keeps its two ends in the order given: the slot holds the
/// pair as passed, and the record holds the renderings of the first and the
/// second end as start and end, whichever is greater.
pub proof fn law_between_keeps_order(
    b: BuilderView,
    field: Seq<char>,
    low: FieldValueView,
    high: FieldValueView,
)
    requires
        b.wf(),
        b.filtered(
            field,
            OpKind::Between,
            SlotValueView::Pair(low, high),
            SlotValueView::Pair(low, high).rendering(),
        ) is Ok,
    ensures
        ({
            let next = b.filtered(
                field,
                OpKind::Between,
                SlotValueView::Pair(low, high),
                SlotValueView::Pair(low, high).rendering(),
            )->Ok_0;
            &&& next.get(field, OpKind::Between) == Some(SlotValueView::Pair(low, high))
            &&& next.where_params.last().value == WhereValueView::Range {
                start: low.rendering(),
                end: high.rendering(),
            }
        }),
{
    law_last_write_wins(
        b,
        field,
        OpKind::Between,
        SlotValueView::Pair(low, high),
        SlotValueView::Pair(low, high).rendering(),
    );
}

/// One fluent call, as a value.
pub enum Call {
    /// A filter on a field, with an operation and a value.
    Filter { field: Seq<char>, op: OpKind, operand: SlotValueView },
    /// An assignment to a field.
    Assign { field: Seq<char>, value: FieldValueView },
    /// An ordering or a bound, handed on as it is.
    Pass { clause: ClauseView },
}

impl Call {
    /// The builder after this call, or why the call is refused.
    pub open spec fn step(self, b: BuilderView) -> Result<BuilderView, CallError> {
        match self {
            Call::Filter { field, op, operand } => b.filtered(
                field,
                op,
                operand,
                operand.rendering(),
            ),
            Call::Assign { field, value } => b.assigned(field, value),
            Call::Pass { clause } => b.passed_on(clause),
        }
    }

    /// The record that this call appends, if it is a filter.
    pub open spec fn record(self) -> Option<WhereParamView> {
        match self {
            Call::Filter { field, op, operand } => Some(
                WhereParamView { field, op, value: operand.rendering() },
            ),
            _ => None,
        }
    }
}

/// The builder after a sequence of calls, first to last, or the reason why
/// the first refused call is refused.
pub open spec fn after_calls(b: BuilderView, calls: Seq<Call>) -> Result<BuilderView, CallError>
    decreases calls.len(),
{
    if calls.len() == 0 {
        Ok(b)
    } else {
        match after_calls(b, calls.drop_last()) {
            Err(e) => Err(e),
            Ok(mid) => calls.last().step(mid),
        }
    }
}

/// The records that the filters among a sequence of calls append, in call
/// order.
pub open spec fn records_of(calls: Seq<Call>) -> Seq<WhereParamView>
    decreases calls.len(),
{
    if calls.len() == 0 {
        Seq::empty()
    } else {
        match calls.last().record() {
            Some(r) => records_of(calls.drop_last()).push(r),
            None => records_of(calls.drop_last()),
        }
    }
}

/// How many of the calls are filters.
pub open spec fn filter_count(calls: Seq<Call>) -> nat
    decreases calls.len(),
{
    if calls.len() == 0 {
        0
    } else if calls.last() is Filter {
        filter_count(calls.drop_last()) + 1
    } else {
        filter_count(calls.drop_last())
    }
}

/// How many of the calls are assignments.
pub open spec fn assign_count(calls: Seq<Call>) -> nat
    decreases calls.len(),
{
    if calls.len() == 0 {
        0
    } else if calls.last() is Assign {
        assign_count(calls.drop_last()) + 1
    } else {
        assign_count(calls.drop_last())
    }
}

/// An accepted call leaves a well-formed builder well formed, of the same
/// shape.
pub proof fn law_call_keeps_wf(b: BuilderView, call: Call)
    requires
        b.wf(),
        call.step(b) is Ok,
    ensures
        call.step(b)->Ok_0.wf(),
        call.step(b)->Ok_0.shape == b.shape,
{
    match call {
        Call::Filter { field, op, operand } => {
            law_filter_keeps_wf(b, field, op, operand, operand.rendering());
        },
        Call::Assign { field, value } => {
            let i = set_of(b.shape.set_methods, field)->0;
            lemma_count_clause(
                b.statement.clauses,
                ClauseView::Assign { column: b.shape.set_methods[i].column, value },
            );
        },
        Call::Pass { clause } => {
            lemma_count_clause(b.statement.clauses, clause);
        },
    }
}

/// The records follow the filter calls: after a sequence of accepted calls the
/// builder holds the records it held, then one record per filter call, in call
/// order, whether or not a later call overwrote the slot of an earlier one.
/// Assignments are counted one by one and add no record.
pub proof fn law_records_follow_calls(b: BuilderView, calls: Seq<Call>)
    requires
        b.wf(),
        after_calls(b, calls) is Ok,
    ensures
        ({
            let end = after_calls(b, calls)->Ok_0;
            &&& end.wf()
            &&& end.shape == b.shape
            &&& end.where_params == b.where_params + records_of(calls)
            &&& records_of(calls).len() == filter_count(calls)
            &&& end.where_params.len() == b.where_params.len() + filter_count(calls)
            &&& end.set_count == b.set_count + assign_count(calls)
            &&& end.statement.clauses.len() == b.statement.clauses.len() + calls.len()
        }),
    decreases calls.len(),
{
    if calls.len() == 0 {
        assert(b.where_params + records_of(calls) =~= b.where_params);
    } else {
        law_records_follow_calls(b, calls.drop_last());
        let mid = after_calls(b, calls.drop_last())->Ok_0;
        law_call_keeps_wf(mid, calls.last());
        let end = after_calls(b, calls)->Ok_0;
        assert(end.where_params =~= b.where_params + records_of(calls));
    }
}

/// From a fresh builder, the number of records is the number of filter calls
/// made, and a filter is marked as given exactly if one was made.
pub proof fn law_record_count(shape: BuilderShapeView, calls: Seq<Call>)
    requires
        after_calls(BuilderView::fresh(shape), calls) is Ok,
    ensures
        ({
            let end = after_calls(BuilderView::fresh(shape), calls)->Ok_0;
            &&& end.wf()
            &&& end.shape == shape
            &&& end.where_params == records_of(calls)
            &&& end.where_params.len() == filter_count(calls)
            &&& end.has_where == (filter_count(calls) > 0)
            &&& end.set_count == assign_count(calls)
        }),
{
    law_fresh_is_wf(shape);
    law_records_follow_calls(BuilderView::fresh(shape), calls);
    let end = after_calls(BuilderView::fresh(shape), calls)->Ok_0;
    assert(end.where_params =~= records_of(calls));
}

/// A fresh builder is well formed, has no slot set and no record.
pub proof fn law_fresh_is_wf(shape: BuilderShapeView)
    ensures
        BuilderView::fresh(shape).wf(),
        forall|field: Seq<char>, op: OpKind|
            !(#[trigger] BuilderView::fresh(shape).is_set(field, op)),
{
    assert forall|field: Seq<char>, op: OpKind| !(#[trigger] BuilderView::fresh(shape).is_set(
        field,
        op,
    )) by {
        lemma_slot_from(shape.slots, field, op, 0);
    }
}

/// An update builder may be finished exactly if an assignment and a filter
/// were given: with no assignment the answer is `NoSet`, whether or not a
/// filter was given; with an assignment and no filter it is `NoWhere`.
pub proof fn law_update_needs_set_and_where(shape: BuilderShapeView, calls: Seq<Call>)
    requires
        shape.mode == Mode::Update,
        after_calls(BuilderView::fresh(shape), calls) is Ok,
    ensures
        ({
            let end = after_calls(BuilderView::fresh(shape), calls)->Ok_0;
            end.verdict() == if assign_count(calls) == 0 {
                Some(SeaOrmBuilderError::NoSet)
            } else if filter_count(calls) == 0 {
                Some(SeaOrmBuilderError::NoWhere)
            } else {
                None
            }
        }),
{
    law_record_count(shape, calls);
}

/// A delete builder may be finished exactly if a filter was given: with none
/// the answer is `NoWhere`.
pub proof fn law_delete_needs_where(shape: BuilderShapeView, calls: Seq<Call>)
    requires
        shape.mode == Mode::Delete,
        after_calls(BuilderView::fresh(shape), calls) is Ok,
    ensures
        ({
            let end = after_calls(BuilderView::fresh(shape), calls)->Ok_0;
            end.verdict() == if filter_count(calls) == 0 {
                Some(SeaOrmBuilderError::NoWhere)
            } else {
                None
            }
        }),
{
    law_record_count(shape, calls);
}

/// A snapshot reads what the builder read: every slot is set in the snapshot
/// exactly if it was set in the builder, and holds the same value; the records
/// are the same.
pub proof fn law_snapshot_reads_the_same(b: BuilderView, field: Seq<char>, op: OpKind)
    ensures
        b.snapshot().is_set(field, op) == b.is_set(field, op),
        b.snapshot().get(field, op) == b.get(field, op),
        b.snapshot().where_params == b.where_params,
        b.wf() ==> b.snapshot().wf(),
{
}

/// No unconstrained bulk operation: the statement that an update or a delete
/// builder yields holds a predicate, and that of an update an assignment as
/// well.
pub proof fn law_bulk_statement_is_constrained(b: BuilderView)
    requires
        b.wf(),
        b.verdict() is None,
    ensures
        b.statement.constrained(),
{
}

/// A select builder may always be finished, with or without filters.
pub proof fn law_select_never_fails(b: BuilderView)
    requires
        b.shape.mode == Mode::Select,
    ensures
        b.verdict() is None,
{
}

} // verus!
