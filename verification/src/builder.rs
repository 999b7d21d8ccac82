//! Running a builder.
//!
//! A builder is made from a shape and starts empty. Every filter call fills
//! the storage slot of its field and operation, hands the predicate on to the
//! statement, marks that a filter was given and appends one record; every
//! assignment hands the assignment on and is counted. A terminal call consumes
//! the builder and yields the statement, with or without a snapshot, or the
//! reason why the statement may not be had.

use vstd::prelude::*;
use vstd::string::*;

use crate::convert::{convert_all, convert_to_all, IntoField};
use crate::mode::Mode;
use crate::ops::OpKind;
use crate::record::{WhereParam, WhereParamView, WhereValue, WhereValueView};
use crate::statement::{
    assignments_in, filters_in, lemma_count_clause, lemma_counts_bounded, Clause, ClauseView,
    Direction, Statement, StatementView,
};
use crate::synth::{BuilderShape, BuilderShapeView, SetMethod, SetMethodView, WherePieces,
    WherePiecesView};
use crate::text::same_text;
use crate::value::{value_views, FieldValue, FieldValueView, SlotValue, SlotValueView};

verus! {

/// Why a terminal call yields no statement.
#[derive(Debug, Clone, Copy, PartialEq, Eq, Structural)]
pub enum SeaOrmBuilderError {
    /// An update or a delete was given no filter.
    NoWhere,
    /// An update was given no assignment.
    NoSet,
}

impl SeaOrmBuilderError {
    /// The message of the error.
    pub open spec fn text(self) -> Seq<char> {
        match self {
            SeaOrmBuilderError::NoWhere => "no WHERE added"@,
            SeaOrmBuilderError::NoSet => "no SET added"@,
        }
    }

    /// The message of the error.
    pub fn message(&self) -> (out: String)
        ensures
            out@ == self.text(),
    {
        match self {
            SeaOrmBuilderError::NoWhere => String::from_str("no WHERE added"),
            SeaOrmBuilderError::NoSet => String::from_str("no SET added"),
        }
    }
}

/// Why a fluent call is refused.
#[derive(Debug, Clone, Copy, PartialEq, Eq, Structural)]
pub enum CallError {
    /// The shape has no such method: the operation is not allowed for the
    /// field, the field may not be assigned, or the builder is of another kind.
    NotPermitted,
    /// The operation takes a value of another shape.
    ShapeMismatch,
    /// The value is not of the type of the field.
    TypeMismatch,
}

/// Whether a fluent call ended as the model says: with the builder that the
/// model gives, or with the reason for which the model refuses.
pub open spec fn agrees(
    model: Result<BuilderView, CallError>,
    out: Result<Builder, CallError>,
) -> bool {
    match model {
        Ok(next) => out matches Ok(got) && got@ == next,
        Err(e) => out matches Err(err) && err == e,
    }
}

/// The index of the first slot at or after `from` that belongs to the field
/// and the operation.
pub open spec fn slot_from(
    slots: Seq<WherePiecesView>,
    field: Seq<char>,
    op: OpKind,
    from: int,
) -> Option<int>
    decreases slots.len() - from,
{
    if from < 0 || from >= slots.len() {
        None
    } else if slots[from].field == field && slots[from].op == op {
        Some(from)
    } else {
        slot_from(slots, field, op, from + 1)
    }
}

/// The index of the slot of a field and an operation: the first such slot.
pub open spec fn slot_of(slots: Seq<WherePiecesView>, field: Seq<char>, op: OpKind) -> Option<int> {
    slot_from(slots, field, op, 0)
}

/// The index of the first assignment method at or after `from` that belongs
/// to the field.
pub open spec fn set_from(sets: Seq<SetMethodView>, field: Seq<char>, from: int) -> Option<int>
    decreases sets.len() - from,
{
    if from < 0 || from >= sets.len() {
        None
    } else if sets[from].field == field {
        Some(from)
    } else {
        set_from(sets, field, from + 1)
    }
}

/// The index of the assignment method of a field: the first such method.
pub open spec fn set_of(sets: Seq<SetMethodView>, field: Seq<char>) -> Option<int> {
    set_from(sets, field, 0)
}

/// Whether what a slot holds suits the slot: it has the shape of the slot's
/// operation, and every value in it is of the type of the slot's field.
pub open spec fn suits(slot: WherePiecesView, held: Option<SlotValueView>) -> bool {
    held matches Some(v) ==> v.shape() == slot.op.shape() && v.fits(slot.ty)
}

/// The mathematical value of a [`Builder`].
pub struct BuilderView {
    pub shape: BuilderShapeView,
    pub statement: StatementView,
    pub has_where: bool,
    pub set_count: nat,
    /// What each slot of the shape holds.
    pub values: Seq<Option<SlotValueView>>,
    /// One record per filter call, in call order.
    pub where_params: Seq<WhereParamView>,
}

/// The mathematical value of a [`Params`].
pub struct ParamsView {
    pub slots: Seq<WherePiecesView>,
    pub values: Seq<Option<SlotValueView>>,
    pub where_params: Seq<WhereParamView>,
}

/// What the slot of a field and an operation holds among `values`; nothing
/// where there is no such slot.
pub open spec fn held(
    slots: Seq<WherePiecesView>,
    values: Seq<Option<SlotValueView>>,
    field: Seq<char>,
    op: OpKind,
) -> Option<SlotValueView> {
    match slot_of(slots, field, op) {
        Some(i) => values[i],
        None => None,
    }
}

impl ParamsView {
    /// Every slot has its place, and holds nothing or what suits it.
    pub open spec fn wf(self) -> bool {
        &&& self.values.len() == self.slots.len()
        &&& forall|i: int|
            0 <= i < self.values.len() ==> suits(self.slots[i], #[trigger] self.values[i])
    }

    /// What the slot of a field and an operation holds.
    pub open spec fn get(self, field: Seq<char>, op: OpKind) -> Option<SlotValueView> {
        held(self.slots, self.values, field, op)
    }

    /// Whether the slot of a field and an operation is set.
    pub open spec fn is_set(self, field: Seq<char>, op: OpKind) -> bool {
        self.get(field, op) is Some
    }
}

impl BuilderView {
    /// What holds of every builder: every slot has its place and holds
    /// nothing or what suits it; the statement is of the builder's kind; a
    /// filter was given exactly if there is a record of one; and the statement
    /// holds one predicate per record and as many assignments as were counted.
    pub open spec fn wf(self) -> bool {
        &&& self.values.len() == self.shape.slots.len()
        &&& forall|i: int|
            0 <= i < self.values.len() ==> suits(self.shape.slots[i], #[trigger] self.values[i])
        &&& self.statement.kind == self.shape.mode
        &&& self.has_where == (self.where_params.len() > 0)
        &&& filters_in(self.statement.clauses) == self.where_params.len()
        &&& assignments_in(self.statement.clauses) == self.set_count
    }

    /// The builder of a shape before any call.
    pub open spec fn fresh(shape: BuilderShapeView) -> BuilderView {
        BuilderView {
            shape,
            statement: StatementView::empty(shape.mode),
            has_where: false,
            set_count: 0,
            values: Seq::new(shape.slots.len(), |i: int| None),
            where_params: Seq::empty(),
        }
    }

    /// What the slot of a field and an operation holds.
    pub open spec fn get(self, field: Seq<char>, op: OpKind) -> Option<SlotValueView> {
        held(self.shape.slots, self.values, field, op)
    }

    /// Whether the slot of a field and an operation is set.
    pub open spec fn is_set(self, field: Seq<char>, op: OpKind) -> bool {
        self.get(field, op) is Some
    }

    /// The slot that a filter call fills, or why the call is refused: the
    /// shape must have a slot for the field and the operation, the value must
    /// have the shape of the operation, and every value in it must be of the
    /// type of the field.
    pub open spec fn filter_slot(
        self,
        field: Seq<char>,
        op: OpKind,
        value: SlotValueView,
    ) -> Result<int, CallError> {
        match slot_of(self.shape.slots, field, op) {
            None => Err(CallError::NotPermitted),
            Some(i) => if value.shape() != op.shape() {
                Err(CallError::ShapeMismatch)
            } else if !value.fits(self.shape.slots[i].ty) {
                Err(CallError::TypeMismatch)
            } else {
                Ok(i)
            },
        }
    }

    /// The builder after a filter call that is recorded with `text`: the slot
    /// holds the value, whatever it held; the statement has one more
    /// predicate, on the slot's column; a filter is marked as given; and one
    /// record is appended.
    pub open spec fn filtered(
        self,
        field: Seq<char>,
        op: OpKind,
        value: SlotValueView,
        text: WhereValueView,
    ) -> Result<BuilderView, CallError> {
        match self.filter_slot(field, op, value) {
            Err(e) => Err(e),
            Ok(i) => Ok(
                BuilderView {
                    statement: self.statement.with(
                        ClauseView::Filter {
                            column: self.shape.slots[i].column,
                            op,
                            operand: value,
                        },
                    ),
                    has_where: true,
                    values: self.values.update(i, Some(value)),
                    where_params: self.where_params.push(WhereParamView { field, op, value: text }),
                    ..self
                },
            ),
        }
    }

    /// The builder after an assignment: the statement has one more
    /// assignment, to the field's column, and the count of assignments is one
    /// higher. The shape must have an assignment method for the field, and the
    /// value must be of the type of the field.
    pub open spec fn assigned(self, field: Seq<char>, value: FieldValueView) -> Result<
        BuilderView,
        CallError,
    > {
        match set_of(self.shape.set_methods, field) {
            None => Err(CallError::NotPermitted),
            Some(i) => if !value.has_type(self.shape.set_methods[i].ty) {
                Err(CallError::TypeMismatch)
            } else {
                Ok(
                    BuilderView {
                        statement: self.statement.with(
                            ClauseView::Assign { column: self.shape.set_methods[i].column, value },
                        ),
                        set_count: self.set_count + 1,
                        ..self
                    },
                )
            },
        }
    }

    /// The builder after an ordering or a bound, which only a select takes:
    /// the statement has one more clause and nothing else changes.
    pub open spec fn passed_on(self, clause: ClauseView) -> Result<BuilderView, CallError> {
        if self.shape.mode == Mode::Select && !(clause is Filter) && !(clause is Assign) {
            Ok(BuilderView { statement: self.statement.with(clause), ..self })
        } else {
            Err(CallError::NotPermitted)
        }
    }

    /// Why a terminal call yields no statement, if it yields none: an update
    /// needs an assignment, which is checked first, and a filter; a delete
    /// needs a filter; a select needs nothing.
    pub open spec fn verdict(self) -> Option<SeaOrmBuilderError> {
        match self.shape.mode {
            Mode::Select => None,
            Mode::Update => if self.set_count == 0 {
                Some(SeaOrmBuilderError::NoSet)
            } else if !self.has_where {
                Some(SeaOrmBuilderError::NoWhere)
            } else {
                None
            },
            Mode::Delete => if !self.has_where {
                Some(SeaOrmBuilderError::NoWhere)
            } else {
                None
            },
        }
    }

    /// The snapshot that a terminal call takes: the slots with what they
    /// hold, and the records.
    pub open spec fn snapshot(self) -> ParamsView {
        ParamsView {
            slots: self.shape.slots,
            values: self.values,
            where_params: self.where_params,
        }
    }
}

/// What each slot of a vector of slots holds, as mathematical values.
spec fn held_values(values: Seq<Option<SlotValue>>) -> Seq<Option<SlotValueView>> {
    Seq::new(values.len(), |i: int| values[i].deep_view())
}

/// The index of the slot of a field and an operation.
fn find_slot(slots: &Vec<WherePieces>, field: &str, op: OpKind) -> (found: Option<usize>)
    ensures
        match slot_of(slots.deep_view(), field@, op) {
            Some(i) => found == Some(i as usize) && 0 <= i < slots.len()
                && slots.deep_view()[i].field == field@ && slots.deep_view()[i].op == op,
            None => found is None,
        },
{
    let mut i: usize = 0;
    while i < slots.len()
        invariant
            i <= slots.len(),
            slot_of(slots.deep_view(), field@, op) == slot_from(
                slots.deep_view(),
                field@,
                op,
                i as int,
            ),
        decreases slots.len() - i,
    {
        if slots[i].op == op && same_text(slots[i].field.as_str(), field) {
            return Some(i);
        }
        i += 1;
    }
    None
}

/// The index of the assignment method of a field.
fn find_set(sets: &Vec<SetMethod>, field: &str) -> (found: Option<usize>)
    ensures
        match set_of(sets.deep_view(), field@) {
            Some(i) => found == Some(i as usize) && 0 <= i < sets.len(),
            None => found is None,
        },
{
    let mut i: usize = 0;
    while i < sets.len()
        invariant
            i <= sets.len(),
            set_of(sets.deep_view(), field@) == set_from(sets.deep_view(), field@, i as int),
        decreases sets.len() - i,
    {
        if same_text(sets[i].field.as_str(), field) {
            return Some(i);
        }
        i += 1;
    }
    None
}

/// A builder of one kind for one entity.
#[derive(Debug)]
pub struct Builder {
    shape: BuilderShape,
    statement: Statement,
    has_where: bool,
    set_count: usize,
    values: Vec<Option<SlotValue>>,
    where_params: Vec<WhereParam>,
}

impl View for Builder {
    type V = BuilderView;

    closed spec fn view(&self) -> BuilderView {
        BuilderView {
            shape: self.shape@,
            statement: self.statement@,
            has_where: self.has_where,
            set_count: self.set_count as nat,
            values: held_values(self.values@),
            where_params: self.where_params.deep_view(),
        }
    }
}

impl Builder {
    #[verifier::type_invariant]
    spec fn inv(self) -> bool {
        self@.wf()
    }

    /// The builder of a shape, with no slot set, no filter and no assignment.
    pub fn new(shape: BuilderShape) -> (builder: Builder)
        ensures
            builder@ == BuilderView::fresh(shape@),
            builder@.wf(),
    {
        let mut values: Vec<Option<SlotValue>> = Vec::new();
        let mut i: usize = 0;
        while i < shape.slots.len()
            invariant
                i <= shape.slots.len(),
                values.len() == i,
                forall|k: int| 0 <= k < i ==> values@[k] is None,
            decreases shape.slots.len() - i,
        {
            values.push(None);
            i += 1;
        }
        let statement = Statement::new(shape.mode);
        let where_params: Vec<WhereParam> = Vec::new();
        proof {
            assert(held_values(values@) =~= Seq::new(
                shape@.slots.len(),
                |i: int| None::<SlotValueView>,
            ));
            assert(where_params.deep_view() =~= Seq::empty());
        }
        Builder { shape, statement, has_where: false, set_count: 0, values, where_params }
    }

    /// The shape the builder was made from. Every builder is well formed.
    pub fn shape(&self) -> (shape: &BuilderShape)
        ensures
            shape@ == self@.shape,
            self@.wf(),
    {
        proof {
            use_type_invariant(self);
        }
        &self.shape
    }

    /// The statement as it stands.
    pub fn statement(&self) -> (statement: &Statement)
        ensures
            statement@ == self@.statement,
    {
        &self.statement
    }

    /// Whether a filter was given.
    pub fn has_where(&self) -> (given: bool)
        ensures
            given == self@.has_where,
    {
        self.has_where
    }

    /// How many assignments were given.
    pub fn set_count(&self) -> (count: usize)
        ensures
            count == self@.set_count,
    {
        self.set_count
    }

    /// The records of the filter calls so far, in call order.
    pub fn where_params(&self) -> (records: &Vec<WhereParam>)
        ensures
            records.deep_view() == self@.where_params,
            records.len() == self@.where_params.len(),
    {
        &self.where_params
    }

    /// Whether the slot of a field and an operation is set. A field and an
    /// operation without a slot count as not set.
    pub fn is_set(&self, field: &str, op: OpKind) -> (set: bool)
        ensures
            set == self@.is_set(field@, op),
    {
        proof {
            use_type_invariant(self);
        }
        match find_slot(&self.shape.slots, field, op) {
            Some(i) => self.values[i].is_some(),
            None => false,
        }
    }

    /// What the slot of a field and an operation holds, if it is set.
    pub fn get(&self, field: &str, op: OpKind) -> (value: Option<&SlotValue>)
        ensures
            value.deep_view() == self@.get(field@, op),
    {
        proof {
            use_type_invariant(self);
        }
        match find_slot(&self.shape.slots, field, op) {
            Some(i) => self.values[i].as_ref(),
            None => None,
        }
    }

    /// A filter call whose record holds `text` in place of the rendering of
    /// the value.
    ///
    /// The call is refused, and the builder lost, where the shape has no slot
    /// for the field and the operation, where the value has not the shape of
    /// the operation, and where a value in it is not of the type of the field.
    pub fn filter_recorded(
        self,
        field: &str,
        op: OpKind,
        value: SlotValue,
        text: WhereValue,
    ) -> (out: Result<Builder, CallError>)
        ensures
            match self@.filtered(field@, op, value@, text@) {
                Ok(next) => out matches Ok(got) && got@ == next,
                Err(e) => out matches Err(err) && err == e,
            },
    {
        proof {
            use_type_invariant(&self);
        }
        let i = match find_slot(&self.shape.slots, field, op) {
            Some(i) => i,
            None => {
                return Err(CallError::NotPermitted);
            },
        };
        if value.shape() != op.value_shape() {
            return Err(CallError::ShapeMismatch);
        }
        if !value.fits(self.shape.slots[i].ty.as_str()) {
            return Err(CallError::TypeMismatch);
        }
        let column = self.shape.slots[i].column.clone();
        let stored = value.duplicate();
        let record = WhereParam { field: String::from_str(field), op, value: text };
        let Builder { shape, statement, has_where, set_count, values, where_params } = self;
        let mut values = values;
        let mut where_params = where_params;
        let ghost values_before = values@;
        values.set(i, Some(stored));
        where_params.push(record);
        proof {
            lemma_count_clause(
                statement@.clauses,
                ClauseView::Filter { column: column@, op, operand: value@ },
            );
        }
        let statement = statement.push(Clause::Filter { column, op, operand: value });
        proof {
            assert(held_values(values@) =~= held_values(values_before).update(
                i as int,
                Some(value@),
            ));
            assert(where_params.deep_view() =~= self@.where_params.push(record@));
            assert forall|k: int| 0 <= k < values.len() implies suits(
                shape@.slots[k],
                #[trigger] held_values(values@)[k],
            ) by {
                if k != i {
                    assert(held_values(values@)[k] == self@.values[k]);
                }
            }
        }
        Ok(Builder { shape, statement, has_where: true, set_count, values, where_params })
    }

    /// A filter call: fills the slot of the field and the operation with the
    /// value, whatever the slot held; hands the predicate on to the statement;
    /// marks that a filter was given; and appends one record, which holds the
    /// value rendered as text.
    ///
    /// The call is refused, and the builder lost, where the shape has no slot
    /// for the field and the operation, where the value has not the shape of
    /// the operation, and where a value in it is not of the type of the field.
    pub fn filter(self, field: &str, op: OpKind, value: SlotValue) -> (out: Result<
        Builder,
        CallError,
    >)
        ensures
            match self@.filtered(field@, op, value@, value@.rendering()) {
                Ok(next) => out matches Ok(got) && got@ == next,
                Err(e) => out matches Err(err) && err == e,
            },
    {
        let text = value.render();
        self.filter_recorded(field, op, value, text)
    }

    /// A filter call with one value: for `eq`, `ne`, `lt`, `lte`, `gt`, `gte`,
    /// `like` and `ilike`. The value is converted, and the call is the filter
    /// call with what it converts to.
    pub fn scalar<V: IntoField<FieldValue>>(self, field: &str, op: OpKind, v: V) -> (out: Result<
        Builder,
        CallError,
    >)
        ensures
            exists|value: FieldValue| #[trigger]
                v.converts_to(value) && agrees(
                    self@.filtered(
                        field@,
                        op,
                        SlotValueView::Scalar(value@),
                        SlotValueView::Scalar(value@).rendering(),
                    ),
                    out,
                ),
    {
        let value = v.into_field();
        let ghost witness = value;
        let out = self.filter(field, op, SlotValue::Scalar(value));
        proof {
            assert(v.converts_to(witness));
        }
        out
    }

    /// A filter call with a list of values: for `in` and `not_in`. Each value
    /// is converted, and the call is the filter call with the list of what
    /// they convert to, in order.
    pub fn list<V: IntoField<FieldValue>>(self, field: &str, op: OpKind, values: Vec<V>) -> (out:
        Result<Builder, CallError>)
        ensures
            exists|converted: Seq<FieldValue>| #[trigger]
                convert_to_all(values@, converted) && agrees(
                    self@.filtered(
                        field@,
                        op,
                        SlotValueView::List(value_views(converted)),
                        SlotValueView::List(value_views(converted)).rendering(),
                    ),
                    out,
                ),
    {
        let converted = convert_all(values);
        let ghost witness = converted@;
        proof {
            assert(converted.deep_view() =~= value_views(witness));
        }
        let out = self.filter(field, op, SlotValue::List(converted));
        proof {
            assert(convert_to_all(values@, witness));
        }
        out
    }

    /// A range filter: keeps the two ends in the order given. The ends are
    /// converted, and the call is the `between` filter call with the pair of
    /// what they convert to.
    pub fn between<A: IntoField<FieldValue>, B: IntoField<FieldValue>>(
        self,
        field: &str,
        a: A,
        b: B,
    ) -> (out: Result<Builder, CallError>)
        ensures
            exists|low: FieldValue, high: FieldValue|
                #![trigger a.converts_to(low), b.converts_to(high)]
                a.converts_to(low) && b.converts_to(high) && agrees(
                    self@.filtered(
                        field@,
                        OpKind::Between,
                        SlotValueView::Pair(low@, high@),
                        SlotValueView::Pair(low@, high@).rendering(),
                    ),
                    out,
                ),
    {
        let low = a.into_field();
        let high = b.into_field();
        let ghost first = low;
        let ghost second = high;
        let out = self.filter(field, OpKind::Between, SlotValue::Pair(low, high));
        proof {
            assert(a.converts_to(first) && b.converts_to(second));
        }
        out
    }

    /// An assignment of what a value converts to.
    pub fn set<V: IntoField<FieldValue>>(self, field: &str, v: V) -> (out: Result<
        Builder,
        CallError,
    >)
        ensures
            exists|value: FieldValue| #[trigger]
                v.converts_to(value) && agrees(self@.assigned(field@, value@), out),
    {
        let value = v.into_field();
        let ghost witness = value;
        let out = self.assign(field, value);
        proof {
            assert(v.converts_to(witness));
        }
        out
    }

    /// An assignment: hands the assignment on to the statement and counts it.
    /// It neither marks a filter as given nor appends a record.
    ///
    /// The call is refused, and the builder lost, where the shape has no
    /// assignment method for the field, and where the value is not of the type
    /// of the field.
    pub fn assign(self, field: &str, value: FieldValue) -> (out: Result<Builder, CallError>)
        ensures
            agrees(self@.assigned(field@, value@), out),
    {
        proof {
            use_type_invariant(&self);
        }
        let i = match find_set(&self.shape.set_methods, field) {
            Some(i) => i,
            None => {
                return Err(CallError::NotPermitted);
            },
        };
        if !value.has_type(self.shape.set_methods[i].ty.as_str()) {
            return Err(CallError::TypeMismatch);
        }
        let column = self.shape.set_methods[i].column.clone();
        let Builder { shape, statement, has_where, set_count, values, where_params } = self;
        proof {
            lemma_count_clause(
                statement@.clauses,
                ClauseView::Assign { column: column@, value: value@ },
            );
        }
        let statement = statement.push(Clause::Assign { column, value });
        proof {
            // The count is the number of assignments in the statement, and a
            // statement holds no more clauses than a machine integer counts.
            lemma_counts_bounded(statement@.clauses);
            assert(statement.clauses.len() <= usize::MAX);
            assert(statement@.clauses.len() == statement.clauses@.len());
        }
        Ok(
            Builder {
                shape,
                statement,
                has_where,
                set_count: set_count + 1,
                values,
                where_params,
            },
        )
    }

    /// Hands an ordering or a bound, which only a select takes, on to the
    /// statement.
    fn pass_on(self, clause: Clause) -> (out: Result<Builder, CallError>)
        requires
            !(clause@ is Filter),
            !(clause@ is Assign),
        ensures
            match self@.passed_on(clause@) {
                Ok(next) => out matches Ok(got) && got@ == next,
                Err(e) => out matches Err(err) && err == e,
            },
    {
        proof {
            use_type_invariant(&self);
        }
        match self.shape.mode {
            Mode::Select => {
                let Builder { shape, statement, has_where, set_count, values, where_params } = self;
                proof {
                    lemma_count_clause(statement@.clauses, clause@);
                }
                let statement = statement.push(clause);
                Ok(Builder { shape, statement, has_where, set_count, values, where_params })
            },
            _ => Err(CallError::NotPermitted),
        }
    }

    /// Orders a select by a column, ascending. Any other kind refuses.
    pub fn order_by_asc(self, column: &str) -> (out: Result<Builder, CallError>)
        ensures
            match self@.passed_on(
                ClauseView::OrderBy { column: column@, direction: Direction::Asc },
            ) {
                Ok(next) => out matches Ok(got) && got@ == next,
                Err(e) => out matches Err(err) && err == e,
            },
    {
        self.pass_on(
            Clause::OrderBy { column: String::from_str(column), direction: Direction::Asc },
        )
    }

    /// Orders a select by a column, descending. Any other kind refuses.
    pub fn order_by_desc(self, column: &str) -> (out: Result<Builder, CallError>)
        ensures
            match self@.passed_on(
                ClauseView::OrderBy { column: column@, direction: Direction::Desc },
            ) {
                Ok(next) => out matches Ok(got) && got@ == next,
                Err(e) => out matches Err(err) && err == e,
            },
    {
        self.pass_on(
            Clause::OrderBy { column: String::from_str(column), direction: Direction::Desc },
        )
    }

    /// Bounds the number of rows of a select. Any other kind refuses.
    pub fn limit(self, limit: u64) -> (out: Result<Builder, CallError>)
        ensures
            match self@.passed_on(ClauseView::Limit(limit)) {
                Ok(next) => out matches Ok(got) && got@ == next,
                Err(e) => out matches Err(err) && err == e,
            },
    {
        self.pass_on(Clause::Limit(limit))
    }

    /// Skips rows of a select. Any other kind refuses.
    pub fn offset(self, offset: u64) -> (out: Result<Builder, CallError>)
        ensures
            match self@.passed_on(ClauseView::Offset(offset)) {
                Ok(next) => out matches Ok(got) && got@ == next,
                Err(e) => out matches Err(err) && err == e,
            },
    {
        self.pass_on(Clause::Offset(offset))
    }

    /// Finishes the builder and yields its statement.
    ///
    /// A select always yields it. An update yields `NoSet` where no
    /// assignment was given, else `NoWhere` where no filter was given. A
    /// delete yields `NoWhere` where no filter was given.
    pub fn build(self) -> (out: Result<Statement, SeaOrmBuilderError>)
        ensures
            match self@.verdict() {
                Some(e) => out == Err::<Statement, SeaOrmBuilderError>(e),
                None => out matches Ok(statement) && statement@ == self@.statement
                    && statement@.constrained(),
            },
    {
        proof {
            use_type_invariant(&self);
        }
        match self.shape.mode {
            Mode::Select => {},
            Mode::Update => {
                if self.set_count == 0 {
                    return Err(SeaOrmBuilderError::NoSet);
                }
                if !self.has_where {
                    return Err(SeaOrmBuilderError::NoWhere);
                }
            },
            Mode::Delete => {
                if !self.has_where {
                    return Err(SeaOrmBuilderError::NoWhere);
                }
            },
        }
        Ok(self.statement)
    }

    /// Finishes the builder and yields its statement together with a
    /// snapshot of the slots and the records. It fails exactly where `build`
    /// fails, with the same error.
    pub fn build_with_params(self) -> (out: Result<(Statement, Params), SeaOrmBuilderError>)
        ensures
            match self@.verdict() {
                Some(e) => out == Err::<(Statement, Params), SeaOrmBuilderError>(e),
                None => out matches Ok((statement, params)) && statement@ == self@.statement
                    && statement@.constrained() && params@ == self@.snapshot(),
            },
    {
        proof {
            use_type_invariant(&self);
        }
        match self.shape.mode {
            Mode::Select => {},
            Mode::Update => {
                if self.set_count == 0 {
                    return Err(SeaOrmBuilderError::NoSet);
                }
                if !self.has_where {
                    return Err(SeaOrmBuilderError::NoWhere);
                }
            },
            Mode::Delete => {
                if !self.has_where {
                    return Err(SeaOrmBuilderError::NoWhere);
                }
            },
        }
        let Builder { shape, statement, has_where, set_count, values, where_params } = self;
        let p = Params { slots: shape.slots, values, where_params };
        Ok((statement, p))
    }
}

/// What a builder held when it was finished: its slots and its records.
#[derive(Debug)]
pub struct Params {
    slots: Vec<WherePieces>,
    values: Vec<Option<SlotValue>>,
    where_params: Vec<WhereParam>,
}

impl View for Params {
    type V = ParamsView;

    closed spec fn view(&self) -> ParamsView {
        ParamsView {
            slots: self.slots.deep_view(),
            values: held_values(self.values@),
            where_params: self.where_params.deep_view(),
        }
    }
}

impl Params {
    #[verifier::type_invariant]
    spec fn inv(self) -> bool {
        self@.wf()
    }

    /// The records of the filter calls, in call order.
    pub fn where_params(&self) -> (records: &Vec<WhereParam>)
        ensures
            records.deep_view() == self@.where_params,
            records.len() == self@.where_params.len(),
    {
        &self.where_params
    }

    /// Whether the slot of a field and an operation was set.
    pub fn is_set(&self, field: &str, op: OpKind) -> (set: bool)
        ensures
            set == self@.is_set(field@, op),
    {
        proof {
            use_type_invariant(self);
        }
        match find_slot(&self.slots, field, op) {
            Some(i) => self.values[i].is_some(),
            None => false,
        }
    }

    /// What the slot of a field and an operation held, if it was set.
    pub fn get(&self, field: &str, op: OpKind) -> (value: Option<&SlotValue>)
        ensures
            value.deep_view() == self@.get(field@, op),
    {
        proof {
            use_type_invariant(self);
        }
        match find_slot(&self.slots, field, op) {
            Some(i) => self.values[i].as_ref(),
            None => None,
        }
    }
}

} // verus!
