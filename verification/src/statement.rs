//! The statement a builder accumulates.
//!
//! A builder does not run or print a query. It hands every predicate,
//! assignment, ordering and bound on, in call order, as a clause of a
//! statement, which the caller gives to the query layer.

use vstd::prelude::*;

use crate::mode::Mode;
use crate::ops::OpKind;
use crate::value::{FieldValue, FieldValueView, SlotValue, SlotValueView};

verus! {

/// The direction of an ordering.
#[derive(Clone, Copy, Debug, PartialEq, Eq, Structural, Hash)]
pub enum Direction {
    Asc,
    Desc,
}

/// One thing asked of the query layer.
#[derive(Clone, Debug, PartialEq, Eq)]
pub enum Clause {
    /// Keep the rows whose column stands in the relation `op` to `operand`.
    Filter { column: String, op: OpKind, operand: SlotValue },
    /// Assign `value` to the column.
    Assign { column: String, value: FieldValue },
    /// Order the rows by the column.
    OrderBy { column: String, direction: Direction },
    /// Return at most this many rows.
    Limit(u64),
    /// Skip this many rows.
    Offset(u64),
}

/// The mathematical value of a [`Clause`].
pub enum ClauseView {
    Filter { column: Seq<char>, op: OpKind, operand: SlotValueView },
    Assign { column: Seq<char>, value: FieldValueView },
    OrderBy { column: Seq<char>, direction: Direction },
    Limit(u64),
    Offset(u64),
}

impl View for Clause {
    type V = ClauseView;

    open spec fn view(&self) -> ClauseView {
        match *self {
            Clause::Filter { column, op, operand } => ClauseView::Filter {
                column: column@,
                op,
                operand: operand@,
            },
            Clause::Assign { column, value } => ClauseView::Assign {
                column: column@,
                value: value@,
            },
            Clause::OrderBy { column, direction } => ClauseView::OrderBy {
                column: column@,
                direction,
            },
            Clause::Limit(n) => ClauseView::Limit(n),
            Clause::Offset(n) => ClauseView::Offset(n),
        }
    }
}

impl DeepView for Clause {
    type V = ClauseView;

    open spec fn deep_view(&self) -> ClauseView {
        self@
    }
}

/// A select, update or delete statement: its kind and its clauses in the
/// order in which they were added.
#[derive(Clone, Debug, PartialEq, Eq)]
pub struct Statement {
    pub kind: Mode,
    pub clauses: Vec<Clause>,
}

/// The mathematical value of a [`Statement`].
pub struct StatementView {
    pub kind: Mode,
    pub clauses: Seq<ClauseView>,
}

impl View for Statement {
    type V = StatementView;

    open spec fn view(&self) -> StatementView {
        StatementView { kind: self.kind, clauses: self.clauses.deep_view() }
    }
}

/// How many of the clauses are predicates.
pub open spec fn filters_in(clauses: Seq<ClauseView>) -> nat
    decreases clauses.len(),
{
    if clauses.len() == 0 {
        0
    } else if clauses.last() is Filter {
        filters_in(clauses.drop_last()) + 1
    } else {
        filters_in(clauses.drop_last())
    }
}

/// How many of the clauses are assignments.
pub open spec fn assignments_in(clauses: Seq<ClauseView>) -> nat
    decreases clauses.len(),
{
    if clauses.len() == 0 {
        0
    } else if clauses.last() is Assign {
        assignments_in(clauses.drop_last()) + 1
    } else {
        assignments_in(clauses.drop_last())
    }
}

/// One more clause counts as what it is.
pub proof fn lemma_count_clause(clauses: Seq<ClauseView>, clause: ClauseView)
    ensures
        filters_in(clauses.push(clause)) == filters_in(clauses) + if clause is Filter {
            1nat
        } else {
            0nat
        },
        assignments_in(clauses.push(clause)) == assignments_in(clauses) + if clause is Assign {
            1nat
        } else {
            0nat
        },
{
    assert(clauses.push(clause).drop_last() =~= clauses);
}

/// There are no more predicates and no more assignments than clauses.
pub proof fn lemma_counts_bounded(clauses: Seq<ClauseView>)
    ensures
        filters_in(clauses) + assignments_in(clauses) <= clauses.len(),
    decreases clauses.len(),
{
    if clauses.len() > 0 {
        lemma_counts_bounded(clauses.drop_last());
    }
}

impl StatementView {
    /// Whether the statement is no unconstrained bulk operation: an update
    /// or a delete holds a predicate, and an update an assignment as well.
    pub open spec fn constrained(self) -> bool {
        &&& self.kind != Mode::Select ==> filters_in(self.clauses) > 0
        &&& self.kind == Mode::Update ==> assignments_in(self.clauses) > 0
    }

    /// The statement of `kind` with no clause yet.
    pub open spec fn empty(kind: Mode) -> StatementView {
        StatementView { kind, clauses: Seq::empty() }
    }

    /// This statement with one more clause at its end.
    pub open spec fn with(self, clause: ClauseView) -> StatementView {
        StatementView { kind: self.kind, clauses: self.clauses.push(clause) }
    }
}

impl Statement {
    /// The statement of `kind` with no clause yet.
    pub fn new(kind: Mode) -> (statement: Statement)
        ensures
            statement@ == StatementView::empty(kind),
    {
        let statement = Statement { kind, clauses: Vec::new() };
        assert(statement.clauses.deep_view() =~= Seq::empty());
        statement
    }

    /// Adds a clause at the end.
    pub fn push(self, clause: Clause) -> (statement: Statement)
        ensures
            statement@ == self@.with(clause@),
    {
        let mut statement = self;
        statement.clauses.push(clause);
        assert(statement.clauses.deep_view() =~= self.clauses.deep_view().push(clause@));
        statement
    }
}

} // verus!
