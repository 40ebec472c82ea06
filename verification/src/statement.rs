//! The statements that the storage is asked to run.

use crate::query::{ClauseView, Column, Predicate, SqlValue, Table};
use crate::update::Assignment;
use vstd::prelude::*;

verus! {

/// One request to the storage.
#[derive(Clone, Debug)]
pub enum Statement {
    /// Add one row for each entry of `rows`, which holds a value for each of
    /// `columns`, and return the rows that were added.
    Insert { table: Table, columns: Vec<Column>, rows: Vec<Vec<SqlValue>> },
    /// Return every row of the table.
    SelectAll { table: Table },
    /// Return the rows that the filter selects.
    Select { table: Table, predicate: Predicate },
    /// Apply the assignments to the rows that the filter selects, and return
    /// those rows as they are afterwards.
    Update { table: Table, assignments: Vec<Assignment>, predicate: Predicate },
    /// Remove the rows that the filter selects, and return their
    /// identifiers.
    Delete { table: Table, predicate: Predicate },
}

/// A statement as a mathematical value.
pub enum StatementView {
    Insert { table: Table, columns: Seq<Column>, rows: Seq<Seq<SqlValue>> },
    SelectAll { table: Table },
    Select { table: Table, predicate: Seq<ClauseView> },
    Update { table: Table, assignments: Seq<Assignment>, predicate: Seq<ClauseView> },
    Delete { table: Table, predicate: Seq<ClauseView> },
}

/// The rows of an insertion as sequences.
pub open spec fn rows_view(rows: Seq<Vec<SqlValue>>) -> Seq<Seq<SqlValue>> {
    Seq::new(rows.len(), |i: int| rows[i]@)
}

impl View for Statement {
    type V = StatementView;

    open spec fn view(&self) -> StatementView {
        match self {
            Statement::Insert { table, columns, rows } => StatementView::Insert {
                table: *table,
                columns: columns@,
                rows: rows_view(rows@),
            },
            Statement::SelectAll { table } => StatementView::SelectAll { table: *table },
            Statement::Select { table, predicate } => StatementView::Select {
                table: *table,
                predicate: predicate@,
            },
            Statement::Update { table, assignments, predicate } => StatementView::Update {
                table: *table,
                assignments: assignments@,
                predicate: predicate@,
            },
            Statement::Delete { table, predicate } => StatementView::Delete {
                table: *table,
                predicate: predicate@,
            },
        }
    }
}

impl StatementView {
    /// The table that the statement works on.
    pub open spec fn table(&self) -> Table {
        match self {
            StatementView::Insert { table, .. } => *table,
            StatementView::SelectAll { table } => *table,
            StatementView::Select { table, .. } => *table,
            StatementView::Update { table, .. } => *table,
            StatementView::Delete { table, .. } => *table,
        }
    }

    /// Whether running the statement can change what the table holds.
    pub open spec fn writes(&self) -> bool {
        !(self is SelectAll || self is Select)
    }
}

} // verus!
