//! Statements as SQL text.
//!
//! No value of a request ever becomes part of the text: every value stands
//! in the text as a `?`, and is handed to the storage beside it, in the
//! order of the marks.

use crate::query::{Clause, ClauseView, Column, Predicate, SqlValue};
use crate::statement::{rows_view, Statement, StatementView};
use crate::update::Assignment;
use vstd::prelude::*;
use vstd::string::*;

verus! {

/// A statement as the storage takes it: the text, and the values that take
/// the places of its `?` marks, in their order.
#[derive(Clone, Debug)]
pub struct Query {
    pub sql: String,
    pub binds: Vec<SqlValue>,
}

/// The parts one after the other, with the separator between each two.
pub open spec fn joined(parts: Seq<Seq<char>>, separator: Seq<char>) -> Seq<char>
    decreases parts.len(),
{
    if parts.len() == 0 {
        Seq::empty()
    } else if parts.len() == 1 {
        parts[0]
    } else {
        joined(parts.drop_last(), separator) + separator + parts.last()
    }
}

/// The sequences one after the other.
pub open spec fn flattened<A>(parts: Seq<Seq<A>>) -> Seq<A>
    decreases parts.len(),
{
    if parts.len() == 0 {
        Seq::empty()
    } else {
        flattened(parts.drop_last()) + parts.last()
    }
}

/// As many `?` marks as there are values, with commas between them.
pub open spec fn marks(n: nat) -> Seq<char> {
    joined(Seq::new(n, |i: int| "?"@), ", "@)
}

/// The identifiers as values.
pub open spec fn integers(ids: Seq<i32>) -> Seq<SqlValue> {
    Seq::new(ids.len(), |i: int| SqlValue::Integer(ids[i]))
}

/// One inclusion list as text.
pub open spec fn clause_text(clause: ClauseView) -> Seq<char> {
    clause.column.spec_name() + " IN ("@ + marks(clause.ids.len()) + ")"@
}

/// A filter as text: its inclusion lists, of which one has to hold.
pub open spec fn predicate_text(predicate: Seq<ClauseView>) -> Seq<char> {
    joined(Seq::new(predicate.len(), |i: int| clause_text(predicate[i])), " OR "@)
}

/// The values of a filter, in the order of its marks.
pub open spec fn predicate_binds(predicate: Seq<ClauseView>) -> Seq<SqlValue> {
    flattened(Seq::new(predicate.len(), |i: int| integers(predicate[i].ids)))
}

/// The assignments as text.
pub open spec fn assignments_text(assignments: Seq<Assignment>) -> Seq<char> {
    joined(
        Seq::new(assignments.len(), |i: int| assignments[i].column.spec_name() + " = ?"@),
        ", "@,
    )
}

/// The values of the assignments, in the order of their marks.
pub open spec fn assignments_binds(assignments: Seq<Assignment>) -> Seq<SqlValue> {
    Seq::new(assignments.len(), |i: int| assignments[i].value)
}

/// The names of the columns, with commas between them.
pub open spec fn columns_text(columns: Seq<Column>) -> Seq<char> {
    joined(Seq::new(columns.len(), |i: int| columns[i].spec_name()), ", "@)
}

/// The rows of an insertion as text: for each row its marks in brackets.
pub open spec fn rows_text(rows: Seq<Seq<SqlValue>>) -> Seq<char> {
    joined(Seq::new(rows.len(), |i: int| "("@ + marks(rows[i].len()) + ")"@), ", "@)
}

/// The text of a statement.
pub open spec fn statement_text(statement: StatementView) -> Seq<char> {
    match statement {
        StatementView::Insert { table, columns, rows } => "INSERT INTO "@ + table.spec_name()
            + " ("@ + columns_text(columns) + ") VALUES "@ + rows_text(rows) + " RETURNING *;"@,
        StatementView::SelectAll { table } => "SELECT * FROM "@ + table.spec_name() + ";"@,
        StatementView::Select { table, predicate } => "SELECT * FROM "@ + table.spec_name()
            + " WHERE "@ + predicate_text(predicate) + ";"@,
        StatementView::Update { table, assignments, predicate } => "UPDATE "@ + table.spec_name()
            + " SET "@ + assignments_text(assignments) + " WHERE "@ + predicate_text(predicate)
            + " RETURNING *;"@,
        StatementView::Delete { table, predicate } => "DELETE FROM "@ + table.spec_name()
            + " WHERE "@ + predicate_text(predicate) + " RETURNING id;"@,
    }
}

/// The values of a statement, in the order of the marks of its text.
pub open spec fn statement_binds(statement: StatementView) -> Seq<SqlValue> {
    match statement {
        StatementView::Insert { rows, .. } => flattened(rows),
        StatementView::SelectAll { .. } => Seq::empty(),
        StatementView::Select { predicate, .. } => predicate_binds(predicate),
        StatementView::Update { assignments, predicate, .. } => assignments_binds(assignments)
            + predicate_binds(predicate),
        StatementView::Delete { predicate, .. } => predicate_binds(predicate),
    }
}

/// The texts that strings hold.
pub open spec fn texts(parts: Seq<String>) -> Seq<Seq<char>> {
    Seq::new(parts.len(), |i: int| parts[i]@)
}

/// Writes the parts behind a text, with the separator between each two.
fn append_joined(text: &mut String, parts: &Vec<String>, separator: &str)
    ensures
        final(text)@ == old(text)@ + joined(texts(parts@), separator@),
{
    let mut i: usize = 0;
    assert(texts(parts@).take(0) =~= Seq::<Seq<char>>::empty());
    assert(text@ =~= old(text)@ + joined(texts(parts@).take(0), separator@));
    while i < parts.len()
        invariant
            i <= parts.len(),
            text@ == old(text)@ + joined(texts(parts@).take(i as int), separator@),
        decreases parts.len() - i,
    {
        let ghost before = texts(parts@).take(i as int);
        let ghost after = texts(parts@).take(i + 1);
        proof {
            assert(after.drop_last() =~= before);
            assert(after.last() == parts@[i as int]@);
        }
        if i > 0 {
            text.append(separator);
        }
        text.append(parts[i].as_str());
        proof {
            if i == 0 {
                assert(after[0] == parts@[0]@);
                assert(before =~= Seq::<Seq<char>>::empty());
                assert(text@ =~= old(text)@ + joined(after, separator@));
            } else {
                assert(text@ =~= old(text)@ + joined(after, separator@));
            }
        }
        i += 1;
    }
    assert(texts(parts@).take(i as int) =~= texts(parts@));
}

/// Writes the marks of `n` values behind a text.
fn append_marks(text: &mut String, n: usize)
    ensures
        final(text)@ == old(text)@ + marks(n as nat),
{
    let mut parts: Vec<String> = Vec::new();
    let mut i: usize = 0;
    while i < n
        invariant
            i <= n,
            parts@.len() == i,
            forall|k: int| 0 <= k < i ==> (#[trigger] parts@[k])@ == "?"@,
        decreases n - i,
    {
        parts.push(String::from_str("?"));
        i += 1;
    }
    assert(texts(parts@) =~= Seq::new(n as nat, |i: int| "?"@));
    append_joined(text, &parts, ", ");
}

impl SqlValue {
    /// A copy of the value.
    pub fn copy(&self) -> (copy: SqlValue)
        ensures
            copy == *self,
    {
        match self {
            SqlValue::Null => SqlValue::Null,
            SqlValue::Integer(id) => SqlValue::Integer(*id),
            SqlValue::Boolean(flag) => SqlValue::Boolean(*flag),
            SqlValue::Text(text) => SqlValue::Text(text.clone()),
            SqlValue::Time(time) => SqlValue::Time(*time),
        }
    }
}

/// Puts copies of the values behind the others.
fn append_values(binds: &mut Vec<SqlValue>, values: &Vec<SqlValue>)
    ensures
        final(binds)@ == old(binds)@ + values@,
{
    let mut i: usize = 0;
    assert(binds@ =~= old(binds)@ + values@.take(0));
    while i < values.len()
        invariant
            i <= values.len(),
            binds@ == old(binds)@ + values@.take(i as int),
        decreases values.len() - i,
    {
        binds.push(values[i].copy());
        assert(binds@ =~= old(binds)@ + values@.take(i + 1));
        i += 1;
    }
    assert(values@.take(i as int) =~= values@);
}

/// Puts the identifiers, as values, behind the others.
fn append_integers(binds: &mut Vec<SqlValue>, ids: &Vec<i32>)
    ensures
        final(binds)@ == old(binds)@ + integers(ids@),
{
    let mut i: usize = 0;
    assert(binds@ =~= old(binds)@ + integers(ids@).take(0));
    while i < ids.len()
        invariant
            i <= ids.len(),
            binds@ == old(binds)@ + integers(ids@).take(i as int),
        decreases ids.len() - i,
    {
        binds.push(SqlValue::Integer(ids[i]));
        assert(binds@ =~= old(binds)@ + integers(ids@).take(i + 1));
        i += 1;
    }
    assert(integers(ids@).take(i as int) =~= integers(ids@));
}

fn clause_string(clause: &Clause) -> (text: String)
    ensures
        text@ == clause_text(clause@),
{
    let mut text = String::from_str(clause.column.name());
    text.append(" IN (");
    append_marks(&mut text, clause.ids.len());
    text.append(")");
    assert(text@ =~= clause_text(clause@));
    text
}

/// Writes a filter behind a text, and puts its values behind the others.
fn append_predicate(text: &mut String, binds: &mut Vec<SqlValue>, predicate: &Predicate)
    ensures
        final(text)@ == old(text)@ + predicate_text(predicate@),
        final(binds)@ == old(binds)@ + predicate_binds(predicate@),
{
    let ghost lists = Seq::new(predicate@.len(), |i: int| integers(predicate@[i].ids));
    let mut parts: Vec<String> = Vec::new();
    let mut i: usize = 0;
    assert(binds@ =~= old(binds)@ + flattened(lists.take(0)));
    while i < predicate.clauses.len()
        invariant
            i <= predicate.clauses.len(),
            predicate@.len() == predicate.clauses@.len(),
            lists == Seq::new(predicate@.len(), |i: int| integers(predicate@[i].ids)),
            parts@.len() == i,
            forall|k: int| 0 <= k < i ==> (#[trigger] parts@[k])@ == clause_text(predicate@[k]),
            binds@ == old(binds)@ + flattened(lists.take(i as int)),
        decreases predicate.clauses.len() - i,
    {
        let clause = &predicate.clauses[i];
        assert(clause@ == predicate@[i as int]);
        parts.push(clause_string(clause));
        append_integers(binds, &clause.ids);
        proof {
            assert(lists.take(i + 1).drop_last() =~= lists.take(i as int));
            assert(lists.take(i + 1).last() == integers(clause@.ids));
            assert(binds@ =~= old(binds)@ + flattened(lists.take(i + 1)));
        }
        i += 1;
    }
    assert(lists.take(i as int) =~= lists);
    assert(texts(parts@) =~= Seq::new(predicate@.len(), |i: int| clause_text(predicate@[i])));
    append_joined(text, &parts, " OR ");
}

/// Writes assignments behind a text, and puts their values behind the
/// others.
fn append_assignments(text: &mut String, binds: &mut Vec<SqlValue>, assignments: &Vec<Assignment>)
    ensures
        final(text)@ == old(text)@ + assignments_text(assignments@),
        final(binds)@ == old(binds)@ + assignments_binds(assignments@),
{
    let mut parts: Vec<String> = Vec::new();
    let mut i: usize = 0;
    assert(binds@ =~= old(binds)@ + assignments_binds(assignments@).take(0));
    while i < assignments.len()
        invariant
            i <= assignments.len(),
            parts@.len() == i,
            forall|k: int|
                0 <= k < i ==> (#[trigger] parts@[k])@ == assignments@[k].column.spec_name()
                    + " = ?"@,
            binds@ == old(binds)@ + assignments_binds(assignments@).take(i as int),
        decreases assignments.len() - i,
    {
        let mut part = String::from_str(assignments[i].column.name());
        part.append(" = ?");
        parts.push(part);
        binds.push(assignments[i].value.copy());
        assert(binds@ =~= old(binds)@ + assignments_binds(assignments@).take(i + 1));
        i += 1;
    }
    assert(assignments_binds(assignments@).take(i as int) =~= assignments_binds(assignments@));
    assert(texts(parts@) =~= Seq::new(
        assignments@.len(),
        |i: int| assignments@[i].column.spec_name() + " = ?"@,
    ));
    append_joined(text, &parts, ", ");
}

/// Writes the names of columns behind a text.
fn append_columns(text: &mut String, columns: &Vec<Column>)
    ensures
        final(text)@ == old(text)@ + columns_text(columns@),
{
    let mut parts: Vec<String> = Vec::new();
    let mut i: usize = 0;
    while i < columns.len()
        invariant
            i <= columns.len(),
            parts@.len() == i,
            forall|k: int| 0 <= k < i ==> (#[trigger] parts@[k])@ == columns@[k].spec_name(),
        decreases columns.len() - i,
    {
        parts.push(String::from_str(columns[i].name()));
        i += 1;
    }
    assert(texts(parts@) =~= Seq::new(columns@.len(), |i: int| columns@[i].spec_name()));
    append_joined(text, &parts, ", ");
}

/// Writes the rows of an insertion behind a text, and puts their values
/// behind the others.
fn append_rows(text: &mut String, binds: &mut Vec<SqlValue>, rows: &Vec<Vec<SqlValue>>)
    ensures
        final(text)@ == old(text)@ + rows_text(rows_view(rows@)),
        final(binds)@ == old(binds)@ + flattened(rows_view(rows@)),
{
    let ghost view = rows_view(rows@);
    let mut parts: Vec<String> = Vec::new();
    let mut i: usize = 0;
    assert(binds@ =~= old(binds)@ + flattened(view.take(0)));
    while i < rows.len()
        invariant
            i <= rows.len(),
            view == rows_view(rows@),
            parts@.len() == i,
            forall|k: int|
                0 <= k < i ==> (#[trigger] parts@[k])@ == "("@ + marks(view[k].len()) + ")"@,
            binds@ == old(binds)@ + flattened(view.take(i as int)),
        decreases rows.len() - i,
    {
        let mut part = String::from_str("(");
        append_marks(&mut part, rows[i].len());
        part.append(")");
        parts.push(part);
        append_values(binds, &rows[i]);
        proof {
            assert(view.take(i + 1).drop_last() =~= view.take(i as int));
            assert(view.take(i + 1).last() == rows@[i as int]@);
            assert(binds@ =~= old(binds)@ + flattened(view.take(i + 1)));
        }
        i += 1;
    }
    assert(view.take(i as int) =~= view);
    assert(texts(parts@) =~= Seq::new(view.len(), |i: int| "("@ + marks(view[i].len()) + ")"@));
    append_joined(text, &parts, ", ");
}

/// Writes a statement as the storage takes it.
pub fn render(statement: &Statement) -> (query: Query)
    ensures
        query.sql@ == statement_text(statement@),
        query.binds@ == statement_binds(statement@),
{
    let mut sql = String::new();
    let mut binds: Vec<SqlValue> = Vec::new();
    match statement {
        Statement::Insert { table, columns, rows } => {
            sql.append("INSERT INTO ");
            sql.append(table.name());
            sql.append(" (");
            append_columns(&mut sql, columns);
            sql.append(") VALUES ");
            append_rows(&mut sql, &mut binds, rows);
            sql.append(" RETURNING *;");
        },
        Statement::SelectAll { table } => {
            sql.append("SELECT * FROM ");
            sql.append(table.name());
            sql.append(";");
        },
        Statement::Select { table, predicate } => {
            sql.append("SELECT * FROM ");
            sql.append(table.name());
            sql.append(" WHERE ");
            append_predicate(&mut sql, &mut binds, predicate);
            sql.append(";");
        },
        Statement::Update { table, assignments, predicate } => {
            sql.append("UPDATE ");
            sql.append(table.name());
            sql.append(" SET ");
            append_assignments(&mut sql, &mut binds, assignments);
            sql.append(" WHERE ");
            append_predicate(&mut sql, &mut binds, predicate);
            sql.append(" RETURNING *;");
        },
        Statement::Delete { table, predicate } => {
            sql.append("DELETE FROM ");
            sql.append(table.name());
            sql.append(" WHERE ");
            append_predicate(&mut sql, &mut binds, predicate);
            sql.append(" RETURNING id;");
        },
    }
    assert(sql@ =~= statement_text(statement@));
    assert(binds@ =~= statement_binds(statement@));
    Query { sql, binds }
}

} // verus!
