//! Every value of a statement has its mark in the text, and every mark its
//! value.

use crate::query::{ClauseView, Column, SqlValue, Table};
use crate::render::{
    assignments_binds, assignments_text, clause_text, columns_text, flattened, integers, joined,
    marks, predicate_binds, predicate_text, rows_text, statement_binds, statement_text,
};
use crate::statement::StatementView;
use crate::update::Assignment;
use vstd::prelude::*;

verus! {

/// How many `?` marks a text holds.
pub open spec fn count_marks(text: Seq<char>) -> nat
    decreases text.len(),
{
    if text.len() == 0 {
        0
    } else {
        count_marks(text.drop_last()) + if text.last() == '?' {
            1nat
        } else {
            0nat
        }
    }
}

/// Whether a text holds no mark.
pub open spec fn plain(text: Seq<char>) -> bool {
    forall|i: int| 0 <= i < text.len() ==> text[i] != '?'
}

/// A text without marks counts none.
pub proof fn lemma_plain_counts_none(text: Seq<char>)
    requires
        plain(text),
    ensures
        count_marks(text) == 0,
    decreases text.len(),
{
    if text.len() > 0 {
        lemma_plain_counts_none(text.drop_last());
    }
}

/// The marks of two texts, one after the other, add up.
pub proof fn lemma_count_adds(a: Seq<char>, b: Seq<char>)
    ensures
        count_marks(a + b) == count_marks(a) + count_marks(b),
    decreases b.len(),
{
    if b.len() == 0 {
        assert(a + b =~= a);
    } else {
        assert((a + b).drop_last() =~= a + b.drop_last());
        assert((a + b).last() == b.last());
        lemma_count_adds(a, b.drop_last());
    }
}

/// The fixed words of the statements hold no mark.
pub proof fn lemma_words_are_plain()
    ensures
        plain(", "@),
        plain(" OR "@),
        plain(" IN ("@),
        plain(")"@),
        plain("("@),
        plain(";"@),
        plain(" WHERE "@),
        plain(" SET "@),
        plain(" ("@),
        plain(") VALUES "@),
        plain("INSERT INTO "@),
        plain("SELECT * FROM "@),
        plain("UPDATE "@),
        plain("DELETE FROM "@),
        plain(" RETURNING *;"@),
        plain(" RETURNING id;"@),
{
    reveal_strlit(", ");
    reveal_strlit(" OR ");
    reveal_strlit(" IN (");
    reveal_strlit(")");
    reveal_strlit("(");
    reveal_strlit(";");
    reveal_strlit(" WHERE ");
    reveal_strlit(" SET ");
    reveal_strlit(" (");
    reveal_strlit(") VALUES ");
    reveal_strlit("INSERT INTO ");
    reveal_strlit("SELECT * FROM ");
    reveal_strlit("UPDATE ");
    reveal_strlit("DELETE FROM ");
    reveal_strlit(" RETURNING *;");
    reveal_strlit(" RETURNING id;");
}

/// The names of tables and columns hold no mark.
pub proof fn lemma_names_are_plain(table: Table, column: Column)
    ensures
        plain(table.spec_name()),
        plain(column.spec_name()),
{
    reveal_strlit("Lists");
    reveal_strlit("Sets");
    reveal_strlit("Todos");
    reveal_strlit("id");
    reveal_strlit("list_id");
    reveal_strlit("set_id");
    reveal_strlit("title");
    reveal_strlit("complete");
    reveal_strlit("due_date");
}

/// The marks of all parts together.
pub open spec fn total_marks(parts: Seq<Seq<char>>) -> nat
    decreases parts.len(),
{
    if parts.len() == 0 {
        0
    } else {
        total_marks(parts.drop_last()) + count_marks(parts.last())
    }
}

/// Joining parts with a separator without marks keeps the marks of the
/// parts and adds none.
pub proof fn lemma_joined_count(parts: Seq<Seq<char>>, separator: Seq<char>)
    requires
        plain(separator),
    ensures
        count_marks(joined(parts, separator)) == total_marks(parts),
    decreases parts.len(),
{
    if parts.len() == 1 {
        assert(parts.drop_last().len() == 0);
        assert(total_marks(parts.drop_last()) == 0);
        assert(parts.last() == parts[0]);
    } else if parts.len() > 1 {
        lemma_joined_count(parts.drop_last(), separator);
        lemma_plain_counts_none(separator);
        lemma_count_adds(joined(parts.drop_last(), separator), separator);
        lemma_count_adds(joined(parts.drop_last(), separator) + separator, parts.last());
    }
}

/// Where every part holds as many marks as a number that goes with it, all
/// parts together hold as many marks as the numbers add up to.
pub proof fn lemma_total_marks<A>(parts: Seq<Seq<char>>, values: Seq<Seq<A>>)
    requires
        parts.len() == values.len(),
        forall|i: int| 0 <= i < parts.len() ==> count_marks(#[trigger] parts[i]) == values[i].len(),
    ensures
        total_marks(parts) == flattened(values).len(),
    decreases parts.len(),
{
    if parts.len() > 0 {
        lemma_total_marks(parts.drop_last(), values.drop_last());
    }
}

/// The marks of `n` values are `n` marks.
pub proof fn lemma_marks_count(n: nat)
    ensures
        count_marks(marks(n)) == n,
{
    lemma_words_are_plain();
    let parts = Seq::new(n, |i: int| "?"@);
    let ones = Seq::new(n, |i: int| seq![0int]);
    lemma_joined_count(parts, ", "@);
    assert forall|i: int| 0 <= i < parts.len() implies count_marks(#[trigger] parts[i])
        == ones[i].len() by {
        lemma_one_mark();
    }
    lemma_total_marks(parts, ones);
    lemma_flattened_ones(ones);
}

/// A single mark counts one, also behind the sign of an assignment.
pub proof fn lemma_one_mark()
    ensures
        count_marks("?"@) == 1,
        count_marks(" = ?"@) == 1,
{
    reveal_strlit("?");
    reveal_strlit(" = ?");
    reveal_with_fuel(count_marks, 5);
    assert("?"@.drop_last().len() == 0);
    let sign = " = ?"@;
    assert(sign.drop_last() =~= seq![' ', '=', ' ']);
    assert(plain(sign.drop_last()));
    lemma_plain_counts_none(sign.drop_last());
}

/// Sequences of one element each hold, one after the other, as many
/// elements as there are sequences.
pub proof fn lemma_flattened_ones<A>(parts: Seq<Seq<A>>)
    requires
        forall|i: int| 0 <= i < parts.len() ==> (#[trigger] parts[i]).len() == 1,
    ensures
        flattened(parts).len() == parts.len(),
    decreases parts.len(),
{
    if parts.len() > 0 {
        lemma_flattened_ones(parts.drop_last());
    }
}

/// A filter holds as many marks as identifiers.
pub proof fn lemma_predicate_marks(predicate: Seq<ClauseView>)
    ensures
        count_marks(predicate_text(predicate)) == predicate_binds(predicate).len(),
{
    lemma_words_are_plain();
    let parts = Seq::new(predicate.len(), |i: int| clause_text(predicate[i]));
    let values = Seq::new(predicate.len(), |i: int| integers(predicate[i].ids));
    lemma_joined_count(parts, " OR "@);
    assert forall|i: int| 0 <= i < parts.len() implies count_marks(#[trigger] parts[i])
        == values[i].len() by {
        let clause = predicate[i];
        let name = clause.column.spec_name();
        lemma_names_are_plain(Table::Lists, clause.column);
        lemma_plain_counts_none(name);
        lemma_plain_counts_none(" IN ("@);
        lemma_plain_counts_none(")"@);
        lemma_marks_count(clause.ids.len());
        lemma_count_adds(name, " IN ("@);
        lemma_count_adds(name + " IN ("@, marks(clause.ids.len()));
        lemma_count_adds(name + " IN ("@ + marks(clause.ids.len()), ")"@);
    }
    lemma_total_marks(parts, values);
}

/// Assignments hold one mark each.
pub proof fn lemma_assignments_marks(assignments: Seq<Assignment>)
    ensures
        count_marks(assignments_text(assignments)) == assignments_binds(assignments).len(),
{
    lemma_words_are_plain();
    let parts = Seq::new(assignments.len(), |i: int| assignments[i].column.spec_name() + " = ?"@);
    let values = Seq::new(assignments.len(), |i: int| seq![assignments[i].value]);
    lemma_joined_count(parts, ", "@);
    assert forall|i: int| 0 <= i < parts.len() implies count_marks(#[trigger] parts[i])
        == values[i].len() by {
        let name = assignments[i].column.spec_name();
        lemma_names_are_plain(Table::Lists, assignments[i].column);
        lemma_plain_counts_none(name);
        lemma_one_mark();
        lemma_count_adds(name, " = ?"@);
    }
    lemma_total_marks(parts, values);
    lemma_flattened_ones(values);
}

/// The names of columns hold no mark.
pub proof fn lemma_columns_marks(columns: Seq<Column>)
    ensures
        count_marks(columns_text(columns)) == 0,
{
    lemma_words_are_plain();
    let parts = Seq::new(columns.len(), |i: int| columns[i].spec_name());
    let values = Seq::new(columns.len(), |i: int| Seq::<int>::empty());
    lemma_joined_count(parts, ", "@);
    assert forall|i: int| 0 <= i < parts.len() implies count_marks(#[trigger] parts[i])
        == values[i].len() by {
        lemma_names_are_plain(Table::Lists, columns[i]);
        lemma_plain_counts_none(columns[i].spec_name());
    }
    lemma_total_marks(parts, values);
    lemma_flattened_nothing(values);
}

/// Sequences without elements hold, one after the other, no element.
pub proof fn lemma_flattened_nothing<A>(parts: Seq<Seq<A>>)
    requires
        forall|i: int| 0 <= i < parts.len() ==> (#[trigger] parts[i]).len() == 0,
    ensures
        flattened(parts).len() == 0,
    decreases parts.len(),
{
    if parts.len() > 0 {
        lemma_flattened_nothing(parts.drop_last());
    }
}

/// The rows of an insertion hold as many marks as values.
pub proof fn lemma_rows_marks(rows: Seq<Seq<SqlValue>>)
    ensures
        count_marks(rows_text(rows)) == flattened(rows).len(),
{
    lemma_words_are_plain();
    let parts = Seq::new(rows.len(), |i: int| "("@ + marks(rows[i].len()) + ")"@);
    lemma_joined_count(parts, ", "@);
    assert forall|i: int| 0 <= i < parts.len() implies count_marks(#[trigger] parts[i])
        == rows[i].len() by {
        lemma_plain_counts_none("("@);
        lemma_plain_counts_none(")"@);
        lemma_marks_count(rows[i].len());
        lemma_count_adds("("@, marks(rows[i].len()));
        lemma_count_adds("("@ + marks(rows[i].len()), ")"@);
    }
    lemma_total_marks(parts, rows);
}

/// A word without marks behind a text adds no mark.
proof fn lemma_word_adds_none(text: Seq<char>, word: Seq<char>)
    requires
        plain(word),
    ensures
        count_marks(text + word) == count_marks(text),
{
    lemma_plain_counts_none(word);
    lemma_count_adds(text, word);
}

/// The text of a statement holds exactly as many marks as the statement has
/// values: each value has its place in the text, and no text of a request
/// is part of it.
pub proof fn lemma_statement_marks(statement: StatementView)
    ensures
        count_marks(statement_text(statement)) == statement_binds(statement).len(),
{
    lemma_words_are_plain();
    let name = statement.table().spec_name();
    lemma_names_are_plain(statement.table(), Column::Id);
    match statement {
        StatementView::Insert { table, columns, rows } => {
            let a = "INSERT INTO "@ + name;
            let b = a + " ("@;
            let c = b + columns_text(columns);
            let d = c + ") VALUES "@;
            let e = d + rows_text(rows);
            lemma_plain_counts_none("INSERT INTO "@);
            lemma_word_adds_none("INSERT INTO "@, name);
            lemma_word_adds_none(a, " ("@);
            lemma_columns_marks(columns);
            lemma_count_adds(b, columns_text(columns));
            lemma_word_adds_none(c, ") VALUES "@);
            lemma_rows_marks(rows);
            lemma_count_adds(d, rows_text(rows));
            lemma_word_adds_none(e, " RETURNING *;"@);
        },
        StatementView::SelectAll { table } => {
            lemma_plain_counts_none("SELECT * FROM "@);
            lemma_word_adds_none("SELECT * FROM "@, name);
            lemma_word_adds_none("SELECT * FROM "@ + name, ";"@);
        },
        StatementView::Select { table, predicate } => {
            let a = "SELECT * FROM "@ + name;
            let b = a + " WHERE "@;
            let c = b + predicate_text(predicate);
            lemma_plain_counts_none("SELECT * FROM "@);
            lemma_word_adds_none("SELECT * FROM "@, name);
            lemma_word_adds_none(a, " WHERE "@);
            lemma_predicate_marks(predicate);
            lemma_count_adds(b, predicate_text(predicate));
            lemma_word_adds_none(c, ";"@);
        },
        StatementView::Update { table, assignments, predicate } => {
            let a = "UPDATE "@ + name;
            let b = a + " SET "@;
            let c = b + assignments_text(assignments);
            let d = c + " WHERE "@;
            let e = d + predicate_text(predicate);
            lemma_plain_counts_none("UPDATE "@);
            lemma_word_adds_none("UPDATE "@, name);
            lemma_word_adds_none(a, " SET "@);
            lemma_assignments_marks(assignments);
            lemma_count_adds(b, assignments_text(assignments));
            lemma_word_adds_none(c, " WHERE "@);
            lemma_predicate_marks(predicate);
            lemma_count_adds(d, predicate_text(predicate));
            lemma_word_adds_none(e, " RETURNING *;"@);
        },
        StatementView::Delete { table, predicate } => {
            let a = "DELETE FROM "@ + name;
            let b = a + " WHERE "@;
            let c = b + predicate_text(predicate);
            lemma_plain_counts_none("DELETE FROM "@);
            lemma_word_adds_none("DELETE FROM "@, name);
            lemma_word_adds_none(a, " WHERE "@);
            lemma_predicate_marks(predicate);
            lemma_count_adds(b, predicate_text(predicate));
            lemma_word_adds_none(c, " RETURNING id;"@);
        },
    }
}

} // verus!
