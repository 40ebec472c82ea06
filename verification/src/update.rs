//! Partial updates: which columns an update record sets, and on which rows.
//!
//! A field that the caller left out yields no assignment at all, so its
//! column keeps what it holds. A field that the caller supplied yields one
//! assignment, be it of a value or, for a column that can be empty, of
//! `Null`.

use crate::query::{
    addresses, selects, Clause, ClauseView, Column, Keys, Predicate, SqlValue, Table, Target,
};
use crate::records::{UpdateList, UpdateSet, UpdateToDo};
use crate::types::Timestamp;
use vstd::prelude::*;

verus! {

/// One column and the value that it is set to.
#[derive(Clone, Debug)]
pub struct Assignment {
    pub column: Column,
    pub value: SqlValue,
}

/// The filter that a single target resolves to: one inclusion list, that of
/// the column the target compares, with the target's identifier alone.
pub open spec fn spec_resolve_target<T: Target>(target: T) -> Seq<ClauseView> {
    seq![ClauseView { column: target.spec_column(), ids: seq![target.spec_id()] }]
}

/// Resolves the target of an update record to the filter that selects the
/// rows it addresses.
pub fn resolve_target<T: Target>(target: &T) -> (predicate: Predicate)
    ensures
        predicate@ == spec_resolve_target(*target),
{
    let mut ids: Vec<i32> = Vec::new();
    ids.push(target.id());
    assert(ids@ =~= seq![target.spec_id()]);
    let mut clauses: Vec<Clause> = Vec::new();
    clauses.push(Clause { column: target.column(), ids });
    let predicate = Predicate { clauses };
    assert(predicate@ =~= spec_resolve_target(*target));
    predicate
}

/// The filter of a single target selects exactly the rows that the target
/// addresses: the same rows as when the target stands in a set of targets.
pub proof fn lemma_target_selects<T: Target>(target: T, keys: Keys)
    ensures
        selects(spec_resolve_target(target), keys) <==> addresses(target, keys),
{
    let predicate = spec_resolve_target(target);
    if selects(predicate, keys) {
        let k = choose|k: int| 0 <= k < predicate.len() && #[trigger] predicate[k].matches(keys);
        assert(predicate[k].ids[0] == target.spec_id());
    }
    if addresses(target, keys) {
        assert(predicate[0].ids[0] == target.spec_id());
        assert(predicate[0].matches(keys));
    }
}

/// The assignments that one field yields: one if the caller supplied a
/// value, none if not.
pub open spec fn supplied(column: Column, value: Option<SqlValue>) -> Seq<Assignment> {
    match value {
        Some(value) => seq![Assignment { column, value }],
        None => Seq::empty(),
    }
}

/// The value that a supplied identifier is written as.
pub open spec fn integer_field(field: Option<i32>) -> Option<SqlValue> {
    match field {
        Some(id) => Some(SqlValue::Integer(id)),
        None => None,
    }
}

/// The value that a supplied identifier of a column that can be empty is
/// written as: `Null` where the caller cleared it.
pub open spec fn nullable_integer_field(field: Option<Option<i32>>) -> Option<SqlValue> {
    match field {
        Some(Some(id)) => Some(SqlValue::Integer(id)),
        Some(None) => Some(SqlValue::Null),
        None => None,
    }
}

/// The value that a supplied text is written as.
pub open spec fn text_field(field: Option<String>) -> Option<SqlValue> {
    match field {
        Some(text) => Some(SqlValue::Text(text)),
        None => None,
    }
}

/// The value that a supplied flag is written as.
pub open spec fn boolean_field(field: Option<bool>) -> Option<SqlValue> {
    match field {
        Some(flag) => Some(SqlValue::Boolean(flag)),
        None => None,
    }
}

/// The value that a supplied time of a column that can be empty is written
/// as: `Null` where the caller cleared it.
pub open spec fn nullable_time_field(field: Option<Option<Timestamp>>) -> Option<SqlValue> {
    match field {
        Some(Some(time)) => Some(SqlValue::Time(time)),
        Some(None) => Some(SqlValue::Null),
        None => None,
    }
}

fn supply(assignments: &mut Vec<Assignment>, column: Column, value: Option<SqlValue>)
    ensures
        final(assignments)@ == old(assignments)@ + supplied(column, value),
{
    match value {
        Some(value) => {
            assignments.push(Assignment { column, value });
            assert(final(assignments)@ =~= old(assignments)@ + supplied(column, Some(value)));
        },
        None => {
            assert(assignments@ =~= old(assignments)@ + supplied(column, None));
        },
    }
}

fn integer_value(field: Option<i32>) -> (value: Option<SqlValue>)
    ensures
        value == integer_field(field),
{
    match field {
        Some(id) => Some(SqlValue::Integer(id)),
        None => None,
    }
}

fn nullable_integer_value(field: Option<Option<i32>>) -> (value: Option<SqlValue>)
    ensures
        value == nullable_integer_field(field),
{
    match field {
        Some(Some(id)) => Some(SqlValue::Integer(id)),
        Some(None) => Some(SqlValue::Null),
        None => None,
    }
}

fn text_value(field: &Option<String>) -> (value: Option<SqlValue>)
    ensures
        value == text_field(*field),
{
    match field {
        Some(text) => Some(SqlValue::Text(text.clone())),
        None => None,
    }
}

fn boolean_value(field: Option<bool>) -> (value: Option<SqlValue>)
    ensures
        value == boolean_field(field),
{
    match field {
        Some(flag) => Some(SqlValue::Boolean(flag)),
        None => None,
    }
}

fn nullable_time_value(field: Option<Option<Timestamp>>) -> (value: Option<SqlValue>)
    ensures
        value == nullable_time_field(field),
{
    match field {
        Some(Some(time)) => Some(SqlValue::Time(time)),
        Some(None) => Some(SqlValue::Null),
        None => None,
    }
}

/// A record that asks for a change of the rows that a target addresses.
pub trait UpdateRecord: Sized {
    /// The table whose rows are changed.
    spec fn spec_table() -> Table;

    /// The assignments that the record asks for, in the order of the
    /// table's columns.
    spec fn spec_assignments(&self) -> Seq<Assignment>;

    /// The filter that selects the rows to change.
    spec fn spec_predicate(&self) -> Seq<ClauseView>;

    fn table() -> (table: Table)
        ensures
            table == Self::spec_table(),
    ;

    /// Resolves the record to its assignments and its filter.
    fn resolve_update(&self) -> (resolved: (Vec<Assignment>, Predicate))
        ensures
            resolved.0@ == self.spec_assignments(),
            resolved.1@ == self.spec_predicate(),
    ;
}

impl UpdateRecord for UpdateList {
    open spec fn spec_table() -> Table {
        Table::Lists
    }

    open spec fn spec_assignments(&self) -> Seq<Assignment> {
        supplied(Column::Title, text_field(self.title))
    }

    open spec fn spec_predicate(&self) -> Seq<ClauseView> {
        spec_resolve_target(self.list_id)
    }

    fn table() -> (table: Table) {
        Table::Lists
    }

    fn resolve_update(&self) -> (resolved: (Vec<Assignment>, Predicate)) {
        let mut assignments: Vec<Assignment> = Vec::new();
        supply(&mut assignments, Column::Title, text_value(&self.title));
        (assignments, resolve_target(&self.list_id))
    }
}

impl UpdateRecord for UpdateSet {
    open spec fn spec_table() -> Table {
        Table::Sets
    }

    open spec fn spec_assignments(&self) -> Seq<Assignment> {
        supplied(Column::ListId, integer_field(self.list_id)) + supplied(
            Column::Title,
            text_field(self.title),
        )
    }

    open spec fn spec_predicate(&self) -> Seq<ClauseView> {
        spec_resolve_target(self.target)
    }

    fn table() -> (table: Table) {
        Table::Sets
    }

    fn resolve_update(&self) -> (resolved: (Vec<Assignment>, Predicate)) {
        let mut assignments: Vec<Assignment> = Vec::new();
        supply(&mut assignments, Column::ListId, integer_value(self.list_id));
        supply(&mut assignments, Column::Title, text_value(&self.title));
        (assignments, resolve_target(&self.target))
    }
}

impl UpdateRecord for UpdateToDo {
    open spec fn spec_table() -> Table {
        Table::ToDos
    }

    open spec fn spec_assignments(&self) -> Seq<Assignment> {
        supplied(Column::ListId, integer_field(self.list_id)) + supplied(
            Column::SetId,
            nullable_integer_field(self.set_id),
        ) + supplied(Column::Title, text_field(self.title)) + supplied(
            Column::Complete,
            boolean_field(self.complete),
        ) + supplied(Column::DueDate, nullable_time_field(self.due_date))
    }

    open spec fn spec_predicate(&self) -> Seq<ClauseView> {
        spec_resolve_target(self.target)
    }

    fn table() -> (table: Table) {
        Table::ToDos
    }

    fn resolve_update(&self) -> (resolved: (Vec<Assignment>, Predicate)) {
        let mut assignments: Vec<Assignment> = Vec::new();
        supply(&mut assignments, Column::ListId, integer_value(self.list_id));
        supply(&mut assignments, Column::SetId, nullable_integer_value(self.set_id));
        supply(&mut assignments, Column::Title, text_value(&self.title));
        supply(&mut assignments, Column::Complete, boolean_value(self.complete));
        supply(&mut assignments, Column::DueDate, nullable_time_value(self.due_date));
        (assignments, resolve_target(&self.target))
    }
}

/// Whether a column is among those that a sequence of assignments sets.
pub open spec fn assigns(assignments: Seq<Assignment>, column: Column) -> bool {
    exists|i: int| 0 <= i < assignments.len() && (#[trigger] assignments[i]).column == column
}

/// How many assignments a field yields.
pub open spec fn count(supplied: bool) -> nat {
    if supplied {
        1
    } else {
        0
    }
}

/// A field yields an assignment of its own column if it was supplied, and
/// nothing if not.
pub proof fn lemma_supplied(column: Column, value: Option<SqlValue>, other: Column)
    ensures
        supplied(column, value).len() == count(value is Some),
        assigns(supplied(column, value), other) <==> value is Some && other == column,
{
    let one = supplied(column, value);
    if value is Some {
        assert(one[0].column == column);
    }
}

/// The assignments of two sequences, one after the other, set the columns
/// that either of them sets.
pub proof fn lemma_assigns_both(first: Seq<Assignment>, second: Seq<Assignment>, column: Column)
    ensures
        assigns(first + second, column) <==> assigns(first, column) || assigns(second, column),
{
    let both = first + second;
    if assigns(first, column) {
        let i = choose|i: int| 0 <= i < first.len() && (#[trigger] first[i]).column == column;
        assert(both[i] == first[i]);
    }
    if assigns(second, column) {
        let i = choose|i: int| 0 <= i < second.len() && (#[trigger] second[i]).column == column;
        assert(both[first.len() + i] == second[i]);
    }
    if assigns(both, column) {
        let i = choose|i: int| 0 <= i < both.len() && (#[trigger] both[i]).column == column;
        if i < first.len() {
            assert(first[i] == both[i]);
        } else {
            assert(second[i - first.len()] == both[i]);
        }
    }
}

/// An update of a list sets the title exactly if one was supplied, and no
/// other column. A record that supplies nothing yields no assignment.
pub proof fn lemma_list_update_assigns(record: UpdateList, column: Column)
    ensures
        record.spec_assignments().len() == count(record.title is Some),
        assigns(record.spec_assignments(), column) <==> column == Column::Title
            && record.title is Some,
        record.title is None ==> record.spec_assignments() == Seq::<Assignment>::empty(),
{
    lemma_supplied(Column::Title, text_field(record.title), column);
}

/// An update of a set sets each of its two columns exactly if a value for it
/// was supplied, and no other column. A record that supplies nothing yields
/// no assignment.
pub proof fn lemma_set_update_assigns(record: UpdateSet, column: Column)
    ensures
        record.spec_assignments().len() == count(record.list_id is Some) + count(
            record.title is Some,
        ),
        assigns(record.spec_assignments(), column) <==> (column == Column::ListId
            && record.list_id is Some) || (column == Column::Title && record.title is Some),
        record.list_id is None && record.title is None ==> record.spec_assignments()
            == Seq::<Assignment>::empty(),
{
    let a = supplied(Column::ListId, integer_field(record.list_id));
    let b = supplied(Column::Title, text_field(record.title));
    lemma_supplied(Column::ListId, integer_field(record.list_id), column);
    lemma_supplied(Column::Title, text_field(record.title), column);
    lemma_assigns_both(a, b, column);
    if record.list_id is None && record.title is None {
        assert(record.spec_assignments() =~= Seq::<Assignment>::empty());
    }
}

/// An update of a to-do sets each of its five columns exactly if a value for
/// it was supplied, be it a value or the clearing of the column, and no
/// other column. A record that supplies nothing yields no assignment.
pub proof fn lemma_todo_update_assigns(record: UpdateToDo, column: Column)
    ensures
        record.spec_assignments().len() == count(record.list_id is Some) + count(
            record.set_id is Some,
        ) + count(record.title is Some) + count(record.complete is Some) + count(
            record.due_date is Some,
        ),
        assigns(record.spec_assignments(), column) <==> (column == Column::ListId
            && record.list_id is Some) || (column == Column::SetId && record.set_id is Some) || (
        column == Column::Title && record.title is Some) || (column == Column::Complete
            && record.complete is Some) || (column == Column::DueDate && record.due_date is Some),
        record.list_id is None && record.set_id is None && record.title is None
            && record.complete is None && record.due_date is None ==> record.spec_assignments()
            == Seq::<Assignment>::empty(),
{
    let a = supplied(Column::ListId, integer_field(record.list_id));
    let b = supplied(Column::SetId, nullable_integer_field(record.set_id));
    let c = supplied(Column::Title, text_field(record.title));
    let d = supplied(Column::Complete, boolean_field(record.complete));
    let e = supplied(Column::DueDate, nullable_time_field(record.due_date));
    lemma_supplied(Column::ListId, integer_field(record.list_id), column);
    lemma_supplied(Column::SetId, nullable_integer_field(record.set_id), column);
    lemma_supplied(Column::Title, text_field(record.title), column);
    lemma_supplied(Column::Complete, boolean_field(record.complete), column);
    lemma_supplied(Column::DueDate, nullable_time_field(record.due_date), column);
    lemma_assigns_both(a, b, column);
    lemma_assigns_both(a + b, c, column);
    lemma_assigns_both(a + b + c, d, column);
    lemma_assigns_both(a + b + c + d, e, column);
    if record.list_id is None && record.set_id is None && record.title is None
        && record.complete is None && record.due_date is None {
        assert(record.spec_assignments() =~= Seq::<Assignment>::empty());
    }
}

/// Clearing a column that can be empty is an assignment of its own: it is
/// neither leaving the column as it is nor setting it to a value.
pub proof fn lemma_clearing_is_distinct(id: i32)
    ensures
        nullable_integer_field(None) is None,
        nullable_integer_field(Some(None)) == Some(SqlValue::Null),
        nullable_integer_field(Some(Some(id))) == Some(SqlValue::Integer(id)),
        SqlValue::Null != SqlValue::Integer(id),
{
}

} // verus!
