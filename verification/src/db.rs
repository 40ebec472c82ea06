//! What each operation asks of the storage.
//!
//! Nothing here touches the store: each function turns the payload of an
//! operation into the statements to run, or into the failure with which the
//! storage boundary refuses a payload without entries.

use crate::dispatch::StorageError;
use crate::query::{resolve_selector, spec_resolve_selector, Column, SqlValue, Table, Target};
use crate::records::{CreateList, CreateSet, CreateToDo, UpdateList, UpdateSet, UpdateToDo};
use crate::statement::{rows_view, Statement, StatementView};
use crate::types::{ListID, SetQueryTarget, ToDoQueryTarget};
use crate::update::UpdateRecord;
use vstd::prelude::*;
use vstd::string::*;

verus! {

/// A record that asks for a new row.
pub trait CreateRecord: Sized {
    /// The table that gets the row.
    spec fn spec_table() -> Table;

    /// The columns that a record gives a value for.
    spec fn spec_columns() -> Seq<Column>;

    /// The values of the record, one for each of the columns. A column that
    /// can be empty and has no value in the record gets `Null`.
    spec fn spec_row(&self) -> Seq<SqlValue>;

    fn table() -> (table: Table)
        ensures
            table == Self::spec_table(),
    ;

    fn columns() -> (columns: Vec<Column>)
        ensures
            columns@ == Self::spec_columns(),
    ;

    fn row(&self) -> (row: Vec<SqlValue>)
        ensures
            row@ == self.spec_row(),
            row@.len() == Self::spec_columns().len(),
    ;
}

impl CreateRecord for CreateList {
    open spec fn spec_table() -> Table {
        Table::Lists
    }

    open spec fn spec_columns() -> Seq<Column> {
        seq![Column::Title]
    }

    open spec fn spec_row(&self) -> Seq<SqlValue> {
        seq![SqlValue::Text(self.title)]
    }

    fn table() -> (table: Table) {
        Table::Lists
    }

    fn columns() -> (columns: Vec<Column>) {
        vec![Column::Title]
    }

    fn row(&self) -> (row: Vec<SqlValue>) {
        vec![SqlValue::Text(self.title.clone())]
    }
}

impl CreateRecord for CreateSet {
    open spec fn spec_table() -> Table {
        Table::Sets
    }

    open spec fn spec_columns() -> Seq<Column> {
        seq![Column::ListId, Column::Title]
    }

    open spec fn spec_row(&self) -> Seq<SqlValue> {
        seq![SqlValue::Integer(self.list_id), SqlValue::Text(self.title)]
    }

    fn table() -> (table: Table) {
        Table::Sets
    }

    fn columns() -> (columns: Vec<Column>) {
        vec![Column::ListId, Column::Title]
    }

    fn row(&self) -> (row: Vec<SqlValue>) {
        vec![SqlValue::Integer(self.list_id), SqlValue::Text(self.title.clone())]
    }
}

/// The value of a column that can be empty.
pub open spec fn integer_or_null(id: Option<i32>) -> SqlValue {
    match id {
        Some(id) => SqlValue::Integer(id),
        None => SqlValue::Null,
    }
}

impl CreateRecord for CreateToDo {
    open spec fn spec_table() -> Table {
        Table::ToDos
    }

    open spec fn spec_columns() -> Seq<Column> {
        seq![Column::ListId, Column::SetId, Column::Title, Column::Complete, Column::DueDate]
    }

    /// A to-do whose record does not say whether it is complete is not.
    open spec fn spec_row(&self) -> Seq<SqlValue> {
        seq![
            SqlValue::Integer(self.list_id),
            integer_or_null(self.set_id),
            SqlValue::Text(self.title),
            SqlValue::Boolean(
                match self.complete {
                    Some(complete) => complete,
                    None => false,
                },
            ),
            match self.due_date {
                Some(time) => SqlValue::Time(time),
                None => SqlValue::Null,
            },
        ]
    }

    fn table() -> (table: Table) {
        Table::ToDos
    }

    fn columns() -> (columns: Vec<Column>) {
        vec![Column::ListId, Column::SetId, Column::Title, Column::Complete, Column::DueDate]
    }

    fn row(&self) -> (row: Vec<SqlValue>) {
        let set_id = match self.set_id {
            Some(id) => SqlValue::Integer(id),
            None => SqlValue::Null,
        };
        let complete = match self.complete {
            Some(complete) => complete,
            None => false,
        };
        let due_date = match self.due_date {
            Some(time) => SqlValue::Time(time),
            None => SqlValue::Null,
        };
        vec![
            SqlValue::Integer(self.list_id),
            set_id,
            SqlValue::Text(self.title.clone()),
            SqlValue::Boolean(complete),
            due_date,
        ]
    }
}

/// The words with which the storage boundary refuses a payload without
/// entries.
pub open spec fn no_entries_text() -> Seq<char> {
    "Caller Provided no entries to the database"@
}

/// The words with which the storage boundary refuses an update without
/// records.
pub open spec fn no_modification_text(table: Table) -> Seq<char> {
    "Can't have zero modification when running update on "@ + table.spec_name() + " Table."@
}

/// Whether a plan is the refusal of an operand without entries, in the
/// given words.
pub open spec fn refuses<S>(plan: Result<S, StorageError>, words: Seq<char>) -> bool {
    plan matches Err(StorageError::InvalidArgument(detail)) && detail@ == words
}

fn no_entries<S>() -> (plan: Result<S, StorageError>)
    ensures
        refuses(plan, no_entries_text()),
{
    Err(StorageError::InvalidArgument(String::from_str("Caller Provided no entries to the database")))
}

/// The insertion that a sequence of records asks for: one row for each
/// record, in the order of the records.
pub open spec fn spec_insert<R: CreateRecord>(entries: Seq<R>) -> StatementView {
    StatementView::Insert {
        table: R::spec_table(),
        columns: R::spec_columns(),
        rows: Seq::new(entries.len(), |i: int| entries[i].spec_row()),
    }
}

/// An insertion holds one row for each record and as many values in each
/// row as columns, in the order of the records.
pub proof fn lemma_insert_rows<R: CreateRecord>(entries: Seq<R>)
    ensures
        spec_insert(entries) matches StatementView::Insert { table, columns, rows }
            && table == R::spec_table() && columns == R::spec_columns() && rows.len()
            == entries.len() && forall|i: int|
            0 <= i < entries.len() ==> #[trigger] rows[i] == entries[i].spec_row(),
{
}

/// No record names the identifier of the row it asks for: the identifiers
/// of new rows are the store's to give.
pub proof fn lemma_insert_leaves_identifiers_to_the_store()
    ensures
        !CreateList::spec_columns().contains(Column::Id),
        !CreateSet::spec_columns().contains(Column::Id),
        !CreateToDo::spec_columns().contains(Column::Id),
{
}

/// Plans the insertion of new rows. No entries are an invalid argument.
pub fn insert_entries<R: CreateRecord>(entries: &Vec<R>) -> (plan: Result<Statement, StorageError>)
    ensures
        entries@.len() == 0 ==> refuses(plan, no_entries_text()),
        entries@.len() > 0 ==> (plan matches Ok(statement) && statement@ == spec_insert(entries@)),
{
    if entries.len() == 0 {
        return no_entries();
    }
    let mut rows: Vec<Vec<SqlValue>> = Vec::new();
    let mut i: usize = 0;
    while i < entries.len()
        invariant
            i <= entries.len(),
            rows@.len() == i,
            forall|k: int| 0 <= k < i ==> (#[trigger] rows@[k])@ == entries@[k].spec_row(),
        decreases entries.len() - i,
    {
        rows.push(entries[i].row());
        i += 1;
    }
    assert(rows_view(rows@) =~= Seq::new(entries@.len(), |i: int| entries@[i].spec_row()));
    Ok(Statement::Insert { table: R::table(), columns: R::columns(), rows })
}

/// The selection that targets ask for.
pub open spec fn spec_select<T: Target>(targets: Seq<T>) -> StatementView {
    StatementView::Select { table: T::spec_table(), predicate: spec_resolve_selector(targets) }
}

/// Plans the reading of the rows that the targets address.
pub fn select_targets<T: Target>(targets: &Vec<T>) -> (statement: Statement)
    ensures
        statement@ == spec_select(targets@),
{
    Statement::Select { table: T::table(), predicate: resolve_selector(targets) }
}

/// The deletion that targets ask for.
pub open spec fn spec_delete<T: Target>(targets: Seq<T>) -> StatementView {
    StatementView::Delete { table: T::spec_table(), predicate: spec_resolve_selector(targets) }
}

/// Plans the removal of the rows that the targets address. No targets are an
/// invalid argument: they are never taken to mean every row.
pub fn delete_targets<T: Target>(targets: &Vec<T>) -> (plan: Result<Statement, StorageError>)
    ensures
        targets@.len() == 0 ==> refuses(plan, no_entries_text()),
        targets@.len() > 0 ==> (plan matches Ok(statement) && statement@ == spec_delete(targets@)),
{
    if targets.len() == 0 {
        return no_entries();
    }
    Ok(Statement::Delete { table: T::table(), predicate: resolve_selector(targets) })
}

/// The statement that one update record asks for. A record that supplies no
/// field changes nothing: the rows it addresses are read, so that they are
/// part of the answer as they are.
pub open spec fn spec_update<R: UpdateRecord>(record: R) -> StatementView {
    if record.spec_assignments().len() == 0 {
        StatementView::Select { table: R::spec_table(), predicate: record.spec_predicate() }
    } else {
        StatementView::Update {
            table: R::spec_table(),
            assignments: record.spec_assignments(),
            predicate: record.spec_predicate(),
        }
    }
}

/// A record that supplies no field asks for no write: its rows are read
/// with the filter of its target. A record that supplies a field asks for
/// one update, of the supplied columns alone.
pub proof fn lemma_update_without_fields_reads<R: UpdateRecord>(record: R)
    ensures
        record.spec_assignments().len() == 0 ==> !spec_update(record).writes() && spec_update(
            record,
        ) == (StatementView::Select {
            table: R::spec_table(),
            predicate: record.spec_predicate(),
        }),
        record.spec_assignments().len() > 0 ==> spec_update(record).writes(),
        spec_update(record).table() == R::spec_table(),
{
}

/// Plans what one update record asks for.
pub fn update_record<R: UpdateRecord>(record: &R) -> (statement: Statement)
    ensures
        statement@ == spec_update(*record),
{
    let (assignments, predicate) = record.resolve_update();
    if assignments.len() == 0 {
        Statement::Select { table: R::table(), predicate }
    } else {
        Statement::Update { table: R::table(), assignments, predicate }
    }
}

/// Plans a batch of updates: one statement for each record, in the order of
/// the records, to be run in that order inside one transaction. A batch
/// without records is an invalid argument; a record without fields is not.
pub fn update_records<R: UpdateRecord>(mods: &Vec<R>) -> (plan: Result<Vec<Statement>, StorageError>)
    ensures
        mods@.len() == 0 ==> refuses(plan, no_modification_text(R::spec_table())),
        mods@.len() > 0 ==> (plan matches Ok(statements) && statements@.len() == mods@.len()
            && forall|i: int|
            0 <= i < mods@.len() ==> (#[trigger] statements@[i])@ == spec_update(mods@[i])),
{
    if mods.len() == 0 {
        let mut words = String::from_str("Can't have zero modification when running update on ");
        words.append(R::table().name());
        words.append(" Table.");
        return Err(StorageError::InvalidArgument(words));
    }
    let mut statements: Vec<Statement> = Vec::new();
    let mut i: usize = 0;
    while i < mods.len()
        invariant
            i <= mods.len(),
            statements@.len() == i,
            forall|k: int| 0 <= k < i ==> (#[trigger] statements@[k])@ == spec_update(mods@[k]),
        decreases mods.len() - i,
    {
        statements.push(update_record(&mods[i]));
        i += 1;
    }
    Ok(statements)
}

/// Plans the insertion of lists.
pub fn insert_lists(entries: Vec<CreateList>) -> (plan: Result<Statement, StorageError>)
    ensures
        entries@.len() == 0 ==> refuses(plan, no_entries_text()),
        entries@.len() > 0 ==> (plan matches Ok(statement) && statement@ == spec_insert(entries@)),
{
    insert_entries(&entries)
}

/// Plans the insertion of sets.
pub fn insert_sets(entries: Vec<CreateSet>) -> (plan: Result<Statement, StorageError>)
    ensures
        entries@.len() == 0 ==> refuses(plan, no_entries_text()),
        entries@.len() > 0 ==> (plan matches Ok(statement) && statement@ == spec_insert(entries@)),
{
    insert_entries(&entries)
}

/// Plans the insertion of to-dos.
pub fn insert_todos(entries: Vec<CreateToDo>) -> (plan: Result<Statement, StorageError>)
    ensures
        entries@.len() == 0 ==> refuses(plan, no_entries_text()),
        entries@.len() > 0 ==> (plan matches Ok(statement) && statement@ == spec_insert(entries@)),
{
    insert_entries(&entries)
}

/// Plans the reading of every list.
pub fn query_all_lists() -> (statement: Statement)
    ensures
        statement@ == (StatementView::SelectAll { table: Table::Lists }),
{
    Statement::SelectAll { table: Table::Lists }
}

/// Plans the reading of every set.
pub fn query_all_sets() -> (statement: Statement)
    ensures
        statement@ == (StatementView::SelectAll { table: Table::Sets }),
{
    Statement::SelectAll { table: Table::Sets }
}

/// Plans the reading of every to-do.
pub fn query_all_todos() -> (statement: Statement)
    ensures
        statement@ == (StatementView::SelectAll { table: Table::ToDos }),
{
    Statement::SelectAll { table: Table::ToDos }
}

/// Plans the reading of the lists with the given identifiers.
pub fn query_lists(adds: Vec<ListID>) -> (statement: Statement)
    ensures
        statement@ == spec_select(adds@),
{
    select_targets(&adds)
}

/// Plans the reading of the sets that the targets address.
pub fn query_sets(adds: Vec<SetQueryTarget>) -> (statement: Statement)
    ensures
        statement@ == spec_select(adds@),
{
    select_targets(&adds)
}

/// Plans the reading of the to-dos that the targets address.
pub fn query_todos(adds: Vec<ToDoQueryTarget>) -> (statement: Statement)
    ensures
        statement@ == spec_select(adds@),
{
    select_targets(&adds)
}

/// Plans the removal of the lists with the given identifiers.
pub fn delete_lists(adds: Vec<ListID>) -> (plan: Result<Statement, StorageError>)
    ensures
        adds@.len() == 0 ==> refuses(plan, no_entries_text()),
        adds@.len() > 0 ==> (plan matches Ok(statement) && statement@ == spec_delete(adds@)),
{
    delete_targets(&adds)
}

/// Plans the removal of the sets that the targets address.
pub fn delete_sets(adds: Vec<SetQueryTarget>) -> (plan: Result<Statement, StorageError>)
    ensures
        adds@.len() == 0 ==> refuses(plan, no_entries_text()),
        adds@.len() > 0 ==> (plan matches Ok(statement) && statement@ == spec_delete(adds@)),
{
    delete_targets(&adds)
}

/// Plans the removal of the to-dos that the targets address.
pub fn delete_todos(adds: Vec<ToDoQueryTarget>) -> (plan: Result<Statement, StorageError>)
    ensures
        adds@.len() == 0 ==> refuses(plan, no_entries_text()),
        adds@.len() > 0 ==> (plan matches Ok(statement) && statement@ == spec_delete(adds@)),
{
    delete_targets(&adds)
}

/// Plans a batch of updates of lists.
pub fn update_lists(mods: Vec<UpdateList>) -> (plan: Result<Vec<Statement>, StorageError>)
    ensures
        mods@.len() == 0 ==> refuses(plan, no_modification_text(UpdateList::spec_table())),
        mods@.len() > 0 ==> (plan matches Ok(statements) && statements@.len() == mods@.len()
            && forall|i: int|
            0 <= i < mods@.len() ==> (#[trigger] statements@[i])@ == spec_update(mods@[i])),
{
    update_records(&mods)
}

/// Plans a batch of updates of sets.
pub fn update_sets(mods: Vec<UpdateSet>) -> (plan: Result<Vec<Statement>, StorageError>)
    ensures
        mods@.len() == 0 ==> refuses(plan, no_modification_text(UpdateSet::spec_table())),
        mods@.len() > 0 ==> (plan matches Ok(statements) && statements@.len() == mods@.len()
            && forall|i: int|
            0 <= i < mods@.len() ==> (#[trigger] statements@[i])@ == spec_update(mods@[i])),
{
    update_records(&mods)
}

/// Plans a batch of updates of to-dos.
pub fn update_todos(mods: Vec<UpdateToDo>) -> (plan: Result<Vec<Statement>, StorageError>)
    ensures
        mods@.len() == 0 ==> refuses(plan, no_modification_text(UpdateToDo::spec_table())),
        mods@.len() > 0 ==> (plan matches Ok(statements) && statements@.len() == mods@.len()
            && forall|i: int|
            0 <= i < mods@.len() ==> (#[trigger] statements@[i])@ == spec_update(mods@[i])),
{
    update_records(&mods)
}

} // verus!
