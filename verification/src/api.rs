//! The operations of the service, one for each verb and kind of entity.
//!
//! Each operation has two halves with the storage between them. The first
//! takes the classified request and either turns it away or says what the
//! storage is to run. The second takes what the storage returned and forms
//! the answer.

use crate::db::{
    delete_targets, insert_entries, select_targets, spec_delete, spec_insert, spec_select,
    spec_update, update_records, CreateRecord,
};
use crate::dispatch::{
    gate, gate_read, map_query_err, query_error_category, query_error_detail, turns_away_empty,
    turns_away_invalid, StorageError,
};
use crate::error::JsonError;
use crate::extractor::MaybeJson;
use crate::query::Target;
use crate::records::{CreateList, CreateSet, CreateToDo, UpdateList, UpdateSet, UpdateToDo};
use crate::rows::{collect, is_result_set, Identified};
use crate::statement::{Statement, StatementView};
use crate::types::{ListID, SetQueryTarget, ToDoQueryTarget};
use crate::update::UpdateRecord;
use vstd::prelude::*;

verus! {

/// Whether `answer` is what a create request leads to: the insertion of its
/// entries, or the error that turns it away.
pub open spec fn creates<R: CreateRecord>(
    req: MaybeJson<Vec<R>>,
    answer: Result<Statement, JsonError>,
) -> bool {
    match req {
        MaybeJson::Valid(entries) => if entries@.len() == 0 {
            turns_away_empty(answer)
        } else {
            answer matches Ok(statement) && statement@ == spec_insert(entries@)
        },
        MaybeJson::Empty => turns_away_empty(answer),
        MaybeJson::Invalid(reason) => turns_away_invalid(reason, answer),
    }
}

/// Whether `answer` is what a read request leads to: every row where no
/// filter was sent, the rows that the filter addresses where one was, or the
/// error that turns the request away.
pub open spec fn reads<T: Target>(
    req: MaybeJson<Vec<T>>,
    answer: Result<Statement, JsonError>,
) -> bool {
    match req {
        MaybeJson::Valid(filter) => answer matches Ok(statement) && statement@ == (if filter@.len()
            == 0 {
            StatementView::SelectAll { table: T::spec_table() }
        } else {
            spec_select(filter@)
        }),
        MaybeJson::Empty => answer matches Ok(statement) && statement@ == (
        StatementView::SelectAll { table: T::spec_table() }),
        MaybeJson::Invalid(reason) => turns_away_invalid(reason, answer),
    }
}

/// Whether `answer` is what an update request leads to: one statement for
/// each record, in the order of the records, or the error that turns the
/// request away.
pub open spec fn updates<R: UpdateRecord>(
    req: MaybeJson<Vec<R>>,
    answer: Result<Vec<Statement>, JsonError>,
) -> bool {
    match req {
        MaybeJson::Valid(mods) => if mods@.len() == 0 {
            turns_away_empty(answer)
        } else {
            answer matches Ok(statements) && statements@.len() == mods@.len() && forall|i: int|
                0 <= i < mods@.len() ==> (#[trigger] statements@[i])@ == spec_update(mods@[i])
        },
        MaybeJson::Empty => turns_away_empty(answer),
        MaybeJson::Invalid(reason) => turns_away_invalid(reason, answer),
    }
}

/// Whether `answer` is what a delete request leads to: the removal of the
/// rows that its targets address, or the error that turns it away.
pub open spec fn deletes<T: Target>(
    req: MaybeJson<Vec<T>>,
    answer: Result<Statement, JsonError>,
) -> bool {
    match req {
        MaybeJson::Valid(targets) => if targets@.len() == 0 {
            turns_away_empty(answer)
        } else {
            answer matches Ok(statement) && statement@ == spec_delete(targets@)
        },
        MaybeJson::Empty => turns_away_empty(answer),
        MaybeJson::Invalid(reason) => turns_away_invalid(reason, answer),
    }
}

/// Whether `answer` is what the storage's outcome leads to: the result set
/// of the rows it returned, or its failure as the caller is told of it.
pub open spec fn responds<E: Identified>(
    outcome: Result<Vec<E>, StorageError>,
    answer: Result<Vec<E>, JsonError>,
) -> bool {
    match outcome {
        Ok(rows) => answer matches Ok(set) && is_result_set(rows@, set@),
        Err(err) => answer matches Err(error) && error.says(
            query_error_category(err),
            query_error_detail(err),
        ),
    }
}

/// The first half of a create operation.
pub fn create<R: CreateRecord>(req: MaybeJson<Vec<R>>) -> (answer: Result<Statement, JsonError>)
    ensures
        creates(req, answer),
{
    match gate(req) {
        Ok(entries) => match insert_entries(&entries) {
            Ok(statement) => Ok(statement),
            Err(err) => Err(map_query_err(err)),
        },
        Err(error) => Err(error),
    }
}

/// The first half of a read operation.
pub fn read<T: Target>(req: MaybeJson<Vec<T>>) -> (answer: Result<Statement, JsonError>)
    ensures
        reads(req, answer),
{
    match gate_read(req) {
        Ok(Some(filter)) => Ok(select_targets(&filter)),
        Ok(None) => Ok(Statement::SelectAll { table: T::table() }),
        Err(error) => Err(error),
    }
}

/// The first half of an update operation.
pub fn update<R: UpdateRecord>(req: MaybeJson<Vec<R>>) -> (answer: Result<Vec<Statement>, JsonError>)
    ensures
        updates(req, answer),
{
    match gate(req) {
        Ok(mods) => match update_records(&mods) {
            Ok(statements) => Ok(statements),
            Err(err) => Err(map_query_err(err)),
        },
        Err(error) => Err(error),
    }
}

/// The first half of a delete operation.
pub fn delete<T: Target>(req: MaybeJson<Vec<T>>) -> (answer: Result<Statement, JsonError>)
    ensures
        deletes(req, answer),
{
    match gate(req) {
        Ok(targets) => match delete_targets(&targets) {
            Ok(statement) => Ok(statement),
            Err(err) => Err(map_query_err(err)),
        },
        Err(error) => Err(error),
    }
}

/// The second half of every operation: the rows that the storage returned
/// become a result set, its failure becomes an error of the taxonomy.
pub fn respond<E: Identified>(outcome: Result<Vec<E>, StorageError>) -> (answer: Result<
    Vec<E>,
    JsonError,
>)
    ensures
        responds(outcome, answer),
{
    match outcome {
        Ok(rows) => Ok(collect(rows)),
        Err(err) => Err(map_query_err(err)),
    }
}

/// `POST /api/lists`: asks for the insertion of the lists that the request describes.
pub fn create_lists(req: MaybeJson<Vec<CreateList>>) -> (answer: Result<Statement, JsonError>)
    ensures
        creates(req, answer),
{
    create(req)
}

/// `POST /api/sets`: asks for the insertion of the sets that the request describes.
pub fn create_sets(req: MaybeJson<Vec<CreateSet>>) -> (answer: Result<Statement, JsonError>)
    ensures
        creates(req, answer),
{
    create(req)
}

/// `POST /api/to_dos`: asks for the insertion of the to-dos that the request describes.
pub fn create_to_dos(req: MaybeJson<Vec<CreateToDo>>) -> (answer: Result<Statement, JsonError>)
    ensures
        creates(req, answer),
{
    create(req)
}

/// `GET /api/lists`: asks for the lists with the given identifiers, or for all.
pub fn read_lists(req: MaybeJson<Vec<ListID>>) -> (answer: Result<Statement, JsonError>)
    ensures
        reads(req, answer),
{
    read(req)
}

/// `GET /api/sets`: asks for the sets that the targets address, or for all.
pub fn read_sets(req: MaybeJson<Vec<SetQueryTarget>>) -> (answer: Result<Statement, JsonError>)
    ensures
        reads(req, answer),
{
    read(req)
}

/// `GET /api/to_dos`: asks for the to-dos that the targets address, or for all.
pub fn read_to_dos(req: MaybeJson<Vec<ToDoQueryTarget>>) -> (answer: Result<Statement, JsonError>)
    ensures
        reads(req, answer),
{
    read(req)
}

/// `PUT /api/lists`: asks for the changes that the records describe.
pub fn update_lists(req: MaybeJson<Vec<UpdateList>>) -> (answer: Result<Vec<Statement>, JsonError>)
    ensures
        updates(req, answer),
{
    update(req)
}

/// `PUT /api/sets`: asks for the changes that the records describe.
pub fn update_sets(req: MaybeJson<Vec<UpdateSet>>) -> (answer: Result<Vec<Statement>, JsonError>)
    ensures
        updates(req, answer),
{
    update(req)
}

/// `PUT /api/to_dos`: asks for the changes that the records describe.
pub fn update_to_dos(req: MaybeJson<Vec<UpdateToDo>>) -> (answer: Result<Vec<Statement>, JsonError>)
    ensures
        updates(req, answer),
{
    update(req)
}

/// `DELETE /api/lists`: asks for the removal of the lists with the given identifiers.
pub fn delete_lists(req: MaybeJson<Vec<ListID>>) -> (answer: Result<Statement, JsonError>)
    ensures
        deletes(req, answer),
{
    delete(req)
}

/// `DELETE /api/sets`: asks for the removal of the sets that the targets address.
pub fn delete_sets(req: MaybeJson<Vec<SetQueryTarget>>) -> (answer: Result<Statement, JsonError>)
    ensures
        deletes(req, answer),
{
    delete(req)
}

/// `DELETE /api/to_dos`: asks for the removal of the to-dos that the targets address.
pub fn delete_to_dos(req: MaybeJson<Vec<ToDoQueryTarget>>) -> (answer: Result<Statement, JsonError>)
    ensures
        deletes(req, answer),
{
    delete(req)
}

} // verus!
