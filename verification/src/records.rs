//! The records that create and update requests carry.
//!
//! In an update record a field that is `None` leaves its column as it is. A
//! column that can be empty has a field of two layers: `Some(None)` clears
//! the column, `Some(Some(v))` sets it to `v`.

use crate::types::{ListID, SetID, SetQueryTarget, Timestamp, ToDoQueryTarget};
use vstd::prelude::*;

verus! {

#[derive(Debug, Clone)]
pub struct CreateList {
    pub title: String,
}

#[derive(Debug, Clone)]
pub struct CreateSet {
    pub list_id: ListID,
    pub title: String,
}

#[derive(Debug, Clone)]
pub struct CreateToDo {
    pub list_id: ListID,
    pub set_id: Option<SetID>,
    pub title: String,
    pub complete: Option<bool>,
    pub due_date: Option<Timestamp>,
}

#[derive(Debug, Clone)]
pub struct UpdateList {
    pub list_id: ListID,
    pub title: Option<String>,
}

#[derive(Debug, Clone)]
pub struct UpdateSet {
    pub target: SetQueryTarget,
    pub list_id: Option<ListID>,
    pub title: Option<String>,
}

#[derive(Debug, Clone)]
pub struct UpdateToDo {
    pub target: ToDoQueryTarget,
    pub set_id: Option<Option<SetID>>,
    pub list_id: Option<ListID>,
    pub title: Option<String>,
    pub complete: Option<bool>,
    pub due_date: Option<Option<Timestamp>>,
}

} // verus!
