//! The three kinds of record. Two records of one kind with the same
//! identifier are the same entity, whatever their other fields hold: equality
//! and order go by the identifier alone.

use crate::types::{ListID, SetID, Timestamp, ToDoID};
use std::cmp::Ordering;
use vstd::prelude::*;
use vstd::std_specs::cmp::{PartialEqSpecImpl, PartialOrdSpecImpl};

verus! {

/// The order of two identifiers.
pub open spec fn order_of_ids(a: i32, b: i32) -> Ordering {
    if a < b {
        Ordering::Less
    } else if a == b {
        Ordering::Equal
    } else {
        Ordering::Greater
    }
}

fn id_order(a: i32, b: i32) -> (order: Ordering)
    ensures
        order == order_of_ids(a, b),
{
    if a < b {
        Ordering::Less
    } else if a == b {
        Ordering::Equal
    } else {
        Ordering::Greater
    }
}

/// A list: the root entity.
#[derive(Debug, Clone)]
pub struct List {
    pub id: ListID,
    pub title: String,
}

impl PartialEq for List {
    fn eq(&self, other: &Self) -> (r: bool) {
        self.id == other.id
    }
}

impl PartialEqSpecImpl for List {
    open spec fn obeys_eq_spec() -> bool {
        true
    }

    open spec fn eq_spec(&self, other: &Self) -> bool {
        self.id == other.id
    }
}

impl Eq for List {

}

impl PartialOrd for List {
    fn partial_cmp(&self, other: &Self) -> (r: Option<Ordering>) {
        Some(id_order(self.id, other.id))
    }
}

impl PartialOrdSpecImpl for List {
    open spec fn obeys_partial_cmp_spec() -> bool {
        true
    }

    open spec fn partial_cmp_spec(&self, other: &Self) -> Option<Ordering> {
        Some(order_of_ids(self.id, other.id))
    }
}

/// A set: owned by exactly one list.
#[derive(Debug, Clone)]
pub struct ToDoSet {
    pub id: SetID,
    pub list_id: ListID,
    pub title: String,
}

impl PartialEq for ToDoSet {
    fn eq(&self, other: &Self) -> (r: bool) {
        self.id == other.id
    }
}

impl PartialEqSpecImpl for ToDoSet {
    open spec fn obeys_eq_spec() -> bool {
        true
    }

    open spec fn eq_spec(&self, other: &Self) -> bool {
        self.id == other.id
    }
}

impl Eq for ToDoSet {

}

impl PartialOrd for ToDoSet {
    fn partial_cmp(&self, other: &Self) -> (r: Option<Ordering>) {
        Some(id_order(self.id, other.id))
    }
}

impl PartialOrdSpecImpl for ToDoSet {
    open spec fn obeys_partial_cmp_spec() -> bool {
        true
    }

    open spec fn partial_cmp_spec(&self, other: &Self) -> Option<Ordering> {
        Some(order_of_ids(self.id, other.id))
    }
}

/// A to-do: owned by exactly one list, and in it by at most one set.
#[derive(Debug, Clone)]
pub struct ToDo {
    pub id: ToDoID,
    pub set_id: Option<SetID>,
    pub list_id: ListID,
    pub title: String,
    pub complete: bool,
    pub due_date: Option<Timestamp>,
}

impl PartialEq for ToDo {
    fn eq(&self, other: &Self) -> (r: bool) {
        self.id == other.id
    }
}

impl PartialEqSpecImpl for ToDo {
    open spec fn obeys_eq_spec() -> bool {
        true
    }

    open spec fn eq_spec(&self, other: &Self) -> bool {
        self.id == other.id
    }
}

impl Eq for ToDo {

}

impl PartialOrd for ToDo {
    fn partial_cmp(&self, other: &Self) -> (r: Option<Ordering>) {
        Some(id_order(self.id, other.id))
    }
}

impl PartialOrdSpecImpl for ToDo {
    open spec fn obeys_partial_cmp_spec() -> bool {
        true
    }

    open spec fn partial_cmp_spec(&self, other: &Self) -> Option<Ordering> {
        Some(order_of_ids(self.id, other.id))
    }
}

} // verus!
