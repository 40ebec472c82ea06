//! The entities of the service and the values that address them.

use vstd::prelude::*;
use vstd::string::*;

verus! {

pub type ListID = i32;

pub type SetID = i32;

pub type ToDoID = i32;

/// A point in time: whole seconds since the start of 1970 in UTC, and the
/// nanoseconds into that second.
#[derive(Clone, Copy, Debug, PartialEq, Eq, Hash, Structural)]
pub struct Timestamp {
    pub seconds: i64,
    pub nanoseconds: u32,
}

/// Addresses sets: every set of a list, or one set by its own identifier.
#[derive(Clone, Copy, Debug, PartialEq, Eq, Hash, Structural)]
pub enum SetQueryTarget {
    List(ListID),
    ToDoSet(SetID),
}

/// Addresses to-dos: every to-do of a list, every to-do of a set, or one
/// to-do by its own identifier.
#[derive(Clone, Copy, Debug, PartialEq, Eq, Hash, Structural)]
pub enum ToDoQueryTarget {
    List(ListID),
    ToDoSet(SetID),
    ToDo(ToDoID),
}

/// The word that stands for "the whole list" on the wire.
pub open spec fn list_tag() -> Seq<char> {
    "list"@
}

/// The word that stands for "the whole set", or "this set", on the wire.
pub open spec fn set_tag() -> Seq<char> {
    "set"@
}

/// The word that stands for "this to-do" on the wire.
pub open spec fn todo_tag() -> Seq<char> {
    "todo"@
}

/// The three wire words differ from each other.
pub proof fn lemma_tags_differ()
    ensures
        list_tag() != set_tag(),
        list_tag() != todo_tag(),
        set_tag() != todo_tag(),
{
    reveal_strlit("list");
    reveal_strlit("set");
    reveal_strlit("todo");
    assert("list"@.len() == 4);
    assert("set"@.len() == 3);
    assert("list"@[0] == 'l');
    assert("todo"@[0] == 't');
    assert("todo"@.len() == 4);
}

fn same_text(a: &str, b: &str) -> (same: bool)
    ensures
        same == (a@ == b@),
{
    String::from_str(a) == String::from_str(b)
}

impl SetQueryTarget {
    /// The discriminant that the target carries on the wire.
    pub open spec fn spec_wire_tag(&self) -> Seq<char> {
        match self {
            SetQueryTarget::List(_) => list_tag(),
            SetQueryTarget::ToDoSet(_) => set_tag(),
        }
    }

    /// The identifier that the target carries on the wire.
    pub open spec fn spec_wire_id(&self) -> i32 {
        match self {
            SetQueryTarget::List(id) => *id,
            SetQueryTarget::ToDoSet(id) => *id,
        }
    }

    /// The target that a discriminant and an identifier stand for, if the
    /// discriminant is one of this kind.
    pub open spec fn spec_from_wire(tag: Seq<char>, id: i32) -> Option<SetQueryTarget> {
        if tag == list_tag() {
            Some(SetQueryTarget::List(id))
        } else if tag == set_tag() {
            Some(SetQueryTarget::ToDoSet(id))
        } else {
            None
        }
    }

    pub fn wire_tag(&self) -> (tag: &'static str)
        ensures
            tag@ == self.spec_wire_tag(),
    {
        match self {
            SetQueryTarget::List(_) => "list",
            SetQueryTarget::ToDoSet(_) => "set",
        }
    }

    pub fn wire_id(&self) -> (id: i32)
        ensures
            id == self.spec_wire_id(),
    {
        match self {
            SetQueryTarget::List(id) => *id,
            SetQueryTarget::ToDoSet(id) => *id,
        }
    }

    /// Reads a target from its discriminant and identifier. An unknown
    /// discriminant gives nothing.
    pub fn from_wire(tag: &str, id: i32) -> (target: Option<SetQueryTarget>)
        ensures
            target == Self::spec_from_wire(tag@, id),
    {
        if same_text(tag, "list") {
            Some(SetQueryTarget::List(id))
        } else if same_text(tag, "set") {
            Some(SetQueryTarget::ToDoSet(id))
        } else {
            None
        }
    }

    /// Writing a target and reading it back gives the same target.
    pub proof fn lemma_wire_round_trip(self)
        ensures
            Self::spec_from_wire(self.spec_wire_tag(), self.spec_wire_id()) == Some(self),
    {
        lemma_tags_differ();
    }

    /// Reading succeeds exactly on the two discriminants of this kind, and
    /// what it gives writes back to what was read.
    pub proof fn lemma_wire_reads(tag: Seq<char>, id: i32)
        ensures
            Self::spec_from_wire(tag, id) is Some <==> tag == list_tag() || tag == set_tag(),
            Self::spec_from_wire(tag, id) matches Some(target) ==> target.spec_wire_tag() == tag
                && target.spec_wire_id() == id,
    {
    }
}

impl ToDoQueryTarget {
    /// The discriminant that the target carries on the wire.
    pub open spec fn spec_wire_tag(&self) -> Seq<char> {
        match self {
            ToDoQueryTarget::List(_) => list_tag(),
            ToDoQueryTarget::ToDoSet(_) => set_tag(),
            ToDoQueryTarget::ToDo(_) => todo_tag(),
        }
    }

    /// The identifier that the target carries on the wire.
    pub open spec fn spec_wire_id(&self) -> i32 {
        match self {
            ToDoQueryTarget::List(id) => *id,
            ToDoQueryTarget::ToDoSet(id) => *id,
            ToDoQueryTarget::ToDo(id) => *id,
        }
    }

    /// The target that a discriminant and an identifier stand for, if the
    /// discriminant is one of this kind.
    pub open spec fn spec_from_wire(tag: Seq<char>, id: i32) -> Option<ToDoQueryTarget> {
        if tag == list_tag() {
            Some(ToDoQueryTarget::List(id))
        } else if tag == set_tag() {
            Some(ToDoQueryTarget::ToDoSet(id))
        } else if tag == todo_tag() {
            Some(ToDoQueryTarget::ToDo(id))
        } else {
            None
        }
    }

    pub fn wire_tag(&self) -> (tag: &'static str)
        ensures
            tag@ == self.spec_wire_tag(),
    {
        match self {
            ToDoQueryTarget::List(_) => "list",
            ToDoQueryTarget::ToDoSet(_) => "set",
            ToDoQueryTarget::ToDo(_) => "todo",
        }
    }

    pub fn wire_id(&self) -> (id: i32)
        ensures
            id == self.spec_wire_id(),
    {
        match self {
            ToDoQueryTarget::List(id) => *id,
            ToDoQueryTarget::ToDoSet(id) => *id,
            ToDoQueryTarget::ToDo(id) => *id,
        }
    }

    /// Reads a target from its discriminant and identifier. An unknown
    /// discriminant gives nothing.
    pub fn from_wire(tag: &str, id: i32) -> (target: Option<ToDoQueryTarget>)
        ensures
            target == Self::spec_from_wire(tag@, id),
    {
        if same_text(tag, "list") {
            Some(ToDoQueryTarget::List(id))
        } else if same_text(tag, "set") {
            Some(ToDoQueryTarget::ToDoSet(id))
        } else if same_text(tag, "todo") {
            Some(ToDoQueryTarget::ToDo(id))
        } else {
            None
        }
    }

    /// Writing a target and reading it back gives the same target.
    pub proof fn lemma_wire_round_trip(self)
        ensures
            Self::spec_from_wire(self.spec_wire_tag(), self.spec_wire_id()) == Some(self),
    {
        lemma_tags_differ();
    }

    /// Reading succeeds exactly on the three discriminants of this kind, and
    /// what it gives writes back to what was read.
    pub proof fn lemma_wire_reads(tag: Seq<char>, id: i32)
        ensures
            Self::spec_from_wire(tag, id) is Some <==> tag == list_tag() || tag == set_tag() || tag
                == todo_tag(),
            Self::spec_from_wire(tag, id) matches Some(target) ==> target.spec_wire_tag() == tag
                && target.spec_wire_id() == id,
    {
    }
}

} // verus!
