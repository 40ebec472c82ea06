//! The query resolution layer: from targets to the filter that selects the
//! rows they address, and from an update record to the columns it sets.

use crate::types::{ListID, SetQueryTarget, Timestamp, ToDoQueryTarget};
use vstd::prelude::*;

verus! {

/// The tables of the store, one per kind of entity.
#[derive(Clone, Copy, Debug, PartialEq, Eq, Structural)]
pub enum Table {
    Lists,
    Sets,
    ToDos,
}

/// The columns of the store.
#[derive(Clone, Copy, Debug, PartialEq, Eq, Structural)]
pub enum Column {
    Id,
    ListId,
    SetId,
    Title,
    Complete,
    DueDate,
}

/// A value that is written to a column.
#[derive(Clone, Debug)]
pub enum SqlValue {
    Null,
    Integer(i32),
    Boolean(bool),
    Text(String),
    Time(Timestamp),
}

/// The identifiers by which a row can be addressed: its own, and those of
/// the list and the set that own it, where it has such owners.
pub struct Keys {
    pub id: i32,
    pub list_id: Option<i32>,
    pub set_id: Option<i32>,
}

impl Keys {
    /// The identifier that a row holds in a column, if the column holds one.
    pub open spec fn value(&self, column: Column) -> Option<i32> {
        match column {
            Column::Id => Some(self.id),
            Column::ListId => self.list_id,
            Column::SetId => self.set_id,
            _ => None,
        }
    }
}

impl Table {
    /// The columns by which rows of the table can be addressed, in the order
    /// in which a filter names them: owners first, the row itself last.
    pub open spec fn spec_address_columns(&self) -> Seq<Column> {
        match self {
            Table::Lists => seq![Column::Id],
            Table::Sets => seq![Column::ListId, Column::Id],
            Table::ToDos => seq![Column::ListId, Column::SetId, Column::Id],
        }
    }

    pub fn address_columns(&self) -> (columns: Vec<Column>)
        ensures
            columns@ == self.spec_address_columns(),
    {
        match self {
            Table::Lists => vec![Column::Id],
            Table::Sets => vec![Column::ListId, Column::Id],
            Table::ToDos => vec![Column::ListId, Column::SetId, Column::Id],
        }
    }
}

impl Table {
    /// The name of the table in the store.
    pub open spec fn spec_name(&self) -> Seq<char> {
        match self {
            Table::Lists => "Lists"@,
            Table::Sets => "Sets"@,
            Table::ToDos => "Todos"@,
        }
    }

    pub fn name(&self) -> (name: &'static str)
        ensures
            name@ == self.spec_name(),
    {
        match self {
            Table::Lists => "Lists",
            Table::Sets => "Sets",
            Table::ToDos => "Todos",
        }
    }
}

impl Column {
    /// The name of the column in the store.
    pub open spec fn spec_name(&self) -> Seq<char> {
        match self {
            Column::Id => "id"@,
            Column::ListId => "list_id"@,
            Column::SetId => "set_id"@,
            Column::Title => "title"@,
            Column::Complete => "complete"@,
            Column::DueDate => "due_date"@,
        }
    }

    pub fn name(&self) -> (name: &'static str)
        ensures
            name@ == self.spec_name(),
    {
        match self {
            Column::Id => "id",
            Column::ListId => "list_id",
            Column::SetId => "set_id",
            Column::Title => "title",
            Column::Complete => "complete",
            Column::DueDate => "due_date",
        }
    }
}


/// A value that addresses rows of one table: every row that holds a given
/// identifier in a given column.
pub trait Target: Sized {
    /// The table whose rows are addressed.
    spec fn spec_table() -> Table;

    /// The column that is compared.
    spec fn spec_column(&self) -> Column;

    /// The identifier that the column has to hold.
    spec fn spec_id(&self) -> i32;

    /// The column is one by which the table can be addressed.
    proof fn lemma_addressable(&self)
        ensures
            Self::spec_table().spec_address_columns().contains(self.spec_column()),
    ;

    fn table() -> (table: Table)
        ensures
            table == Self::spec_table(),
    ;

    fn column(&self) -> (column: Column)
        ensures
            column == self.spec_column(),
    ;

    fn id(&self) -> (id: i32)
        ensures
            id == self.spec_id(),
    ;
}

/// A list is addressed by its own identifier, and by nothing else.
impl Target for ListID {
    open spec fn spec_table() -> Table {
        Table::Lists
    }

    open spec fn spec_column(&self) -> Column {
        Column::Id
    }

    open spec fn spec_id(&self) -> i32 {
        *self
    }

    proof fn lemma_addressable(&self) {
        assert(Table::Lists.spec_address_columns()[0] == Column::Id);
    }

    fn table() -> (table: Table) {
        Table::Lists
    }

    fn column(&self) -> (column: Column) {
        Column::Id
    }

    fn id(&self) -> (id: i32) {
        *self
    }
}

impl Target for SetQueryTarget {
    open spec fn spec_table() -> Table {
        Table::Sets
    }

    open spec fn spec_column(&self) -> Column {
        match self {
            SetQueryTarget::List(_) => Column::ListId,
            SetQueryTarget::ToDoSet(_) => Column::Id,
        }
    }

    open spec fn spec_id(&self) -> i32 {
        self.spec_wire_id()
    }

    proof fn lemma_addressable(&self) {
        assert(Table::Sets.spec_address_columns()[0] == Column::ListId);
        assert(Table::Sets.spec_address_columns()[1] == Column::Id);
    }

    fn table() -> (table: Table) {
        Table::Sets
    }

    fn column(&self) -> (column: Column) {
        match self {
            SetQueryTarget::List(_) => Column::ListId,
            SetQueryTarget::ToDoSet(_) => Column::Id,
        }
    }

    fn id(&self) -> (id: i32) {
        self.wire_id()
    }
}

impl Target for ToDoQueryTarget {
    open spec fn spec_table() -> Table {
        Table::ToDos
    }

    open spec fn spec_column(&self) -> Column {
        match self {
            ToDoQueryTarget::List(_) => Column::ListId,
            ToDoQueryTarget::ToDoSet(_) => Column::SetId,
            ToDoQueryTarget::ToDo(_) => Column::Id,
        }
    }

    open spec fn spec_id(&self) -> i32 {
        self.spec_wire_id()
    }

    proof fn lemma_addressable(&self) {
        assert(Table::ToDos.spec_address_columns()[0] == Column::ListId);
        assert(Table::ToDos.spec_address_columns()[1] == Column::SetId);
        assert(Table::ToDos.spec_address_columns()[2] == Column::Id);
    }

    fn table() -> (table: Table) {
        Table::ToDos
    }

    fn column(&self) -> (column: Column) {
        match self {
            ToDoQueryTarget::List(_) => Column::ListId,
            ToDoQueryTarget::ToDoSet(_) => Column::SetId,
            ToDoQueryTarget::ToDo(_) => Column::Id,
        }
    }

    fn id(&self) -> (id: i32) {
        self.wire_id()
    }
}

/// Whether a target addresses the row with the given keys.
pub open spec fn addresses<T: Target>(target: T, keys: Keys) -> bool {
    keys.value(target.spec_column()) == Some(target.spec_id())
}

/// One inclusion list of a filter: the rows that hold one of the given
/// identifiers in the given column.
#[derive(Clone, Debug)]
pub struct Clause {
    pub column: Column,
    pub ids: Vec<i32>,
}

/// A clause as a mathematical value.
pub struct ClauseView {
    pub column: Column,
    pub ids: Seq<i32>,
}

impl View for Clause {
    type V = ClauseView;

    open spec fn view(&self) -> ClauseView {
        ClauseView { column: self.column, ids: self.ids@ }
    }
}

impl ClauseView {
    /// Whether the row with the given keys is in the inclusion list.
    pub open spec fn matches(&self, keys: Keys) -> bool {
        keys.value(self.column) matches Some(id) && self.ids.contains(id)
    }
}

/// A filter: the rows that at least one of its clauses matches.
#[derive(Clone, Debug)]
pub struct Predicate {
    pub clauses: Vec<Clause>,
}

impl View for Predicate {
    type V = Seq<ClauseView>;

    open spec fn view(&self) -> Seq<ClauseView> {
        Seq::new(self.clauses@.len(), |i: int| self.clauses@[i]@)
    }
}

/// Whether a filter selects the row with the given keys.
pub open spec fn selects(predicate: Seq<ClauseView>, keys: Keys) -> bool {
    exists|i: int| 0 <= i < predicate.len() && #[trigger] predicate[i].matches(keys)
}

/// The identifiers of the targets that compare the given column, in the
/// order of the targets.
pub open spec fn ids_for<T: Target>(targets: Seq<T>, column: Column) -> Seq<i32> {
    targets.filter(|target: T| target.spec_column() == column).map_values(
        |target: T| target.spec_id(),
    )
}

/// The filter that a sequence of targets resolves to: one inclusion list
/// for each column by which their table can be addressed.
pub open spec fn spec_resolve_selector<T: Target>(targets: Seq<T>) -> Seq<ClauseView> {
    let columns = T::spec_table().spec_address_columns();
    Seq::new(
        columns.len(),
        |i: int| ClauseView { column: columns[i], ids: ids_for(targets, columns[i]) },
    )
}

fn collect_ids<T: Target>(targets: &Vec<T>, column: Column) -> (ids: Vec<i32>)
    ensures
        ids@ == ids_for(targets@, column),
{
    let mut ids: Vec<i32> = Vec::new();
    let mut i: usize = 0;
    assert(targets@.take(0) =~= Seq::<T>::empty());
    while i < targets.len()
        invariant
            i <= targets.len(),
            ids@ == ids_for(targets@.take(i as int), column),
        decreases targets.len() - i,
    {
        proof {
            let next = targets@.take(i + 1);
            assert(next.drop_last() =~= targets@.take(i as int));
            assert(next.last() == targets@[i as int]);
            reveal_with_fuel(Seq::filter, 2);
        }
        if targets[i].column() == column {
            ids.push(targets[i].id());
        }
        i += 1;
    }
    assert(targets@.take(i as int) =~= targets@);
    ids
}

/// Resolves targets to the filter that selects the rows they address.
pub fn resolve_selector<T: Target>(targets: &Vec<T>) -> (predicate: Predicate)
    ensures
        predicate@ == spec_resolve_selector(targets@),
{
    let columns = T::table().address_columns();
    let mut clauses: Vec<Clause> = Vec::new();
    let mut i: usize = 0;
    while i < columns.len()
        invariant
            i <= columns.len(),
            columns@ == T::spec_table().spec_address_columns(),
            clauses@.len() == i,
            forall|k: int|
                0 <= k < i ==> (#[trigger] clauses@[k])@ == (ClauseView {
                    column: columns@[k],
                    ids: ids_for(targets@, columns@[k]),
                }),
        decreases columns.len() - i,
    {
        let column = columns[i];
        clauses.push(Clause { column, ids: collect_ids(targets, column) });
        i += 1;
    }
    let predicate = Predicate { clauses };
    assert(predicate@ =~= spec_resolve_selector(targets@));
    predicate
}

/// An identifier is in the inclusion list of a column exactly if one of the
/// targets compares that column with it.
pub proof fn lemma_ids_for_contains<T: Target>(targets: Seq<T>, column: Column, id: i32)
    ensures
        ids_for(targets, column).contains(id) <==> exists|i: int|
            0 <= i < targets.len() && (#[trigger] targets[i]).spec_column() == column
                && targets[i].spec_id() == id,
    decreases targets.len(),
{
    let found = exists|i: int|
        0 <= i < targets.len() && (#[trigger] targets[i]).spec_column() == column
            && targets[i].spec_id() == id;
    if targets.len() == 0 {
        assert(ids_for(targets, column) =~= Seq::<i32>::empty());
    } else {
        let rest = targets.drop_last();
        let last = targets.last();
        lemma_ids_for_contains(rest, column, id);
        reveal_with_fuel(Seq::filter, 2);
        if last.spec_column() == column {
            assert(ids_for(targets, column) =~= ids_for(rest, column).push(last.spec_id()));
            let ids = ids_for(targets, column);
            if ids.contains(id) {
                let k = choose|k: int| 0 <= k < ids.len() && ids[k] == id;
                if k == ids.len() - 1 {
                    assert(targets[targets.len() - 1].spec_column() == column);
                } else {
                    assert(ids_for(rest, column)[k] == id);
                    let i = choose|i: int|
                        0 <= i < rest.len() && (#[trigger] rest[i]).spec_column() == column
                            && rest[i].spec_id() == id;
                    assert(targets[i] == rest[i]);
                }
            }
            if found {
                let i = choose|i: int|
                    0 <= i < targets.len() && (#[trigger] targets[i]).spec_column() == column
                        && targets[i].spec_id() == id;
                if i == targets.len() - 1 {
                    assert(ids[ids.len() - 1] == id);
                } else {
                    assert(rest[i] == targets[i]);
                    let k = choose|k: int|
                        0 <= k < ids_for(rest, column).len() && ids_for(rest, column)[k] == id;
                    assert(ids[k] == id);
                }
            }
        } else {
            assert(ids_for(targets, column) =~= ids_for(rest, column));
            if ids_for(rest, column).contains(id) {
                let i = choose|i: int|
                    0 <= i < rest.len() && (#[trigger] rest[i]).spec_column() == column
                        && rest[i].spec_id() == id;
                assert(targets[i] == rest[i]);
            }
            if found {
                let i = choose|i: int|
                    0 <= i < targets.len() && (#[trigger] targets[i]).spec_column() == column
                        && targets[i].spec_id() == id;
                assert(rest[i] == targets[i]);
            }
        }
    }
}

/// The filter that targets resolve to selects exactly the rows that at
/// least one of the targets addresses. No targets select no row.
pub proof fn lemma_selector_selects<T: Target>(targets: Seq<T>, keys: Keys)
    ensures
        selects(spec_resolve_selector(targets), keys) <==> exists|i: int|
            0 <= i < targets.len() && addresses(#[trigger] targets[i], keys),
{
    let predicate = spec_resolve_selector(targets);
    let columns = T::spec_table().spec_address_columns();
    if selects(predicate, keys) {
        let k = choose|k: int| 0 <= k < predicate.len() && #[trigger] predicate[k].matches(keys);
        let id = keys.value(columns[k])->Some_0;
        lemma_ids_for_contains(targets, columns[k], id);
        let i = choose|i: int|
            0 <= i < targets.len() && (#[trigger] targets[i]).spec_column() == columns[k]
                && targets[i].spec_id() == id;
        assert(addresses(targets[i], keys));
    }
    if exists|i: int| 0 <= i < targets.len() && addresses(#[trigger] targets[i], keys) {
        let i = choose|i: int| 0 <= i < targets.len() && addresses(#[trigger] targets[i], keys);
        let target = targets[i];
        target.lemma_addressable();
        let k = choose|k: int| 0 <= k < columns.len() && columns[k] == target.spec_column();
        lemma_ids_for_contains(targets, columns[k], target.spec_id());
        assert(predicate[k].matches(keys));
    }
}

} // verus!
