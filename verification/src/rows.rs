//! Result sets: the rows that the storage returned, each entity once, in
//! ascending order of the identifiers.
//!
//! Where several rows carry one identifier, the row that was returned last
//! stands for the entity.

use crate::entities::{List, ToDo, ToDoSet};
use vstd::prelude::*;

verus! {

/// A value that stands for the entity with a given identifier.
pub trait Identified: Sized {
    spec fn spec_key(&self) -> i32;

    fn key(&self) -> (key: i32)
        ensures
            key == self.spec_key(),
    ;
}

impl Identified for i32 {
    open spec fn spec_key(&self) -> i32 {
        *self
    }

    fn key(&self) -> (key: i32) {
        *self
    }
}

impl Identified for List {
    open spec fn spec_key(&self) -> i32 {
        self.id
    }

    fn key(&self) -> (key: i32) {
        self.id
    }
}

impl Identified for ToDoSet {
    open spec fn spec_key(&self) -> i32 {
        self.id
    }

    fn key(&self) -> (key: i32) {
        self.id
    }
}

impl Identified for ToDo {
    open spec fn spec_key(&self) -> i32 {
        self.id
    }

    fn key(&self) -> (key: i32) {
        self.id
    }
}

/// The last of the rows that carries the given identifier, if one does.
pub open spec fn last_with<E: Identified>(rows: Seq<E>, key: i32) -> Option<E>
    decreases rows.len(),
{
    if rows.len() == 0 {
        None
    } else if rows.last().spec_key() == key {
        Some(rows.last())
    } else {
        last_with(rows.drop_last(), key)
    }
}

/// Whether the identifiers rise strictly from each row to the next.
pub open spec fn ascending<E: Identified>(set: Seq<E>) -> bool {
    forall|i: int, j: int| 0 <= i < j < set.len() ==> set[i].spec_key() < set[j].spec_key()
}

/// Whether `set` is the result set of `rows`: in ascending order of the
/// identifiers, with every identifier of `rows` and no other, each with the
/// last row that carries it.
pub open spec fn is_result_set<E: Identified>(rows: Seq<E>, set: Seq<E>) -> bool {
    &&& ascending(set)
    &&& forall|i: int|
        0 <= i < set.len() ==> last_with(rows, (#[trigger] set[i]).spec_key()) == Some(set[i])
    &&& forall|k: int|
        0 <= k < rows.len() ==> exists|i: int|
            0 <= i < set.len() && (#[trigger] set[i]).spec_key() == (#[trigger] rows[k]).spec_key()
}

/// No row carries an identifier exactly if there is no last row that does.
pub proof fn lemma_last_with_none<E: Identified>(rows: Seq<E>, key: i32)
    ensures
        last_with(rows, key) is None <==> forall|k: int|
            0 <= k < rows.len() ==> (#[trigger] rows[k]).spec_key() != key,
        last_with(rows, key) matches Some(row) ==> row.spec_key() == key,
    decreases rows.len(),
{
    if rows.len() > 0 {
        lemma_last_with_none(rows.drop_last(), key);
        if rows.last().spec_key() != key {
            if last_with(rows, key) is None {
                assert forall|k: int| 0 <= k < rows.len() implies (#[trigger] rows[k]).spec_key()
                    != key by {
                    if k < rows.len() - 1 {
                        assert(rows.drop_last()[k] == rows[k]);
                    }
                }
            } else {
                let k = choose|k: int|
                    0 <= k < rows.drop_last().len() && (#[trigger] rows.drop_last()[k]).spec_key()
                        == key;
                assert(rows[k] == rows.drop_last()[k]);
            }
        }
    }
}

/// A row in front of the others stands for its entity only where none of
/// the others does.
pub proof fn lemma_last_with_front<E: Identified>(first: E, rest: Seq<E>, key: i32)
    ensures
        last_with(seq![first] + rest, key) == if last_with(rest, key) is Some {
            last_with(rest, key)
        } else if first.spec_key() == key {
            Some(first)
        } else {
            None
        },
    decreases rest.len(),
{
    let all = seq![first] + rest;
    if rest.len() == 0 {
        assert(all =~= seq![first]);
        assert(all.last() == first);
        assert(all.drop_last() =~= Seq::<E>::empty());
        assert(last_with(all.drop_last(), key) is None);
        assert(last_with(rest, key) is None);
    } else {
        assert(all.last() == rest.last());
        assert(all.drop_last() =~= seq![first] + rest.drop_last());
        lemma_last_with_front(first, rest.drop_last(), key);
    }
}

/// Two result sets of the same rows hold the same identifiers at the same
/// places, up to the shorter of the two.
proof fn lemma_same_keys<E: Identified>(rows: Seq<E>, a: Seq<E>, b: Seq<E>, i: int)
    requires
        is_result_set(rows, a),
        is_result_set(rows, b),
        0 <= i < a.len(),
        i < b.len(),
    ensures
        a[i].spec_key() == b[i].spec_key(),
    decreases i,
{
    lemma_last_with_none(rows, a[i].spec_key());
    lemma_last_with_none(rows, b[i].spec_key());
    let ka = choose|k: int| 0 <= k < rows.len() && (#[trigger] rows[k]).spec_key() == a[i].spec_key();
    let kb = choose|k: int| 0 <= k < rows.len() && (#[trigger] rows[k]).spec_key() == b[i].spec_key();
    let ja = choose|j: int|
        0 <= j < b.len() && (#[trigger] b[j]).spec_key() == (#[trigger] rows[ka]).spec_key();
    let jb = choose|j: int|
        0 <= j < a.len() && (#[trigger] a[j]).spec_key() == (#[trigger] rows[kb]).spec_key();
    if ja < i {
        lemma_same_keys(rows, a, b, ja);
    }
    if jb < i {
        lemma_same_keys(rows, a, b, jb);
    }
}

/// The rows have one result set and no other.
pub proof fn lemma_result_set_unique<E: Identified>(rows: Seq<E>, a: Seq<E>, b: Seq<E>)
    requires
        is_result_set(rows, a),
        is_result_set(rows, b),
    ensures
        a == b,
{
    lemma_result_set_longer(rows, a, b);
    lemma_result_set_longer(rows, b, a);
    assert forall|i: int| 0 <= i < a.len() implies a[i] == b[i] by {
        lemma_same_keys(rows, a, b, i);
    }
    assert(a =~= b);
}

/// Of two result sets of the same rows the second is not the longer one.
proof fn lemma_result_set_longer<E: Identified>(rows: Seq<E>, a: Seq<E>, b: Seq<E>)
    requires
        is_result_set(rows, a),
        is_result_set(rows, b),
    ensures
        b.len() <= a.len(),
{
    if a.len() < b.len() {
        let extra = b[a.len() as int];
        lemma_last_with_none(rows, extra.spec_key());
        let k = choose|k: int|
            0 <= k < rows.len() && (#[trigger] rows[k]).spec_key() == extra.spec_key();
        let j = choose|j: int|
            0 <= j < a.len() && (#[trigger] a[j]).spec_key() == (#[trigger] rows[k]).spec_key();
        lemma_same_keys(rows, a, b, j);
    }
}

/// The identifiers of the rows, in the order of the rows.
pub open spec fn keys_of<E: Identified>(rows: Seq<E>) -> Seq<i32> {
    Seq::new(rows.len(), |i: int| rows[i].spec_key())
}

/// Rows of which no two carry one identifier are all in their result set,
/// as they are: the result set of rows with fresh, distinct identifiers has
/// as many entities as there are rows.
pub proof fn lemma_distinct_rows_all_kept<E: Identified>(rows: Seq<E>, set: Seq<E>)
    requires
        is_result_set(rows, set),
        keys_of(rows).no_duplicates(),
    ensures
        set.len() == rows.len(),
        forall|k: int| 0 <= k < rows.len() ==> set.contains(#[trigger] rows[k]),
{
    let row_keys = keys_of(rows);
    let set_keys = keys_of(set);
    assert(set_keys.no_duplicates());
    assert forall|key: i32| row_keys.to_set().contains(key) == set_keys.to_set().contains(
        key,
    ) by {
        if row_keys.contains(key) {
            let k = choose|k: int| 0 <= k < row_keys.len() && row_keys[k] == key;
            let i = choose|i: int|
                0 <= i < set.len() && (#[trigger] set[i]).spec_key() == (
                #[trigger] rows[k]).spec_key();
            assert(set_keys[i] == key);
        }
        if set_keys.contains(key) {
            let i = choose|i: int| 0 <= i < set_keys.len() && set_keys[i] == key;
            lemma_last_with_none(rows, set[i].spec_key());
            let k = choose|k: int|
                0 <= k < rows.len() && (#[trigger] rows[k]).spec_key() == set[i].spec_key();
            assert(row_keys[k] == key);
        }
    }
    assert(row_keys.to_set() =~= set_keys.to_set());
    row_keys.unique_seq_to_set();
    set_keys.unique_seq_to_set();
    assert forall|k: int| 0 <= k < rows.len() implies set.contains(#[trigger] rows[k]) by {
        let i = choose|i: int|
            0 <= i < set.len() && (#[trigger] set[i]).spec_key() == (#[trigger] rows[k]).spec_key();
        lemma_last_with_is_a_row(rows, rows[k].spec_key());
        let at = choose|at: int|
            0 <= at < rows.len() && last_with(rows, rows[k].spec_key()) == Some(rows[at]);
        assert(row_keys[at] == row_keys[k]);
        assert(set[i] == rows[k]);
    }
}

/// The last row with an identifier is one of the rows, and carries the
/// identifier.
pub proof fn lemma_last_with_is_a_row<E: Identified>(rows: Seq<E>, key: i32)
    ensures
        last_with(rows, key) matches Some(row) ==> row.spec_key() == key && exists|at: int|
            0 <= at < rows.len() && last_with(rows, key) == Some(#[trigger] rows[at]),
    decreases rows.len(),
{
    if rows.len() > 0 {
        if rows.last().spec_key() == key {
            assert(last_with(rows, key) == Some(rows[rows.len() - 1]));
        } else {
            lemma_last_with_is_a_row(rows.drop_last(), key);
            if last_with(rows.drop_last(), key) is Some {
                let at = choose|at: int|
                    0 <= at < rows.drop_last().len() && last_with(rows.drop_last(), key) == Some(
                        #[trigger] rows.drop_last()[at],
                    );
                assert(rows[at] == rows.drop_last()[at]);
            }
        }
    }
}

/// The position at which a row with the given identifier belongs in a
/// result set, and whether the set holds that identifier already.
fn position<E: Identified>(set: &Vec<E>, key: i32) -> (found: (usize, bool))
    requires
        ascending(set@),
    ensures
        found.0 <= set@.len(),
        forall|i: int| 0 <= i < found.0 ==> (#[trigger] set@[i]).spec_key() < key,
        forall|i: int| found.0 <= i < set@.len() ==> key <= (#[trigger] set@[i]).spec_key(),
        found.1 <==> (found.0 < set@.len() && set@[found.0 as int].spec_key() == key),
{
    let mut at: usize = 0;
    while at < set.len() && set[at].key() < key
        invariant
            at <= set@.len(),
            ascending(set@),
            forall|i: int| 0 <= i < at ==> (#[trigger] set@[i]).spec_key() < key,
        decreases set@.len() - at,
    {
        at += 1;
    }
    let present = at < set.len() && set[at].key() == key;
    (at, present)
}

/// A result set is empty exactly if there are no rows: rows that are gone
/// give an empty answer, not a failure.
pub proof fn lemma_result_set_empty<E: Identified>(rows: Seq<E>, set: Seq<E>)
    requires
        is_result_set(rows, set),
    ensures
        set.len() == 0 <==> rows.len() == 0,
{
    if rows.len() > 0 {
        let i = choose|i: int|
            0 <= i < set.len() && (#[trigger] set[i]).spec_key() == (#[trigger] rows[0]).spec_key();
    }
    if set.len() > 0 {
        assert(last_with(rows, set[0].spec_key()) == Some(set[0]));
    }
}

/// Collects rows into their result set.
pub fn collect<E: Identified>(rows: Vec<E>) -> (set: Vec<E>)
    ensures
        is_result_set(rows@, set@),
        set@.len() == 0 <==> rows@.len() == 0,
{
    let ghost all = rows@;
    let mut rows = rows;
    let mut set: Vec<E> = Vec::new();
    assert(all.skip(all.len() as int) =~= Seq::<E>::empty());
    while rows.len() > 0
        invariant
            rows@ == all.take(rows@.len() as int),
            rows@.len() <= all.len(),
            is_result_set(all.skip(rows@.len() as int), set@),
        decreases rows@.len(),
    {
        let ghost before = set@;
        let ghost rest = all.skip(rows@.len() as int);
        let row = rows.pop().unwrap();
        let ghost now = all.skip(rows@.len() as int);
        let key = row.key();
        let (at, present) = position(&set, key);
        proof {
            assert(row == all[rows@.len() as int]);
            assert(now =~= seq![row] + rest);
            assert(rows@ =~= all.take(rows@.len() as int));
            assert forall|i: int| 0 <= i < before.len() implies last_with(
                now,
                (#[trigger] before[i]).spec_key(),
            ) == Some(before[i]) by {
                lemma_last_with_front(row, rest, before[i].spec_key());
            }
        }
        if !present {
            set.insert(at, row);
            proof {
                lemma_last_with_front(row, rest, key);
                assert(last_with(rest, key) is None) by {
                    lemma_last_with_none(rest, key);
                    if last_with(rest, key) is Some {
                        let k = choose|k: int|
                            0 <= k < rest.len() && (#[trigger] rest[k]).spec_key() == key;
                        let i = choose|i: int|
                            0 <= i < before.len() && (#[trigger] before[i]).spec_key()
                                == rest[k].spec_key();
                        assert(false);
                    }
                }
                assert forall|i: int| 0 <= i < set@.len() implies last_with(
                    now,
                    (#[trigger] set@[i]).spec_key(),
                ) == Some(set@[i]) by {
                    if i < at {
                        assert(set@[i] == before[i]);
                    } else if i > at {
                        assert(set@[i] == before[i - 1]);
                    }
                }
                assert forall|k: int| 0 <= k < now.len() implies exists|i: int|
                    0 <= i < set@.len() && (#[trigger] set@[i]).spec_key() == (
                    #[trigger] now[k]).spec_key() by {
                    if k == 0 {
                        assert(set@[at as int].spec_key() == now[0].spec_key());
                    } else {
                        assert(now[k] == rest[k - 1]);
                        let i = choose|i: int|
                            0 <= i < before.len() && (#[trigger] before[i]).spec_key()
                                == rest[k - 1].spec_key();
                        if i < at {
                            assert(set@[i] == before[i]);
                        } else {
                            assert(set@[i + 1] == before[i]);
                        }
                    }
                }
                assert(ascending(set@)) by {
                    assert forall|i: int, j: int| 0 <= i < j < set@.len() implies set@[i].spec_key()
                        < set@[j].spec_key() by {
                        let a = if i < at { i } else { i - 1 };
                        let b = if j < at { j } else { j - 1 };
                        if i != at && j != at {
                            assert(set@[i] == before[a]);
                            assert(set@[j] == before[b]);
                        } else if i == at {
                            assert(set@[j] == before[b]);
                        } else {
                            assert(set@[i] == before[a]);
                        }
                    }
                }
            }
        } else {
            proof {
                assert forall|k: int| 0 <= k < now.len() implies exists|i: int|
                    0 <= i < set@.len() && (#[trigger] set@[i]).spec_key() == (
                    #[trigger] now[k]).spec_key() by {
                    if k == 0 {
                        assert(set@[at as int].spec_key() == now[0].spec_key());
                    } else {
                        assert(now[k] == rest[k - 1]);
                    }
                }
            }
        }
    }
    assert(all.skip(0) =~= all);
    proof {
        lemma_result_set_empty(all, set@);
    }
    set
}

} // verus!
