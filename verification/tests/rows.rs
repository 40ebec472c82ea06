use rs_backend::entities::{List, ToDo, ToDoSet};
use rs_backend::rows::{collect, Identified};
use std::cmp::Ordering;

fn list(id: i32, title: &str) -> List {
    List { id, title: title.to_string() }
}

#[test]
fn result_sets_are_ascending_without_repeats() {
    let set = collect(vec![5, 3, 9, 3, 1, 5, 5]);
    assert_eq!(set, vec![1, 3, 5, 9]);
    assert_eq!(collect(Vec::<i32>::new()), Vec::<i32>::new());
    assert_eq!(collect(vec![i32::MAX, i32::MIN, 0]), vec![i32::MIN, 0, i32::MAX]);
}

#[test]
fn last_row_wins() {
    let rows = vec![list(2, "old two"), list(1, "one"), list(2, "new two"), list(3, "three")];
    let set = collect(rows);
    let seen: Vec<(i32, &str)> = set.iter().map(|l| (l.id, l.title.as_str())).collect();
    assert_eq!(seen, vec![(1, "one"), (2, "new two"), (3, "three")]);
}

#[test]
fn entities_are_the_same_by_identifier_alone() {
    assert_eq!(list(1, "a"), list(1, "b"));
    assert_ne!(list(1, "a"), list(2, "a"));
    assert_eq!(list(1, "z").partial_cmp(&list(2, "a")), Some(Ordering::Less));
    assert_eq!(list(2, "a").partial_cmp(&list(2, "b")), Some(Ordering::Equal));
    assert!(list(3, "a") > list(2, "z"));

    let set_a = ToDoSet { id: 4, list_id: 1, title: "a".to_string() };
    let set_b = ToDoSet { id: 4, list_id: 2, title: "b".to_string() };
    assert_eq!(set_a, set_b);
    assert_eq!(set_a.key(), 4);

    let todo = |id: i32, complete: bool| ToDo {
        id,
        set_id: None,
        list_id: 1,
        title: "t".to_string(),
        complete,
        due_date: None,
    };
    assert_eq!(todo(1, true), todo(1, false));
    assert!(todo(1, true) < todo(2, false));
    assert_eq!(todo(7, true).key(), 7);
}

#[test]
fn rows_with_distinct_identifiers_are_all_kept() {
    let set = collect(vec![list(12, "B"), list(11, "A")]);
    assert_eq!(set.len(), 2);
    let seen: Vec<(i32, &str)> = set.iter().map(|l| (l.id, l.title.as_str())).collect();
    assert_eq!(seen, vec![(11, "A"), (12, "B")]);
}
