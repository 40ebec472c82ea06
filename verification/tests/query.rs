use rs_backend::api::{
    create_lists, create_sets, create_to_dos, delete_lists, delete_sets, delete_to_dos, read_lists,
    read_sets, read_to_dos, respond, update_lists, update_sets, update_to_dos,
};
use rs_backend::db::{
    delete_todos, insert_lists, insert_todos, query_all_lists, query_all_sets, query_all_todos,
    query_lists, query_sets, query_todos, update_lists as db_update_lists,
    update_sets as db_update_sets, update_todos,
};
use rs_backend::dispatch::StorageError;
use rs_backend::entities::List;
use rs_backend::error::JsonError;
use rs_backend::extractor::{MaybeJson, PayloadReason};
use rs_backend::query::{resolve_selector, Column, SqlValue, Table};
use rs_backend::records::{CreateList, CreateSet, CreateToDo, UpdateList, UpdateSet, UpdateToDo};
use rs_backend::render::render;
use rs_backend::statement::Statement;
use rs_backend::types::{SetQueryTarget, Timestamp, ToDoQueryTarget};
use rs_backend::update::{resolve_target, UpdateRecord};

fn binds_text(binds: &[SqlValue]) -> Vec<String> {
    binds
        .iter()
        .map(|value| match value {
            SqlValue::Null => "NULL".to_string(),
            SqlValue::Integer(id) => id.to_string(),
            SqlValue::Boolean(flag) => flag.to_string(),
            SqlValue::Text(text) => format!("'{}'", text),
            SqlValue::Time(time) => format!("@{}.{}", time.seconds, time.nanoseconds),
        })
        .collect()
}

fn rendered(statement: &Statement) -> (String, Vec<String>) {
    let query = render(statement);
    let marks = query.sql.chars().filter(|c| *c == '?').count();
    assert_eq!(marks, query.binds.len());
    (query.sql, binds_text(&query.binds))
}

fn no_fields(target: ToDoQueryTarget) -> UpdateToDo {
    UpdateToDo { target, set_id: None, list_id: None, title: None, complete: None, due_date: None }
}

#[test]
fn selector_partitions_targets_by_variant() {
    let targets = vec![
        ToDoQueryTarget::ToDo(5),
        ToDoQueryTarget::List(1),
        ToDoQueryTarget::ToDoSet(3),
        ToDoQueryTarget::List(2),
        ToDoQueryTarget::ToDo(6),
    ];
    let predicate = resolve_selector(&targets);
    assert_eq!(predicate.clauses.len(), 3);
    assert_eq!(predicate.clauses[0].column, Column::ListId);
    assert_eq!(predicate.clauses[0].ids, vec![1, 2]);
    assert_eq!(predicate.clauses[1].column, Column::SetId);
    assert_eq!(predicate.clauses[1].ids, vec![3]);
    assert_eq!(predicate.clauses[2].column, Column::Id);
    assert_eq!(predicate.clauses[2].ids, vec![5, 6]);

    let sets = resolve_selector(&vec![SetQueryTarget::ToDoSet(9), SetQueryTarget::List(4)]);
    assert_eq!(sets.clauses.len(), 2);
    assert_eq!(sets.clauses[0].column, Column::ListId);
    assert_eq!(sets.clauses[0].ids, vec![4]);
    assert_eq!(sets.clauses[1].column, Column::Id);
    assert_eq!(sets.clauses[1].ids, vec![9]);

    let lists = resolve_selector(&vec![7, 8]);
    assert_eq!(lists.clauses.len(), 1);
    assert_eq!(lists.clauses[0].column, Column::Id);
    assert_eq!(lists.clauses[0].ids, vec![7, 8]);
}

#[test]
fn single_target_resolves_to_one_column() {
    let predicate = resolve_target(&ToDoQueryTarget::ToDoSet(3));
    assert_eq!(predicate.clauses.len(), 1);
    assert_eq!(predicate.clauses[0].column, Column::SetId);
    assert_eq!(predicate.clauses[0].ids, vec![3]);
    let predicate = resolve_target(&SetQueryTarget::List(2));
    assert_eq!(predicate.clauses[0].column, Column::ListId);
    let predicate = resolve_target(&11);
    assert_eq!(predicate.clauses[0].column, Column::Id);
    assert_eq!(predicate.clauses[0].ids, vec![11]);
}

#[test]
fn update_without_fields_assigns_nothing() {
    let (assignments, predicate) = no_fields(ToDoQueryTarget::ToDo(4)).resolve_update();
    assert!(assignments.is_empty());
    assert_eq!(predicate.clauses[0].column, Column::Id);
    assert_eq!(predicate.clauses[0].ids, vec![4]);

    let statements = update_todos(vec![no_fields(ToDoQueryTarget::ToDo(4))]).unwrap();
    assert_eq!(statements.len(), 1);
    assert!(matches!(&statements[0], Statement::Select { table: Table::ToDos, .. }));
    let (sql, binds) = rendered(&statements[0]);
    assert_eq!(sql, "SELECT * FROM Todos WHERE id IN (?);");
    assert_eq!(binds, vec!["4"]);

    let (assignments, _) = UpdateList { list_id: 1, title: None }.resolve_update();
    assert!(assignments.is_empty());
    let (assignments, _) =
        UpdateSet { target: SetQueryTarget::List(1), list_id: None, title: None }.resolve_update();
    assert!(assignments.is_empty());
}

#[test]
fn update_assigns_only_supplied_fields() {
    let record = UpdateToDo {
        target: ToDoQueryTarget::List(2),
        set_id: Some(None),
        list_id: None,
        title: Some("walk".to_string()),
        complete: None,
        due_date: Some(Some(Timestamp { seconds: 1_700_000_000, nanoseconds: 5 })),
    };
    let (assignments, predicate) = record.resolve_update();
    let columns: Vec<Column> = assignments.iter().map(|a| a.column).collect();
    assert_eq!(columns, vec![Column::SetId, Column::Title, Column::DueDate]);
    assert!(matches!(assignments[0].value, SqlValue::Null));
    assert!(matches!(&assignments[1].value, SqlValue::Text(t) if t == "walk"));
    assert!(matches!(
        assignments[2].value,
        SqlValue::Time(Timestamp { seconds: 1_700_000_000, nanoseconds: 5 })
    ));
    assert_eq!(predicate.clauses[0].column, Column::ListId);

    let statements = update_todos(vec![record]).unwrap();
    let (sql, binds) = rendered(&statements[0]);
    assert_eq!(
        sql,
        "UPDATE Todos SET set_id = ?, title = ?, due_date = ? WHERE list_id IN (?) RETURNING *;"
    );
    assert_eq!(binds, vec!["NULL", "'walk'", "@1700000000.5", "2"]);
}

#[test]
fn clearing_differs_from_setting_and_from_leaving() {
    let mut record = no_fields(ToDoQueryTarget::ToDo(1));
    record.set_id = Some(Some(8));
    record.due_date = Some(None);
    record.complete = Some(true);
    record.list_id = Some(3);
    let (assignments, _) = record.resolve_update();
    assert_eq!(assignments.len(), 4);
    assert_eq!(assignments[0].column, Column::ListId);
    assert!(matches!(assignments[0].value, SqlValue::Integer(3)));
    assert_eq!(assignments[1].column, Column::SetId);
    assert!(matches!(assignments[1].value, SqlValue::Integer(8)));
    assert_eq!(assignments[2].column, Column::Complete);
    assert!(matches!(assignments[2].value, SqlValue::Boolean(true)));
    assert_eq!(assignments[3].column, Column::DueDate);
    assert!(matches!(assignments[3].value, SqlValue::Null));
}

#[test]
fn update_batches_keep_the_order_of_their_records() {
    let mods = vec![
        UpdateSet { target: SetQueryTarget::ToDoSet(1), list_id: Some(5), title: None },
        UpdateSet { target: SetQueryTarget::List(2), list_id: None, title: None },
        UpdateSet {
            target: SetQueryTarget::ToDoSet(3),
            list_id: Some(6),
            title: Some("c".to_string()),
        },
    ];
    let statements = db_update_sets(mods).unwrap();
    let texts: Vec<(String, Vec<String>)> = statements.iter().map(rendered).collect();
    assert_eq!(
        texts,
        vec![
            (
                "UPDATE Sets SET list_id = ? WHERE id IN (?) RETURNING *;".to_string(),
                vec!["5".to_string(), "1".to_string()]
            ),
            ("SELECT * FROM Sets WHERE list_id IN (?);".to_string(), vec!["2".to_string()]),
            (
                "UPDATE Sets SET list_id = ?, title = ? WHERE id IN (?) RETURNING *;".to_string(),
                vec!["6".to_string(), "'c'".to_string(), "3".to_string()]
            ),
        ]
    );
    let one = db_update_lists(vec![UpdateList { list_id: 9, title: Some("t".to_string()) }]);
    let (sql, binds) = rendered(&one.unwrap()[0]);
    assert_eq!(sql, "UPDATE Lists SET title = ? WHERE id IN (?) RETURNING *;");
    assert_eq!(binds, vec!["'t'", "9"]);
}

#[test]
fn storage_boundary_refuses_operands_without_entries() {
    let refused = insert_lists(vec![]).unwrap_err();
    assert!(matches!(refused, StorageError::InvalidArgument(words)
        if words == "Caller Provided no entries to the database"));
    let refused = delete_todos(vec![]).unwrap_err();
    assert!(matches!(refused, StorageError::InvalidArgument(words)
        if words == "Caller Provided no entries to the database"));
    let refused = db_update_lists(vec![]).unwrap_err();
    assert!(matches!(refused, StorageError::InvalidArgument(words)
        if words == "Can't have zero modification when running update on Lists Table."));
    let refused = db_update_sets(vec![]).unwrap_err();
    assert!(matches!(refused, StorageError::InvalidArgument(words)
        if words == "Can't have zero modification when running update on Sets Table."));
    let refused = update_todos(vec![]).unwrap_err();
    assert!(matches!(refused, StorageError::InvalidArgument(words)
        if words == "Can't have zero modification when running update on Todos Table."));
}

#[test]
fn insertions_are_written_with_marks() {
    let statement = insert_lists(vec![
        CreateList { title: "A".to_string() },
        CreateList { title: "B'); DROP TABLE Lists; --".to_string() },
    ])
    .unwrap();
    let (sql, binds) = rendered(&statement);
    assert_eq!(sql, "INSERT INTO Lists (title) VALUES (?), (?) RETURNING *;");
    assert_eq!(binds, vec!["'A'", "'B'); DROP TABLE Lists; --'"]);

    let statement = insert_todos(vec![
        CreateToDo { list_id: 1, set_id: None, title: "x".to_string(), complete: None, due_date: None },
        CreateToDo {
            list_id: 2,
            set_id: Some(3),
            title: "y".to_string(),
            complete: Some(true),
            due_date: Some(Timestamp { seconds: 10, nanoseconds: 0 }),
        },
    ])
    .unwrap();
    let (sql, binds) = rendered(&statement);
    assert_eq!(
        sql,
        "INSERT INTO Todos (list_id, set_id, title, complete, due_date) VALUES (?, ?, ?, ?, ?), (?, ?, ?, ?, ?) RETURNING *;"
    );
    assert_eq!(
        binds,
        vec!["1", "NULL", "'x'", "false", "NULL", "2", "3", "'y'", "true", "@10.0"]
    );
}

#[test]
fn selections_and_deletions_are_written_with_marks() {
    assert_eq!(rendered(&query_all_lists()), ("SELECT * FROM Lists;".to_string(), vec![]));
    assert_eq!(rendered(&query_all_sets()), ("SELECT * FROM Sets;".to_string(), vec![]));
    assert_eq!(rendered(&query_all_todos()), ("SELECT * FROM Todos;".to_string(), vec![]));

    let (sql, binds) = rendered(&query_lists(vec![3, 1]));
    assert_eq!(sql, "SELECT * FROM Lists WHERE id IN (?, ?);");
    assert_eq!(binds, vec!["3", "1"]);

    let (sql, binds) = rendered(&query_sets(vec![SetQueryTarget::ToDoSet(7)]));
    assert_eq!(sql, "SELECT * FROM Sets WHERE list_id IN () OR id IN (?);");
    assert_eq!(binds, vec!["7"]);

    let targets =
        vec![ToDoQueryTarget::ToDo(5), ToDoQueryTarget::List(1), ToDoQueryTarget::List(2)];
    let (sql, binds) = rendered(&query_todos(targets.clone()));
    assert_eq!(sql, "SELECT * FROM Todos WHERE list_id IN (?, ?) OR set_id IN () OR id IN (?);");
    assert_eq!(binds, vec!["1", "2", "5"]);

    let (sql, binds) = rendered(&delete_todos(targets).unwrap());
    assert_eq!(
        sql,
        "DELETE FROM Todos WHERE list_id IN (?, ?) OR set_id IN () OR id IN (?) RETURNING id;"
    );
    assert_eq!(binds, vec!["1", "2", "5"]);
}

#[test]
fn mutating_operations_turn_empty_requests_away() {
    fn is_empty_request<S>(answer: Result<S, JsonError>) -> bool {
        matches!(answer, Err(JsonError::BadRequest(detail)) if detail == "empty request not allowed")
    }
    assert!(is_empty_request(create_lists(MaybeJson::Empty)));
    assert!(is_empty_request(create_lists(MaybeJson::Valid(vec![]))));
    assert!(is_empty_request(create_sets(MaybeJson::Valid(vec![]))));
    assert!(is_empty_request(create_to_dos(MaybeJson::Empty)));
    assert!(is_empty_request(update_lists(MaybeJson::Empty)));
    assert!(is_empty_request(update_sets(MaybeJson::Valid(vec![]))));
    assert!(is_empty_request(update_to_dos(MaybeJson::Valid(vec![]))));
    assert!(is_empty_request(delete_lists(MaybeJson::Valid(vec![]))));
    assert!(is_empty_request(delete_sets(MaybeJson::Empty)));
    assert!(is_empty_request(delete_to_dos(MaybeJson::Valid(vec![]))));
}

#[test]
fn operations_report_refused_bodies() {
    let answer = create_sets(MaybeJson::Invalid(PayloadReason::Overflow { limit: 10 }));
    assert_eq!(answer.unwrap_err().status_code(), 413);
    let answer = read_to_dos(MaybeJson::Invalid(PayloadReason::ContentType));
    assert_eq!(answer.unwrap_err().status_code(), 415);
    let answer = update_to_dos(MaybeJson::Invalid(PayloadReason::Deserialize("x".to_string())));
    assert_eq!(answer.unwrap_err().status_code(), 400);
    let answer = delete_lists(MaybeJson::Invalid(PayloadReason::Other("x".to_string())));
    assert_eq!(answer.unwrap_err().status_code(), 500);
}

#[test]
fn operations_plan_what_the_request_asks_for() {
    let created = create_sets(MaybeJson::Valid(vec![CreateSet { list_id: 4, title: "s".to_string() }]));
    let (sql, binds) = rendered(&created.unwrap());
    assert_eq!(sql, "INSERT INTO Sets (list_id, title) VALUES (?, ?) RETURNING *;");
    assert_eq!(binds, vec!["4", "'s'"]);

    let everything = read_lists(MaybeJson::Empty).unwrap();
    assert_eq!(rendered(&everything).0, "SELECT * FROM Lists;");
    let everything = read_sets(MaybeJson::Valid(vec![])).unwrap();
    assert_eq!(rendered(&everything).0, "SELECT * FROM Sets;");
    let some = read_to_dos(MaybeJson::Valid(vec![ToDoQueryTarget::ToDoSet(2)])).unwrap();
    assert_eq!(
        rendered(&some),
        (
            "SELECT * FROM Todos WHERE list_id IN () OR set_id IN (?) OR id IN ();".to_string(),
            vec!["2".to_string()]
        )
    );

    let deleted = delete_lists(MaybeJson::Valid(vec![1])).unwrap();
    assert_eq!(
        rendered(&deleted),
        ("DELETE FROM Lists WHERE id IN (?) RETURNING id;".to_string(), vec!["1".to_string()])
    );
    let deleted = delete_sets(MaybeJson::Valid(vec![SetQueryTarget::List(1)])).unwrap();
    assert_eq!(
        rendered(&deleted).0,
        "DELETE FROM Sets WHERE list_id IN (?) OR id IN () RETURNING id;"
    );

    let updated = update_to_dos(MaybeJson::Valid(vec![
        no_fields(ToDoQueryTarget::ToDo(1)),
        UpdateToDo { complete: Some(false), ..no_fields(ToDoQueryTarget::ToDoSet(2)) },
    ]))
    .unwrap();
    assert_eq!(updated.len(), 2);
    assert_eq!(rendered(&updated[0]).0, "SELECT * FROM Todos WHERE id IN (?);");
    assert_eq!(
        rendered(&updated[1]),
        (
            "UPDATE Todos SET complete = ? WHERE set_id IN (?) RETURNING *;".to_string(),
            vec!["false".to_string(), "2".to_string()]
        )
    );
}

#[test]
fn answers_are_result_sets_or_errors() {
    let rows = vec![
        List { id: 2, title: "B".to_string() },
        List { id: 1, title: "A".to_string() },
    ];
    let set = respond(Ok(rows)).unwrap();
    let titles: Vec<(i32, &str)> = set.iter().map(|l| (l.id, l.title.as_str())).collect();
    assert_eq!(titles, vec![(1, "A"), (2, "B")]);
    let deleted = respond(Ok(vec![3, 1, 3])).unwrap();
    assert_eq!(deleted, vec![1, 3]);
    let nothing = respond(Ok(Vec::<i32>::new())).unwrap();
    assert!(nothing.is_empty());
    let failed = respond::<i32>(Err(StorageError::Other("constraint failed".to_string())));
    assert_eq!(
        failed.unwrap_err().message(),
        "Internal Server Error: Database Insertion Error: constraint failed"
    );
}
