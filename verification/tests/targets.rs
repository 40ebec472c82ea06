use rs_backend::types::{SetQueryTarget, ToDoQueryTarget};

fn field_text(value: &serde_json::Value, key: &str) -> String {
    value.get(key).and_then(|v| v.as_str()).unwrap().to_string()
}

fn field_id(value: &serde_json::Value, key: &str) -> i32 {
    value.get(key).and_then(|v| v.as_i64()).unwrap() as i32
}

fn encode(tag: &str, id: i32) -> String {
    let mut object = serde_json::Map::new();
    object.insert("target".to_string(), serde_json::Value::from(tag));
    object.insert("id".to_string(), serde_json::Value::from(id));
    serde_json::Value::Object(object).to_string()
}

#[test]
fn set_target_round_trips_through_its_wire_form() {
    let wire: serde_json::Value = serde_json::from_str("{\"target\":\"set\",\"id\":7}").unwrap();
    let target = SetQueryTarget::from_wire(&field_text(&wire, "target"), field_id(&wire, "id"));
    assert_eq!(target, Some(SetQueryTarget::ToDoSet(7)));

    let target = target.unwrap();
    let written = encode(target.wire_tag(), target.wire_id());
    let read: serde_json::Value = serde_json::from_str(&written).unwrap();
    assert_eq!(read, wire);
    assert_eq!(
        SetQueryTarget::from_wire(&field_text(&read, "target"), field_id(&read, "id")),
        Some(SetQueryTarget::ToDoSet(7))
    );
}

#[test]
fn unknown_target_words_fail_to_decode() {
    for tag in ["todo", "Set", "LIST", "", "container", "set "] {
        assert_eq!(SetQueryTarget::from_wire(tag, 7), None, "{:?}", tag);
    }
    for tag in ["Todo", "to_do", "", "leaf", "lists"] {
        assert_eq!(ToDoQueryTarget::from_wire(tag, 7), None, "{:?}", tag);
    }
}

#[test]
fn every_target_reads_back_as_itself() {
    for target in [SetQueryTarget::List(1), SetQueryTarget::ToDoSet(-2)] {
        assert_eq!(SetQueryTarget::from_wire(target.wire_tag(), target.wire_id()), Some(target));
    }
    for target in
        [ToDoQueryTarget::List(1), ToDoQueryTarget::ToDoSet(i32::MAX), ToDoQueryTarget::ToDo(0)]
    {
        assert_eq!(ToDoQueryTarget::from_wire(target.wire_tag(), target.wire_id()), Some(target));
    }
    assert_eq!(SetQueryTarget::List(4).wire_tag(), "list");
    assert_eq!(SetQueryTarget::ToDoSet(4).wire_tag(), "set");
    assert_eq!(ToDoQueryTarget::ToDo(4).wire_tag(), "todo");
    assert_eq!(ToDoQueryTarget::ToDoSet(9).wire_id(), 9);
    assert_eq!(ToDoQueryTarget::from_wire("list", 3), Some(ToDoQueryTarget::List(3)));
    assert_eq!(ToDoQueryTarget::from_wire("set", 3), Some(ToDoQueryTarget::ToDoSet(3)));
    assert_eq!(ToDoQueryTarget::from_wire("todo", 3), Some(ToDoQueryTarget::ToDo(3)));
}
