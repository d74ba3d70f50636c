use actix_todo::body::todos_from_json;
use actix_todo::json::{find, Found, Json, Member};
use actix_todo::types::{ErrorResponse, Todo, TodoUpdateRequest};

fn member(name: &str, value: Json) -> Member {
    Member { name: name.to_string(), value }
}

fn number(literal: &str) -> Json {
    Json::Number(literal.to_string())
}

fn text(value: &str) -> Json {
    Json::Text(value.to_string())
}

fn todo(checked: bool, id: i32, value: &str) -> Todo {
    Todo { checked, id, value: value.to_string() }
}

fn todo_object(checked: bool, id: &str, value: &str) -> Json {
    Json::Object(vec![
        member("id", number(id)),
        member("value", text(value)),
        member("checked", Json::Bool(checked)),
    ])
}

/// The JSON value of the serde_json crate that holds what a document holds.
fn rendered(j: &Json) -> serde_json::Value {
    match j {
        Json::Null => serde_json::Value::Null,
        Json::Bool(flag) => serde_json::Value::Bool(*flag),
        Json::Number(literal) => {
            serde_json::Value::Number(literal.parse::<serde_json::Number>().unwrap())
        }
        Json::Text(value) => serde_json::Value::String(value.clone()),
        Json::Array(items) => serde_json::Value::Array(items.iter().map(rendered).collect()),
        Json::Object(members) => {
            let mut map = serde_json::Map::new();
            for m in members {
                map.insert(m.name.clone(), rendered(&m.value));
            }
            serde_json::Value::Object(map)
        }
    }
}

/// The document that holds what a JSON value of the serde_json crate holds.
fn parsed(value: serde_json::Value) -> Json {
    match value {
        serde_json::Value::Null => Json::Null,
        serde_json::Value::Bool(flag) => Json::Bool(flag),
        serde_json::Value::Number(n) => Json::Number(n.to_string()),
        serde_json::Value::String(value) => Json::Text(value),
        serde_json::Value::Array(items) => Json::Array(items.into_iter().map(parsed).collect()),
        serde_json::Value::Object(map) => Json::Object(
            map.into_iter().map(|(name, value)| Member { name, value: parsed(value) }).collect(),
        ),
    }
}

fn read(textual: &str) -> Json {
    parsed(serde_json::from_str::<serde_json::Value>(textual).unwrap())
}

#[test]
fn find_tells_missing_once_and_repeated_apart() {
    let members = vec![
        member("a", Json::Null),
        member("b", Json::Bool(true)),
        member("a", Json::Bool(false)),
    ];
    assert_eq!(find(&members, "c"), Found::Missing);
    assert_eq!(find(&members, "b"), Found::Once(&Json::Bool(true)));
    assert_eq!(find(&members, "a"), Found::Repeated);
    assert_eq!(find(&Vec::new(), "a"), Found::Missing);
}

#[test]
fn find_compares_whole_names() {
    let members = vec![member("id", number("1")), member("idx", number("2"))];
    assert_eq!(find(&members, "id"), Found::Once(&number("1")));
    assert_eq!(find(&members, "i"), Found::Missing);
    assert_eq!(find(&members, "ID"), Found::Missing);
}

#[test]
fn todo_document_has_the_three_fields_in_order() {
    let j = todo(false, 10, "Write a blog post").to_json();
    assert_eq!(
        j,
        Json::Object(vec![
            member("checked", Json::Bool(false)),
            member("id", number("10")),
            member("value", text("Write a blog post")),
        ])
    );
}

#[test]
fn todo_document_renders_as_the_expected_text() {
    let j = todo(true, -3, "say \"hi\"").to_json();
    assert_eq!(
        serde_json::to_string(&rendered(&j)).unwrap(),
        r#"{"checked":true,"id":-3,"value":"say \"hi\""}"#
    );
}

#[test]
fn todo_round_trip_through_its_document() {
    for given in [
        todo(false, 0, ""),
        todo(true, 1, "Buy movie ticket"),
        todo(false, -1, "negative"),
        todo(true, i32::MAX, "largest"),
        todo(false, i32::MIN, "smallest"),
        todo(true, 77, "caf\u{e9} \u{1F600} \"quoted\" \\ \n"),
    ] {
        let back = Todo::from_json(&given.to_json()).unwrap();
        assert_eq!(back.checked, given.checked);
        assert_eq!(back.id, given.id);
        assert_eq!(back.value, given.value);
    }
}

#[test]
fn todo_round_trip_through_json_text() {
    let given = todo(true, 20, "Attend a daily standup");
    let textual = serde_json::to_string(&rendered(&given.to_json())).unwrap();
    let back = Todo::from_json(&read(&textual)).unwrap();
    assert_eq!(back.checked, true);
    assert_eq!(back.id, 20);
    assert_eq!(back.value, "Attend a daily standup");
}

#[test]
fn todo_is_read_from_members_in_any_order() {
    let back = Todo::from_json(&todo_object(true, "1", "Buy movie ticket")).unwrap();
    assert_eq!(back.checked, true);
    assert_eq!(back.id, 1);
    assert_eq!(back.value, "Buy movie ticket");
}

#[test]
fn todo_is_read_from_the_text_the_service_documents() {
    let j = read(r#"{"id": 1, "value": "Buy movie ticket", "checked": false}"#);
    let back = Todo::from_json(&j).unwrap();
    assert_eq!(back.checked, false);
    assert_eq!(back.id, 1);
    assert_eq!(back.value, "Buy movie ticket");
}

#[test]
fn todo_reading_passes_over_members_of_other_names() {
    let j = Json::Object(vec![
        member("owner", Json::Object(vec![member("id", number("9"))])),
        member("id", number("5")),
        member("tags", Json::Array(vec![text("a"), Json::Null])),
        member("value", text("x")),
        member("owner", Json::Null),
        member("checked", Json::Bool(true)),
    ]);
    let back = Todo::from_json(&j).unwrap();
    assert_eq!(back.checked, true);
    assert_eq!(back.id, 5);
    assert_eq!(back.value, "x");
}

#[test]
fn todo_reading_refuses_a_missing_field() {
    let without_checked = Json::Object(vec![member("id", number("5")), member("value", text("x"))]);
    let without_id =
        Json::Object(vec![member("checked", Json::Bool(true)), member("value", text("x"))]);
    let without_value =
        Json::Object(vec![member("checked", Json::Bool(true)), member("id", number("5"))]);
    assert!(Todo::from_json(&without_checked).is_none());
    assert!(Todo::from_json(&without_id).is_none());
    assert!(Todo::from_json(&without_value).is_none());
    assert!(Todo::from_json(&Json::Object(Vec::new())).is_none());
}

#[test]
fn todo_reading_refuses_a_repeated_field() {
    let j = Json::Object(vec![
        member("checked", Json::Bool(true)),
        member("id", number("5")),
        member("value", text("x")),
        member("id", number("5")),
    ]);
    assert!(Todo::from_json(&j).is_none());
}

#[test]
fn todo_reading_refuses_a_value_of_the_wrong_kind() {
    let checked_as_text = Json::Object(vec![
        member("checked", text("true")),
        member("id", number("5")),
        member("value", text("x")),
    ]);
    let id_as_text = Json::Object(vec![
        member("checked", Json::Bool(true)),
        member("id", text("5")),
        member("value", text("x")),
    ]);
    let value_as_null = Json::Object(vec![
        member("checked", Json::Bool(true)),
        member("id", number("5")),
        member("value", Json::Null),
    ]);
    assert!(Todo::from_json(&checked_as_text).is_none());
    assert!(Todo::from_json(&id_as_text).is_none());
    assert!(Todo::from_json(&value_as_null).is_none());
}

#[test]
fn todo_reading_refuses_an_id_that_is_no_integer_of_32_bits() {
    assert!(Todo::from_json(&todo_object(true, "2147483648", "x")).is_none());
    assert!(Todo::from_json(&todo_object(true, "-2147483649", "x")).is_none());
    assert!(Todo::from_json(&todo_object(true, "1.0", "x")).is_none());
    assert!(Todo::from_json(&todo_object(true, "1e2", "x")).is_none());
    assert!(Todo::from_json(&todo_object(true, "-0.0", "x")).is_none());
    assert!(Todo::from_json(&read(r#"{"id": 1.5, "value": "x", "checked": false}"#)).is_none());
    assert_eq!(Todo::from_json(&todo_object(true, "2147483647", "x")).unwrap().id, i32::MAX);
    assert_eq!(Todo::from_json(&todo_object(true, "-2147483648", "x")).unwrap().id, i32::MIN);
}

#[test]
fn todo_is_read_from_an_array_of_its_three_values() {
    let j = Json::Array(vec![Json::Bool(true), number("4"), text("positional")]);
    let back = Todo::from_json(&j).unwrap();
    assert_eq!(back.checked, true);
    assert_eq!(back.id, 4);
    assert_eq!(back.value, "positional");
}

#[test]
fn todo_reading_refuses_an_array_of_another_shape() {
    let short = Json::Array(vec![Json::Bool(true), number("4")]);
    let long = Json::Array(vec![Json::Bool(true), number("4"), text("x"), Json::Null]);
    let swapped = Json::Array(vec![number("4"), Json::Bool(true), text("x")]);
    assert!(Todo::from_json(&short).is_none());
    assert!(Todo::from_json(&long).is_none());
    assert!(Todo::from_json(&swapped).is_none());
    assert!(Todo::from_json(&Json::Array(Vec::new())).is_none());
}

#[test]
fn todo_reading_refuses_what_is_neither_object_nor_array() {
    assert!(Todo::from_json(&Json::Null).is_none());
    assert!(Todo::from_json(&Json::Bool(true)).is_none());
    assert!(Todo::from_json(&number("1")).is_none());
    assert!(Todo::from_json(&text("todo")).is_none());
}

#[test]
fn update_with_both_fields_absent_has_no_member() {
    let update = TodoUpdateRequest { checked: None, value: None };
    assert_eq!(update.to_json(), Json::Object(Vec::new()));
    assert_eq!(serde_json::to_string(&rendered(&update.to_json())).unwrap(), "{}");
}

#[test]
fn update_has_a_member_for_each_field_that_is_present() {
    let only_checked = TodoUpdateRequest { checked: Some(true), value: None };
    assert_eq!(only_checked.to_json(), Json::Object(vec![member("checked", Json::Bool(true))]));
    let only_value = TodoUpdateRequest { checked: None, value: Some("new".to_string()) };
    assert_eq!(only_value.to_json(), Json::Object(vec![member("value", text("new"))]));
    let both = TodoUpdateRequest { checked: Some(false), value: Some("new".to_string()) };
    assert_eq!(
        both.to_json(),
        Json::Object(vec![member("checked", Json::Bool(false)), member("value", text("new"))])
    );
    assert_eq!(
        serde_json::to_string(&rendered(&both.to_json())).unwrap(),
        r#"{"checked":false,"value":"new"}"#
    );
}

#[test]
fn error_is_read_from_an_object_of_one_member() {
    let not_found = Json::Object(vec![member("NotFound", text("id = 1"))]);
    let conflict = Json::Object(vec![member("Conflict", text("duplicate id"))]);
    let unauthorized = Json::Object(vec![member("Unauthorized", text("missing api key"))]);
    assert!(matches!(
        ErrorResponse::from_json(&not_found),
        Some(ErrorResponse::NotFound(m)) if m == "id = 1"
    ));
    assert!(matches!(
        ErrorResponse::from_json(&conflict),
        Some(ErrorResponse::Conflict(m)) if m == "duplicate id"
    ));
    assert!(matches!(
        ErrorResponse::from_json(&unauthorized),
        Some(ErrorResponse::Unauthorized(m)) if m == "missing api key"
    ));
}

#[test]
fn error_is_read_from_json_text() {
    let j = read(r#"{"Conflict":"duplicate id"}"#);
    assert!(matches!(
        ErrorResponse::from_json(&j),
        Some(ErrorResponse::Conflict(m)) if m == "duplicate id"
    ));
}

#[test]
fn error_reading_refuses_other_shapes() {
    let unknown = Json::Object(vec![member("Teapot", text("short and stout"))]);
    let lower = Json::Object(vec![member("notfound", text("x"))]);
    let two = Json::Object(vec![member("NotFound", text("a")), member("Conflict", text("b"))]);
    let twice = Json::Object(vec![member("NotFound", text("a")), member("NotFound", text("a"))]);
    let not_text = Json::Object(vec![member("NotFound", number("404"))]);
    assert!(ErrorResponse::from_json(&unknown).is_none());
    assert!(ErrorResponse::from_json(&lower).is_none());
    assert!(ErrorResponse::from_json(&two).is_none());
    assert!(ErrorResponse::from_json(&twice).is_none());
    assert!(ErrorResponse::from_json(&not_text).is_none());
    assert!(ErrorResponse::from_json(&Json::Object(Vec::new())).is_none());
    assert!(ErrorResponse::from_json(&text("NotFound")).is_none());
    assert!(ErrorResponse::from_json(&Json::Null).is_none());
}

#[test]
fn todos_are_read_from_an_array_item_by_item() {
    let j = Json::Array(vec![
        todo_object(false, "1", "first"),
        Json::Array(vec![Json::Bool(true), number("2"), text("second")]),
        todo(false, 3, "third").to_json(),
    ]);
    let todos = todos_from_json(&j).unwrap();
    assert_eq!(todos.len(), 3);
    assert_eq!((todos[0].checked, todos[0].id, todos[0].value.as_str()), (false, 1, "first"));
    assert_eq!((todos[1].checked, todos[1].id, todos[1].value.as_str()), (true, 2, "second"));
    assert_eq!((todos[2].checked, todos[2].id, todos[2].value.as_str()), (false, 3, "third"));
}

#[test]
fn todos_of_an_empty_array_are_none() {
    assert_eq!(todos_from_json(&Json::Array(Vec::new())).unwrap().len(), 0);
}

#[test]
fn todos_reading_refuses_an_array_with_an_item_that_is_no_todo() {
    let j = Json::Array(vec![todo_object(false, "1", "first"), Json::Null]);
    assert!(todos_from_json(&j).is_none());
    let k = Json::Array(vec![Json::Object(Vec::new()), todo_object(false, "1", "first")]);
    assert!(todos_from_json(&k).is_none());
}

#[test]
fn todos_reading_refuses_what_is_no_array() {
    assert!(todos_from_json(&todo_object(false, "1", "first")).is_none());
    assert!(todos_from_json(&Json::Null).is_none());
    assert!(todos_from_json(&text("[]")).is_none());
}

#[test]
fn todos_are_read_from_json_text() {
    let j = read(r#"[{"id":1,"value":"a","checked":true},{"id":2,"value":"b","checked":false}]"#);
    let todos = todos_from_json(&j).unwrap();
    assert_eq!(todos.len(), 2);
    assert_eq!(todos[1].id, 2);
    assert_eq!(todos[1].value, "b");
}
