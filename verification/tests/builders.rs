use actix_todo::builder::{converted_or, CreateTodo, DeleteTodo, GetTodoById, SearchTodos, UpdateTodo};
use actix_todo::response::Error;
use actix_todo::types;
use actix_todo::types::builder::converted;
use actix_todo::{Client, ClientTodoExt};

fn refusal<E>(result: Result<actix_todo::request::Request, Error<E>>) -> String {
    match result {
        Err(Error::InvalidRequest(reason)) => reason,
        Err(_) => panic!("refused otherwise than for its arguments"),
        Ok(_) => panic!("not refused"),
    }
}

fn built(builder: types::builder::Todo) -> Result<types::Todo, String> {
    types::Todo::try_from(builder)
}

fn built_update(builder: types::builder::TodoUpdateRequest) -> Result<types::TodoUpdateRequest, String> {
    types::TodoUpdateRequest::try_from(builder)
}

#[test]
fn converted_keeps_a_value_and_explains_a_failure() {
    let kept: Result<i32, String> = converted("id", i32::try_from(5i64));
    assert_eq!(kept, Ok(5));
    let failed: Result<i32, String> = converted("id", i32::try_from(i64::MAX));
    assert_eq!(
        failed,
        Err("error converting supplied value for id: out of range integral type conversion attempted"
            .to_string())
    );
}

#[test]
fn converted_or_keeps_a_value_and_gives_the_reason_for_a_failure() {
    let kept: Result<i32, String> = converted_or(i32::try_from(5i64), "no");
    assert_eq!(kept, Ok(5));
    let failed: Result<i32, String> = converted_or(i32::try_from(i64::MAX), "no");
    assert_eq!(failed, Err("no".to_string()));
}

#[test]
fn todo_builder_with_all_fields_builds_the_todo() {
    let todo = built(types::Todo::builder().checked(true).id(7).value("walk".to_string())).unwrap();
    assert_eq!((todo.checked, todo.id, todo.value.as_str()), (true, 7, "walk"));
}

#[test]
fn todo_builder_takes_fields_in_any_order_and_keeps_the_last() {
    let todo =
        built(types::Todo::builder().value("a").id(1).checked(false).id(2u16).value("b")).unwrap();
    assert_eq!((todo.checked, todo.id, todo.value.as_str()), (false, 2, "b"));
}

#[test]
fn todo_builder_names_the_first_field_that_was_not_supplied() {
    assert_eq!(built(types::Todo::builder()).unwrap_err(), "no value supplied for checked");
    assert_eq!(
        built(types::Todo::builder().checked(true)).unwrap_err(),
        "no value supplied for id"
    );
    assert_eq!(
        built(types::Todo::builder().checked(true).id(1)).unwrap_err(),
        "no value supplied for value"
    );
    assert_eq!(
        built(types::Todo::builder().id(1).value("x")).unwrap_err(),
        "no value supplied for checked"
    );
    assert_eq!(
        built(types::builder::Todo::default().value("x")).unwrap_err(),
        "no value supplied for checked"
    );
}

#[test]
fn todo_builder_explains_a_value_that_did_not_convert() {
    let builder = types::Todo::builder().checked(true).id(i64::MAX).value("x");
    assert_eq!(
        built(builder).unwrap_err(),
        "error converting supplied value for id: out of range integral type conversion attempted"
    );
    let negative = types::Todo::builder().checked(true).id(-1i64).value("x");
    assert_eq!(built(negative).unwrap().id, -1);
}

#[test]
fn todo_builder_forgets_a_failure_when_the_field_is_supplied_again() {
    let builder = types::Todo::builder().checked(true).id(u64::MAX).id(3).value("x");
    assert_eq!(built(builder).unwrap().id, 3);
}

#[test]
fn todo_builder_takes_a_field_as_it_is_put() {
    let builder = types::Todo::builder()
        .with_checked(Ok(true))
        .with_id(Err("no id today".to_string()))
        .with_value(Ok("x".to_string()));
    assert_eq!(built(builder).unwrap_err(), "no id today");
    let whole = types::Todo::builder()
        .with_checked(Ok(false))
        .with_id(Ok(-9))
        .with_value(Ok("y".to_string()));
    let todo = built(whole).unwrap();
    assert_eq!((todo.checked, todo.id, todo.value.as_str()), (false, -9, "y"));
}

#[test]
fn todo_builder_of_a_todo_builds_that_todo() {
    let given = types::Todo { checked: true, id: 11, value: "eleven".to_string() };
    let todo = built(types::builder::Todo::from(given.clone())).unwrap();
    assert_eq!((todo.checked, todo.id, todo.value), (given.checked, given.id, given.value));
}

#[test]
fn todo_builder_clone_holds_the_same_fields() {
    let builder = types::Todo::builder().checked(true).id(1);
    let copy = builder.clone();
    assert_eq!(built(copy.value("z")).unwrap().value, "z");
    assert_eq!(built(builder).unwrap_err(), "no value supplied for value");
}

#[test]
fn update_builder_changes_nothing_by_default() {
    let update = built_update(types::TodoUpdateRequest::builder()).unwrap();
    assert_eq!((update.checked, update.value), (None, None));
    let other = built_update(types::builder::TodoUpdateRequest::default()).unwrap();
    assert_eq!((other.checked, other.value), (None, None));
}

#[test]
fn update_builder_takes_values_and_absences() {
    let update =
        built_update(types::TodoUpdateRequest::builder().checked(true).value("v".to_string()))
            .unwrap();
    assert_eq!((update.checked, update.value), (Some(true), Some("v".to_string())));
    let cleared = built_update(
        types::TodoUpdateRequest::builder()
            .checked(Some(false))
            .checked(None::<bool>)
            .value(None::<String>),
    )
    .unwrap();
    assert_eq!((cleared.checked, cleared.value), (None, None));
}

#[test]
fn update_builder_gives_the_reason_of_the_first_field_that_holds_none() {
    let builder = types::TodoUpdateRequest::builder()
        .with_value(Err("second".to_string()))
        .with_checked(Err("first".to_string()));
    assert_eq!(built_update(builder).unwrap_err(), "first");
    let only_value = types::TodoUpdateRequest::builder().with_value(Err("second".to_string()));
    assert_eq!(built_update(only_value).unwrap_err(), "second");
}

#[test]
fn update_builder_of_an_update_builds_that_update() {
    let given = types::TodoUpdateRequest { checked: Some(true), value: None };
    let update = built_update(types::builder::TodoUpdateRequest::from(given)).unwrap();
    assert_eq!((update.checked, update.value), (Some(true), None));
}

#[test]
fn records_are_copied_from_references() {
    let todo = types::Todo { checked: true, id: 1, value: "x".to_string() };
    let copy = types::Todo::from(&todo);
    assert_eq!((copy.checked, copy.id, copy.value), (true, 1, "x".to_string()));
    let update = types::TodoUpdateRequest { checked: None, value: Some("y".to_string()) };
    let copy = types::TodoUpdateRequest::from(&update);
    assert_eq!((copy.checked, copy.value), (None, Some("y".to_string())));
    let error = types::ErrorResponse::Conflict("dup".to_string());
    assert!(matches!(types::ErrorResponse::from(&error), types::ErrorResponse::Conflict(m) if m == "dup"));
}

#[test]
fn get_by_id_without_an_id_is_refused() {
    let client = Client::new("http://h");
    assert_eq!(refusal(client.get_todo_by_id().request()), "id was not initialized");
    assert_eq!(refusal(GetTodoById::new(&client).request()), "id was not initialized");
}

#[test]
fn delete_without_an_id_is_refused() {
    let client = Client::new("http://h");
    assert_eq!(refusal(client.delete_todo().request()), "id was not initialized");
    assert_eq!(refusal(DeleteTodo::new(&client).request()), "id was not initialized");
}

#[test]
fn an_id_that_does_not_fit_is_refused() {
    let client = Client::new("http://h");
    assert_eq!(
        refusal(client.get_todo_by_id().id(i64::MAX).request()),
        "conversion to `i32` for id failed"
    );
    assert_eq!(
        refusal(client.delete_todo().id(u32::MAX).request()),
        "conversion to `i32` for id failed"
    );
    assert_eq!(
        refusal(client.update_todo().id(2147483648u64).request()),
        "conversion to `i32` for id failed"
    );
}

#[test]
fn an_id_put_with_a_reason_is_refused_for_that_reason() {
    let client = Client::new("http://h");
    assert_eq!(
        refusal(client.get_todo_by_id().with_id(Err("lost".to_string())).request()),
        "lost"
    );
    assert_eq!(
        client.get_todo_by_id().with_id(Ok(5)).request().unwrap().url,
        "http://h/todo/5"
    );
    assert_eq!(client.delete_todo().with_id(Ok(6)).request().unwrap().url, "http://h/todo/6");
    assert_eq!(client.update_todo().with_id(Ok(7)).request().unwrap().url, "http://h/todo/7");
}

#[test]
fn create_without_a_body_is_refused_for_its_first_field() {
    let client = Client::new("http://h");
    assert_eq!(refusal(client.create_todo().request()), "no value supplied for checked");
    assert_eq!(refusal(CreateTodo::new(&client).request()), "no value supplied for checked");
}

#[test]
fn create_with_a_body_that_lacks_a_field_is_refused() {
    let client = Client::new("http://h");
    let request = client.create_todo().body_map(|body| body.checked(true).id(1)).request();
    assert_eq!(refusal(request), "no value supplied for value");
}

#[test]
fn create_takes_its_body_field_by_field() {
    let client = Client::new("http://h");
    let request = client
        .create_todo()
        .body_map(|body| body.checked(false).id(10).value("Write a blog post"))
        .request()
        .unwrap();
    let todo = types::Todo { checked: false, id: 10, value: "Write a blog post".to_string() };
    assert_eq!(request, client.create(&todo));
}

#[test]
fn create_changes_a_body_that_was_supplied() {
    let client = Client::new("http://h");
    let todo = types::Todo { checked: false, id: 10, value: "Write a blog post".to_string() };
    let request = client.create_todo().body(&todo).body_map(|body| body.checked(true)).request();
    let changed = types::Todo { checked: true, id: 10, value: "Write a blog post".to_string() };
    assert_eq!(request.unwrap(), client.create(&changed));
}

#[test]
fn create_with_a_body_that_did_not_convert_is_refused() {
    let client = Client::new("http://h");
    let unfinished = types::Todo::builder().checked(true);
    assert_eq!(
        refusal(client.create_todo().body(unfinished).request()),
        "conversion to `Todo` for body failed"
    );
}

#[test]
fn create_leaves_a_failed_body_as_it_is_when_mapped() {
    let client = Client::new("http://h");
    let request = client
        .create_todo()
        .with_body(Err("no body".to_string()))
        .body_map(|body| body.checked(true).id(1).value("x"))
        .request();
    assert_eq!(refusal(request), "no body");
}

#[test]
fn create_takes_a_builder_as_it_is_put() {
    let client = Client::new("http://h");
    let todo = types::Todo { checked: true, id: 2, value: "two".to_string() };
    let request =
        client.create_todo().with_body(Ok(types::builder::Todo::from(todo.clone()))).request();
    assert_eq!(request.unwrap(), client.create(&todo));
}

#[test]
fn search_with_a_value_put_with_a_reason_is_refused() {
    let client = Client::new("http://h");
    assert_eq!(
        refusal(client.search_todos().with_value(Err("no text".to_string())).request()),
        "no text"
    );
    assert_eq!(
        SearchTodos::new(&client).with_value(Ok(Some("tea".to_string()))).request().unwrap(),
        client.search(Some("tea"))
    );
    assert_eq!(
        client.search_todos().value("x").with_value(Ok(None)).request().unwrap(),
        client.search(None)
    );
}

#[test]
fn update_is_refused_for_its_id_before_its_body() {
    let client = Client::new("http://h");
    let request = client.update_todo().with_body(Err("no body".to_string())).request();
    assert_eq!(refusal(request), "id was not initialized");
    let request = client.update_todo().id(1).with_body(Err("no body".to_string())).request();
    assert_eq!(refusal(request), "no body");
}

#[test]
fn update_is_refused_for_a_field_of_its_body() {
    let client = Client::new("http://h");
    let request = client
        .update_todo()
        .id(1)
        .body_map(|body| body.with_value(Err("no value".to_string())))
        .request();
    assert_eq!(refusal(request), "no value");
}

#[test]
fn update_with_a_body_that_did_not_convert_is_refused() {
    let client = Client::new("http://h");
    let unfinished = types::TodoUpdateRequest::builder().with_checked(Err("?".to_string()));
    assert_eq!(
        refusal(client.update_todo().id(1).body(unfinished).request()),
        "conversion to `TodoUpdateRequest` for body failed"
    );
}

#[test]
fn update_takes_its_body_field_by_field() {
    let client = Client::new("http://h");
    let request = UpdateTodo::new(&client)
        .id(4)
        .body_map(|body| body.value("later".to_string()))
        .request()
        .unwrap();
    let update = types::TodoUpdateRequest { checked: None, value: Some("later".to_string()) };
    assert_eq!(request, client.update(4, &update));
}

#[test]
fn update_takes_a_builder_as_it_is_put() {
    let client = Client::new("http://h");
    let update = types::TodoUpdateRequest { checked: Some(true), value: None };
    let request = client
        .update_todo()
        .id(4)
        .with_body(Ok(types::builder::TodoUpdateRequest::from(update.clone())))
        .request();
    assert_eq!(request.unwrap(), client.update(4, &update));
}

#[test]
fn operation_builders_can_be_cloned() {
    let client = Client::new("http://h");
    let get = client.get_todo_by_id().id(1);
    assert_eq!(get.clone().request().unwrap(), get.request().unwrap());
    let create = client.create_todo().body_map(|b| b.checked(true).id(1).value("x"));
    assert_eq!(create.clone().request().unwrap(), create.request().unwrap());
    let search = client.search_todos().value("x");
    assert_eq!(search.clone().request().unwrap(), search.request().unwrap());
    let update = client.update_todo().id(1);
    assert_eq!(update.clone().request().unwrap(), update.request().unwrap());
    let delete = client.delete_todo().id(1);
    assert_eq!(delete.clone().request().unwrap(), delete.request().unwrap());
    let list = client.get_todos();
    assert_eq!(list.clone().request().unwrap(), list.request().unwrap());
}
