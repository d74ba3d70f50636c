use actix_todo::prelude::{Client as PreludeClient, ClientTodoExt as PreludeExt};
use actix_todo::{Client, ClientTodoExt, DEFAULT_TIMEOUT_SECS};

#[test]
fn client_keeps_the_base_url() {
    let client = Client::new("http://localhost:8080");
    assert_eq!(client.baseurl(), "http://localhost:8080");
    assert_eq!(Client::new("").baseurl(), "");
}

#[test]
fn client_names_the_version_of_the_api() {
    assert_eq!(Client::new("http://localhost:8080").api_version(), "0.1.0");
}

#[test]
fn client_clone_has_the_same_base_url() {
    let client = Client::new("https://todo.example");
    let copy = client.clone();
    assert_eq!(copy.baseurl(), client.baseurl());
    assert_eq!(copy.list(), client.list());
}

#[test]
fn default_timeout_is_fifteen_seconds() {
    assert_eq!(DEFAULT_TIMEOUT_SECS, 15);
}

#[test]
fn prelude_names_the_client_and_its_operations() {
    fn listed<C: PreludeExt>(client: &C) -> bool {
        client.get_todos().request().is_ok()
    }
    let client: PreludeClient = Client::new("http://h");
    assert!(listed(&client));
    assert_eq!(client.get_todos().request().unwrap().url, "http://h/todo");
}

#[test]
fn operations_start_from_the_client_they_were_asked_of() {
    let client = Client::new("http://one");
    let other = Client::new("http://two");
    assert_eq!(client.get_todo_by_id().id(1).request().unwrap().url, "http://one/todo/1");
    assert_eq!(other.get_todo_by_id().id(1).request().unwrap().url, "http://two/todo/1");
    assert_eq!(other.search_todos().request().unwrap().url, "http://two/todo/search");
    assert_eq!(other.create_todo().body_map(|b| b.checked(true).id(1).value("x")).request().unwrap().url, "http://two/todo");
    assert_eq!(other.update_todo().id(2).request().unwrap().url, "http://two/todo/2");
    assert_eq!(other.delete_todo().id(3).request().unwrap().url, "http://two/todo/3");
}
