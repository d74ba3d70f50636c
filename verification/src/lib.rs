//! A client for the todo service that does no input or output of its own.
//!
//! Every operation of the service is described twice: as the [`request::Request`]
//! that has to be put on the wire, and as the reading of the [`response::Response`]
//! that came back. A transport sends the one and hands back the other.

use vstd::prelude::*;
use vstd::string::*;

pub mod body;
pub mod builder;
pub mod json;
pub mod prelude;
pub mod request;
pub mod response;
pub mod text;
pub mod types;

pub use response::{Error, ResponseValue};

verus! {

/// How many seconds a transport made for this client waits, by default, both
/// to connect and for a whole exchange.
pub const DEFAULT_TIMEOUT_SECS: u64 = 15;

/// Client for todo-actix
///
/// Simple actix-web todo example api with utoipa and Swagger UI and Redoc
///
/// Version: 0.1.0
#[derive(Debug)]
pub struct Client {
    pub(crate) baseurl: String,
}

impl View for Client {
    type V = Seq<char>;

    /// The base URL to which requests are made.
    closed spec fn view(&self) -> Seq<char> {
        self.baseurl@
    }
}

impl Clone for Client {
    fn clone(&self) -> (r: Self)
        ensures
            r == *self,
    {
        Client { baseurl: self.baseurl.clone() }
    }
}

impl Client {
    /// Create a new client.
    ///
    /// `baseurl` is the base URL of every request, and should include a
    /// scheme and a host, and a path stem if applicable.
    pub fn new(baseurl: &str) -> (r: Self)
        ensures
            r@ == baseurl@,
    {
        Self { baseurl: String::from_str(baseurl) }
    }

    /// Get the base URL to which requests are made.
    pub fn baseurl(&self) -> (r: &String)
        ensures
            r@ == self@,
    {
        &self.baseurl
    }

    /// Get the version of this API.
    ///
    /// This string is pulled directly from the source OpenAPI
    /// document and may be in any format the API selects.
    pub fn api_version(&self) -> (r: &'static str)
        ensures
            r@ == "0.1.0"@,
    {
        "0.1.0"
    }
}

/// The operations of the service, each as a builder of its request.
pub trait ClientTodoExt {
    /// Get list of todos
    ///
    /// List todos from in-memory todo store.
    ///
    /// Stands for a `GET` request to `/todo`
    fn get_todos(&self) -> builder::GetTodos<'_>;

    /// Create new Todo to shared in-memory storage
    ///
    /// Post a new `Todo` in request body as json to store it. Api will return
    /// created `Todo` on success or `ErrorResponse::Conflict` if todo with same
    /// id already exists.
    ///
    /// Stands for a `POST` request to `/todo`
    fn create_todo(&self) -> builder::CreateTodo<'_>;

    /// Search Todos with by value
    ///
    /// Perform search from `Todo`s present in in-memory storage by matching
    /// Todo's value to value provided as query parameter. Returns 200 and
    /// matching `Todo` items.
    ///
    /// Stands for a `GET` request to `/todo/search`
    ///
    /// Arguments:
    /// - `value`: Content that should be found from Todo's value field
    fn search_todos(&self) -> builder::SearchTodos<'_>;

    /// Get Todo by given todo id
    ///
    /// Return found `Todo` with status 200 or 404 not found if `Todo` is not
    /// found from shared in-memory storage.
    ///
    /// Stands for a `GET` request to `/todo/{id}`
    ///
    /// Arguments:
    /// - `id`: Unique storage id of Todo
    fn get_todo_by_id(&self) -> builder::GetTodoById<'_>;

    /// Update Todo with given id
    ///
    /// Tries to update `Todo` by given id as path variable. If todo is found by
    /// id values are updated according `TodoUpdateRequest` and updated
    /// `Todo` is returned with status 200. If todo is not found then 404
    /// not found is returned.
    ///
    /// Stands for a `PUT` request to `/todo/{id}`
    ///
    /// Arguments:
    /// - `id`: Unique storage id of Todo
    /// - `body`
    fn update_todo(&self) -> builder::UpdateTodo<'_>;

    /// Delete Todo by given path variable id
    ///
    /// Api will delete todo from shared in-memory storage by the provided id
    /// and return success 200. If storage does not contain `Todo` with
    /// given id 404 not found will be returned.
    ///
    /// Stands for a `DELETE` request to `/todo/{id}`
    ///
    /// Arguments:
    /// - `id`: Unique storage id of Todo
    fn delete_todo(&self) -> builder::DeleteTodo<'_>;
}

impl ClientTodoExt for Client {
    fn get_todos(&self) -> (r: builder::GetTodos<'_>)
        ensures
            r.base() == self@,
    {
        builder::GetTodos::new(self)
    }

    fn create_todo(&self) -> (r: builder::CreateTodo<'_>)
        ensures
            r.base() == self@,
            r.body_view() == Ok::<types::builder::TodoDraft, Seq<char>>(
                types::builder::unsupplied_todo(),
            ),
    {
        builder::CreateTodo::new(self)
    }

    fn search_todos(&self) -> (r: builder::SearchTodos<'_>)
        ensures
            r.base() == self@,
            r.value_view() == Ok::<Option<Seq<char>>, Seq<char>>(None),
    {
        builder::SearchTodos::new(self)
    }

    fn get_todo_by_id(&self) -> (r: builder::GetTodoById<'_>)
        ensures
            r.base() == self@,
            r.id_view() == builder::unsupplied_id(),
    {
        builder::GetTodoById::new(self)
    }

    fn update_todo(&self) -> (r: builder::UpdateTodo<'_>)
        ensures
            r.base() == self@,
            r.id_view() == builder::unsupplied_id(),
            r.body_view() == Ok::<types::builder::UpdateDraft, Seq<char>>(
                types::builder::empty_update(),
            ),
    {
        builder::UpdateTodo::new(self)
    }

    fn delete_todo(&self) -> (r: builder::DeleteTodo<'_>)
        ensures
            r.base() == self@,
            r.id_view() == builder::unsupplied_id(),
    {
        builder::DeleteTodo::new(self)
    }
}

} // verus!
