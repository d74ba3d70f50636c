//! The response of each operation: what came back, and what it means.

use crate::body::{error_of_json, todo_of_json, todos_from_json, todos_of_json, todos_view};
use crate::json::{Json, JsonView};
use crate::request::optional_json;
use crate::types::{ErrorResponse, ErrorResponseView, Todo, TodoView};
use vstd::prelude::*;

verus! {

/// What came back from the service: the status, and the body as a JSON
/// document where it is one.
#[derive(Debug, PartialEq, Eq)]
pub struct Response {
    pub status: u16,
    pub body: Option<Json>,
}

/// What a [`Response`] holds.
pub struct ResponseView {
    pub status: u16,
    pub body: Option<JsonView>,
}

impl View for Response {
    type V = ResponseView;

    open spec fn view(&self) -> ResponseView {
        ResponseView { status: self.status, body: optional_json(self.body) }
    }
}

/// Typed value of a response, with the status it came under.
///
/// This is used for successful responses and may appear in error responses
/// generated from the server (see [`Error::ErrorResponse`])
#[derive(Debug)]
pub struct ResponseValue<T> {
    pub inner: T,
    pub status: u16,
}

impl<T> ResponseValue<T> {
    /// Creates a [`ResponseValue`] from the inner value and the status.
    pub fn new(inner: T, status: u16) -> (r: Self)
        ensures
            r.inner == inner,
            r.status == status,
    {
        Self { inner, status }
    }

    /// Consumes the ResponseValue, returning the wrapped value.
    pub fn into_inner(self) -> (r: T)
        ensures
            r == self.inner,
    {
        self.inner
    }

    /// Gets the status from this response.
    pub fn status(&self) -> (r: u16)
        ensures
            r == self.status,
    {
        self.status
    }
}

/// Error produced by the operations.
///
/// The type parameter is the type of a documented error body; it is the
/// unit type where an operation documents none.
#[derive(Debug)]
pub enum Error<E> {
    /// The request did not conform to API requirements.
    InvalidRequest(String),
    /// A documented, expected error response.
    ErrorResponse(ResponseValue<E>),
    /// An expected response code whose body is not what that code calls for.
    InvalidResponsePayload(Response),
    /// A response not listed in the API description. This may represent a
    /// success or failure response.
    UnexpectedResponse(Response),
}

impl<E> Error<E> {
    /// Returns the status code, if the error was generated from a response.
    pub fn status(&self) -> (r: Option<u16>)
        ensures
            r == match *self {
                Error::InvalidRequest(_) => None,
                Error::ErrorResponse(value) => Some(value.status),
                Error::InvalidResponsePayload(_) => None,
                Error::UnexpectedResponse(response) => Some(response.status),
            },
    {
        match self {
            Error::InvalidRequest(_) => None,
            Error::ErrorResponse(value) => Some(value.status),
            Error::InvalidResponsePayload(_) => None,
            Error::UnexpectedResponse(response) => Some(response.status),
        }
    }
}

/// The operations of the service.
#[derive(Clone, Copy, Debug, PartialEq, Eq, Structural)]
pub enum Operation {
    GetTodos,
    CreateTodo,
    SearchTodos,
    GetTodoById,
    UpdateTodo,
    DeleteTodo,
}

/// What a status means for an operation.
#[derive(Clone, Copy, Debug, PartialEq, Eq, Structural)]
pub enum Disposition {
    /// The operation succeeded; the body holds its result, if it has one.
    Success,
    /// The operation failed in a documented way; the body holds the error.
    Failure,
    /// The status is not documented for the operation.
    Unexpected,
}

/// What the status `status` means for `operation`.
pub open spec fn disposition(operation: Operation, status: u16) -> Disposition {
    match operation {
        Operation::GetTodos | Operation::SearchTodos => if status == 200 {
            Disposition::Success
        } else {
            Disposition::Unexpected
        },
        Operation::CreateTodo => if status == 201 {
            Disposition::Success
        } else if status == 409 {
            Disposition::Failure
        } else {
            Disposition::Unexpected
        },
        Operation::GetTodoById | Operation::UpdateTodo => if status == 200 {
            Disposition::Success
        } else if status == 404 {
            Disposition::Failure
        } else {
            Disposition::Unexpected
        },
        Operation::DeleteTodo => if status == 200 {
            Disposition::Success
        } else if status == 401 || status == 404 {
            Disposition::Failure
        } else {
            Disposition::Unexpected
        },
    }
}

impl Operation {
    /// What the status `status` means for this operation.
    pub fn disposition(self, status: u16) -> (r: Disposition)
        ensures
            r == disposition(self, status),
    {
        match self {
            Operation::GetTodos | Operation::SearchTodos => {
                if status == 200 {
                    Disposition::Success
                } else {
                    Disposition::Unexpected
                }
            },
            Operation::CreateTodo => {
                if status == 201 {
                    Disposition::Success
                } else if status == 409 {
                    Disposition::Failure
                } else {
                    Disposition::Unexpected
                }
            },
            Operation::GetTodoById | Operation::UpdateTodo => {
                if status == 200 {
                    Disposition::Success
                } else if status == 404 {
                    Disposition::Failure
                } else {
                    Disposition::Unexpected
                }
            },
            Operation::DeleteTodo => {
                if status == 200 {
                    Disposition::Success
                } else if status == 401 || status == 404 {
                    Disposition::Failure
                } else {
                    Disposition::Unexpected
                }
            },
        }
    }
}

/// The todo that the body of a response stands for, if it stands for one.
pub open spec fn body_todo(response: ResponseView) -> Option<TodoView> {
    match response.body {
        Some(j) => todo_of_json(j),
        None => None,
    }
}

/// The todos that the body of a response stands for, if it stands for a
/// list of them.
pub open spec fn body_todos(response: ResponseView) -> Option<Seq<TodoView>> {
    match response.body {
        Some(j) => todos_of_json(j),
        None => None,
    }
}

/// The error that the body of a response stands for, if it stands for one.
pub open spec fn body_error(response: ResponseView) -> Option<ErrorResponseView> {
    match response.body {
        Some(j) => error_of_json(j),
        None => None,
    }
}

/// `r` is the error of a response whose status `operation` documents as a
/// failure or does not document: the error of the body under the status,
/// the response itself where the body stands for no error, and the response
/// itself as unexpected where the status is not documented.
pub open spec fn is_error_of<E: View<V = ErrorResponseView>>(
    operation: Operation,
    response: ResponseView,
    r: Error<E>,
) -> bool {
    match disposition(operation, response.status) {
        Disposition::Success => false,
        Disposition::Failure => match body_error(response) {
            Some(error) => r matches Error::ErrorResponse(value) && value.status == response.status
                && value.inner@ == error,
            None => r matches Error::InvalidResponsePayload(raw) && raw@ == response,
        },
        Disposition::Unexpected => r matches Error::UnexpectedResponse(raw) && raw@ == response,
    }
}

/// `r` is what `response` means for an operation that gives one todo.
pub open spec fn is_todo_of(
    operation: Operation,
    response: ResponseView,
    r: Result<ResponseValue<Todo>, Error<ErrorResponse>>,
) -> bool {
    match disposition(operation, response.status) {
        Disposition::Success => match body_todo(response) {
            Some(todo) => r matches Ok(value) && value.status == response.status && value.inner@
                == todo,
            None => r matches Err(Error::InvalidResponsePayload(raw)) && raw@ == response,
        },
        _ => r matches Err(error) && is_error_of(operation, response, error),
    }
}

/// `r` is what `response` means for an operation that gives a list of
/// todos and documents no error.
pub open spec fn is_todos_of(
    operation: Operation,
    response: ResponseView,
    r: Result<ResponseValue<Vec<Todo>>, Error<()>>,
) -> bool {
    match disposition(operation, response.status) {
        Disposition::Success => match body_todos(response) {
            Some(todos) => r matches Ok(value) && value.status == response.status && todos_view(
                value.inner@,
            ) == todos,
            None => r matches Err(Error::InvalidResponsePayload(raw)) && raw@ == response,
        },
        _ => r matches Err(Error::UnexpectedResponse(raw)) && raw@ == response,
    }
}

/// `r` is what `response` means for an operation that gives nothing: on
/// success the body is not looked at.
pub open spec fn is_nothing_of(
    operation: Operation,
    response: ResponseView,
    r: Result<ResponseValue<()>, Error<ErrorResponse>>,
) -> bool {
    match disposition(operation, response.status) {
        Disposition::Success => r matches Ok(value) && value.status == response.status,
        _ => r matches Err(error) && is_error_of(operation, response, error),
    }
}

/// The error of a response whose status is not one of success.
fn read_error(operation: Operation, response: Response) -> (r: Error<ErrorResponse>)
    requires
        disposition(operation, response.status) != Disposition::Success,
    ensures
        is_error_of(operation, response@, r),
{
    match operation.disposition(response.status) {
        Disposition::Failure => {
            let read = match &response.body {
                Some(j) => ErrorResponse::from_json(j),
                None => None,
            };
            match read {
                Some(error) => Error::ErrorResponse(ResponseValue::new(error, response.status)),
                None => Error::InvalidResponsePayload(response),
            }
        },
        _ => Error::UnexpectedResponse(response),
    }
}

/// Reads the response to an operation that gives one todo.
pub fn read_todo(operation: Operation, response: Response) -> (r: Result<
    ResponseValue<Todo>,
    Error<ErrorResponse>,
>)
    ensures
        is_todo_of(operation, response@, r),
{
    match operation.disposition(response.status) {
        Disposition::Success => {
            let read = match &response.body {
                Some(j) => Todo::from_json(j),
                None => None,
            };
            match read {
                Some(todo) => Ok(ResponseValue::new(todo, response.status)),
                None => Err(Error::InvalidResponsePayload(response)),
            }
        },
        _ => Err(read_error(operation, response)),
    }
}

/// Reads the response to an operation that gives a list of todos.
pub fn read_todos(operation: Operation, response: Response) -> (r: Result<
    ResponseValue<Vec<Todo>>,
    Error<()>,
>)
    ensures
        is_todos_of(operation, response@, r),
{
    match operation.disposition(response.status) {
        Disposition::Success => {
            let read = match &response.body {
                Some(j) => todos_from_json(j),
                None => None,
            };
            match read {
                Some(todos) => Ok(ResponseValue::new(todos, response.status)),
                None => Err(Error::InvalidResponsePayload(response)),
            }
        },
        _ => Err(Error::UnexpectedResponse(response)),
    }
}

/// Reads the response to an operation that gives nothing.
pub fn read_nothing(operation: Operation, response: Response) -> (r: Result<
    ResponseValue<()>,
    Error<ErrorResponse>,
>)
    ensures
        is_nothing_of(operation, response@, r),
{
    match operation.disposition(response.status) {
        Disposition::Success => Ok(ResponseValue::new((), response.status)),
        _ => Err(read_error(operation, response)),
    }
}

} // verus!
