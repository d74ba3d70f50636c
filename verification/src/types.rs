//! The records that travel between the client and the todo service.

use vstd::prelude::*;
use vstd::std_specs::convert::FromSpecImpl;

pub mod builder;

verus! {

/// Todo endpoint error responses
#[derive(Debug)]
pub enum ErrorResponse {
    NotFound(String),
    Conflict(String),
    Unauthorized(String),
}

/// What an [`ErrorResponse`] holds.
pub enum ErrorResponseView {
    NotFound(Seq<char>),
    Conflict(Seq<char>),
    Unauthorized(Seq<char>),
}

impl View for ErrorResponse {
    type V = ErrorResponseView;

    open spec fn view(&self) -> ErrorResponseView {
        match self {
            ErrorResponse::NotFound(message) => ErrorResponseView::NotFound(message@),
            ErrorResponse::Conflict(message) => ErrorResponseView::Conflict(message@),
            ErrorResponse::Unauthorized(message) => ErrorResponseView::Unauthorized(message@),
        }
    }
}

impl Clone for ErrorResponse {
    fn clone(&self) -> (r: Self)
        ensures
            r == *self,
    {
        match self {
            ErrorResponse::NotFound(message) => ErrorResponse::NotFound(message.clone()),
            ErrorResponse::Conflict(message) => ErrorResponse::Conflict(message.clone()),
            ErrorResponse::Unauthorized(message) => ErrorResponse::Unauthorized(message.clone()),
        }
    }
}

impl<'a> From<&'a ErrorResponse> for ErrorResponse {
    fn from(value: &'a ErrorResponse) -> (r: ErrorResponse) {
        value.clone()
    }
}

impl<'a> FromSpecImpl<&'a ErrorResponse> for ErrorResponse {
    open spec fn obeys_from_spec() -> bool {
        true
    }

    open spec fn from_spec(value: &'a ErrorResponse) -> ErrorResponse {
        *value
    }
}

/// Task to do.
#[derive(Debug)]
pub struct Todo {
    /// Mark is the task done or not
    pub checked: bool,
    /// Unique id for the todo item.
    pub id: i32,
    /// Description of the tasks to do.
    pub value: String,
}

/// What a [`Todo`] holds.
pub struct TodoView {
    pub checked: bool,
    pub id: i32,
    pub value: Seq<char>,
}

impl View for Todo {
    type V = TodoView;

    open spec fn view(&self) -> TodoView {
        TodoView { checked: self.checked, id: self.id, value: self.value@ }
    }
}

impl Clone for Todo {
    fn clone(&self) -> (r: Self)
        ensures
            r == *self,
    {
        Todo { checked: self.checked, id: self.id, value: self.value.clone() }
    }
}

impl<'a> From<&'a Todo> for Todo {
    fn from(value: &'a Todo) -> (r: Todo) {
        value.clone()
    }
}

impl<'a> FromSpecImpl<&'a Todo> for Todo {
    open spec fn obeys_from_spec() -> bool {
        true
    }

    open spec fn from_spec(value: &'a Todo) -> Todo {
        *value
    }
}

impl Todo {
    /// A builder with no field supplied yet.
    pub fn builder() -> (r: builder::Todo)
        ensures
            r@ == builder::unsupplied_todo(),
    {
        builder::Todo::default()
    }
}

/// Request to update existing `Todo` item.
#[derive(Debug)]
pub struct TodoUpdateRequest {
    /// Optional check status to mark is the task done or not.
    pub checked: Option<bool>,
    /// Optional new value for the `Todo` task.
    pub value: Option<String>,
}

/// What a [`TodoUpdateRequest`] holds. An absent field leaves that part of
/// the todo as it is.
pub struct TodoUpdateRequestView {
    pub checked: Option<bool>,
    pub value: Option<Seq<char>>,
}

/// What an optional text holds.
pub open spec fn optional_text(text: Option<String>) -> Option<Seq<char>> {
    match text {
        Some(t) => Some(t@),
        None => None,
    }
}

impl View for TodoUpdateRequest {
    type V = TodoUpdateRequestView;

    open spec fn view(&self) -> TodoUpdateRequestView {
        TodoUpdateRequestView { checked: self.checked, value: optional_text(self.value) }
    }
}

impl Clone for TodoUpdateRequest {
    fn clone(&self) -> (r: Self)
        ensures
            r == *self,
    {
        let value = match &self.value {
            Some(text) => Some(text.clone()),
            None => None,
        };
        TodoUpdateRequest { checked: self.checked, value }
    }
}

impl<'a> From<&'a TodoUpdateRequest> for TodoUpdateRequest {
    fn from(value: &'a TodoUpdateRequest) -> (r: TodoUpdateRequest) {
        value.clone()
    }
}

impl<'a> FromSpecImpl<&'a TodoUpdateRequest> for TodoUpdateRequest {
    open spec fn obeys_from_spec() -> bool {
        true
    }

    open spec fn from_spec(value: &'a TodoUpdateRequest) -> TodoUpdateRequest {
        *value
    }
}

impl TodoUpdateRequest {
    /// A builder that changes nothing yet.
    pub fn builder() -> (r: builder::TodoUpdateRequest)
        ensures
            r@ == builder::empty_update(),
    {
        builder::TodoUpdateRequest::default()
    }
}

} // verus!
