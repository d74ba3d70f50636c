//! The operations in builder form: arguments are collected, each converted
//! as it comes, and nothing is asked of the service before the request is
//! made of them.
//!
//! An exchange has three steps. `request` makes the request of the
//! arguments, or refuses them. The transport sends it; under a status that
//! [`Operation::disposition`] calls unexpected it may leave the body unread.
//! `response` reads what came back.

use crate::request::{create_request, delete_request, get_by_id_request, list_request};
use crate::request::{search_request, update_request, Request};
use crate::response::{is_nothing_of, is_todo_of, is_todos_of, read_nothing, read_todo, read_todos};
use crate::response::{Error, Operation, Response, ResponseValue};
use crate::types;
use crate::types::builder::{built_todo, built_update, draft_of_todo, draft_of_update};
use crate::types::builder::{empty_update, unsupplied_todo, TodoDraft, UpdateDraft};
use crate::types::builder::{field_view, optional_text_field_view};
use crate::types::{TodoUpdateRequestView, TodoView};
use crate::Client;
use vstd::prelude::*;
use vstd::std_specs::convert::TryIntoSpec;
use vstd::string::*;

verus! {

/// What an argument keeps of a conversion that went one way or the other:
/// the value, or `reason`.
pub fn converted_or<V, E>(outcome: Result<V, E>, reason: &str) -> (r: Result<V, String>)
    ensures
        match outcome {
            Ok(value) => r == Ok::<V, String>(value),
            Err(_) => r matches Err(given) && given@ == reason@,
        },
{
    match outcome {
        Ok(value) => Ok(value),
        Err(_) => Err(String::from_str(reason)),
    }
}

/// What an argument holds that is a builder of a todo.
pub open spec fn todo_argument_view(argument: Result<types::builder::Todo, String>) -> Result<
    TodoDraft,
    Seq<char>,
> {
    match argument {
        Ok(draft) => Ok(draft@),
        Err(reason) => Err(reason@),
    }
}

/// What an argument holds that is a builder of an update.
pub open spec fn update_argument_view(
    argument: Result<types::builder::TodoUpdateRequest, String>,
) -> Result<UpdateDraft, Seq<char>> {
    match argument {
        Ok(draft) => Ok(draft@),
        Err(reason) => Err(reason@),
    }
}

/// The todo that an argument gives: what its builder makes, or the reason
/// why there is none.
pub open spec fn todo_argument(argument: Result<TodoDraft, Seq<char>>) -> Result<
    TodoView,
    Seq<char>,
> {
    match argument {
        Ok(draft) => built_todo(draft),
        Err(reason) => Err(reason),
    }
}

/// The update that an argument gives: what its builder makes, or the reason
/// why there is none.
pub open spec fn update_argument(argument: Result<UpdateDraft, Seq<char>>) -> Result<
    TodoUpdateRequestView,
    Seq<char>,
> {
    match argument {
        Ok(draft) => built_update(draft),
        Err(reason) => Err(reason),
    }
}

/// `r` is the request `request`, or the refusal for the reason `reason`
/// where an argument is missing or did not convert.
pub open spec fn is_request_or_refusal<E>(
    r: Result<Request, Error<E>>,
    request: Result<crate::request::RequestView, Seq<char>>,
) -> bool {
    match request {
        Ok(wanted) => r matches Ok(made) && made@ == wanted,
        Err(reason) => r matches Err(Error::InvalidRequest(given)) && given@ == reason,
    }
}

/// Builder for [`crate::ClientTodoExt::get_todos`]
#[derive(Debug)]
pub struct GetTodos<'a> {
    client: &'a Client,
}

impl<'a> Clone for GetTodos<'a> {
    fn clone(&self) -> (r: Self)
        ensures
            r == *self,
    {
        GetTodos { client: self.client }
    }
}

impl<'a> GetTodos<'a> {
    /// The base URL of the client that this operation is for.
    pub closed spec fn base(&self) -> Seq<char> {
        self.client@
    }

    /// The operation on `client`; it takes no argument.
    pub fn new(client: &'a Client) -> (r: Self)
        ensures
            r.base() == client@,
    {
        Self { client }
    }

    /// The request of this operation: `GET` of `/todo`.
    pub fn request(self) -> (r: Result<Request, Error<()>>)
        ensures
            r matches Ok(made) && made@ == list_request(self.base()),
    {
        Ok(self.client.list())
    }

    /// What a response to this operation means: under 200 the list of
    /// todos; any other status is unexpected.
    pub fn response(response: Response) -> (r: Result<ResponseValue<Vec<types::Todo>>, Error<()>>)
        ensures
            is_todos_of(Operation::GetTodos, response@, r),
    {
        read_todos(Operation::GetTodos, response)
    }
}

/// Builder for [`crate::ClientTodoExt::create_todo`]
#[derive(Debug)]
pub struct CreateTodo<'a> {
    client: &'a Client,
    body: Result<types::builder::Todo, String>,
}

impl<'a> Clone for CreateTodo<'a> {
    fn clone(&self) -> (r: Self)
        ensures
            r == *self,
    {
        let body = match &self.body {
            Ok(draft) => Ok(draft.clone()),
            Err(reason) => Err(reason.clone()),
        };
        CreateTodo { client: self.client, body }
    }
}

impl<'a> CreateTodo<'a> {
    /// The base URL of the client that this operation is for.
    pub closed spec fn base(&self) -> Seq<char> {
        self.client@
    }

    /// The argument `body` as it stands.
    pub closed spec fn body_argument(&self) -> Result<types::builder::Todo, String> {
        self.body
    }

    /// What the argument `body` holds.
    pub open spec fn body_view(&self) -> Result<TodoDraft, Seq<char>> {
        todo_argument_view(self.body_argument())
    }

    /// The operation on `client`, with a body to which nothing was supplied.
    pub fn new(client: &'a Client) -> (r: Self)
        ensures
            r.base() == client@,
            r.body_view() == Ok::<TodoDraft, Seq<char>>(unsupplied_todo()),
    {
        Self { client, body: Ok(types::builder::Todo::default()) }
    }

    /// Supplies the body with what `value` converts to.
    pub fn body<V>(self, value: V) -> (r: Self) where V: std::convert::TryInto<types::Todo>
        ensures
            r.base() == self.base(),
            r.body_view() matches Err(reason) ==> reason
                == "conversion to `Todo` for body failed"@,
            r.body_view() matches Ok(draft) ==> built_todo(draft) is Ok,
            V::obeys_try_into_spec() ==> match value.try_into_spec() {
                Ok(todo) => r.body_view() == Ok::<TodoDraft, Seq<char>>(draft_of_todo(todo@)),
                Err(_) => r.body_view() is Err,
            },
    {
        let body = match converted_or(value.try_into(), "conversion to `Todo` for body failed") {
            Ok(todo) => Ok(types::builder::Todo::from(todo)),
            Err(reason) => Err(reason),
        };
        self.with_body(body)
    }

    /// Puts `body` in its place: a builder of the todo, or the reason why
    /// there is none.
    pub fn with_body(self, body: Result<types::builder::Todo, String>) -> (r: Self)
        ensures
            r.base() == self.base(),
            r.body_argument() == body,
    {
        CreateTodo { client: self.client, body }
    }

    /// Changes the builder of the body by `f`, where there is one.
    pub fn body_map<F>(self, f: F) -> (r: Self) where
        F: std::ops::FnOnce(types::builder::Todo) -> types::builder::Todo,

        requires
            self.body_argument() matches Ok(draft) ==> call_requires(f, (draft,)),
        ensures
            r.base() == self.base(),
            match self.body_argument() {
                Ok(draft) => r.body_argument() matches Ok(changed) && call_ensures(
                    f,
                    (draft,),
                    changed,
                ),
                Err(reason) => r.body_argument() == Err::<types::builder::Todo, String>(reason),
            },
    {
        let body = match self.body {
            Ok(draft) => Ok(f(draft)),
            Err(reason) => Err(reason),
        };
        CreateTodo { client: self.client, body }
    }

    /// The request of this operation: `POST` of `/todo` with the todo as
    /// its body; a refusal where the body is missing, did not convert, or
    /// lacks a field.
    pub fn request(self) -> (r: Result<Request, Error<types::ErrorResponse>>)
        ensures
            is_request_or_refusal(
                r,
                match todo_argument(self.body_view()) {
                    Ok(todo) => Ok(create_request(self.base(), todo)),
                    Err(reason) => Err(reason),
                },
            ),
    {
        let draft = match self.body {
            Ok(draft) => draft,
            Err(reason) => {
                return Err(Error::InvalidRequest(reason));
            },
        };
        match types::Todo::try_from(draft) {
            Ok(todo) => Ok(self.client.create(&todo)),
            Err(reason) => Err(Error::InvalidRequest(reason)),
        }
    }

    /// What a response to this operation means: under 201 the todo that
    /// was created, under 409 the error of the body; any other status is
    /// unexpected.
    pub fn response(response: Response) -> (r: Result<
        ResponseValue<types::Todo>,
        Error<types::ErrorResponse>,
    >)
        ensures
            is_todo_of(Operation::CreateTodo, response@, r),
    {
        read_todo(Operation::CreateTodo, response)
    }
}

/// Builder for [`crate::ClientTodoExt::search_todos`]
#[derive(Debug)]
pub struct SearchTodos<'a> {
    client: &'a Client,
    value: Result<Option<String>, String>,
}

impl<'a> Clone for SearchTodos<'a> {
    fn clone(&self) -> (r: Self)
        ensures
            r == *self,
    {
        let value = match &self.value {
            Ok(Some(text)) => Ok(Some(text.clone())),
            Ok(None) => Ok(None),
            Err(reason) => Err(reason.clone()),
        };
        SearchTodos { client: self.client, value }
    }
}

impl<'a> SearchTodos<'a> {
    /// The base URL of the client that this operation is for.
    pub closed spec fn base(&self) -> Seq<char> {
        self.client@
    }

    /// What the argument `value` holds.
    pub closed spec fn value_view(&self) -> Result<Option<Seq<char>>, Seq<char>> {
        optional_text_field_view(self.value)
    }

    /// The operation on `client`, with no text to look for.
    pub fn new(client: &'a Client) -> (r: Self)
        ensures
            r.base() == client@,
            r.value_view() == Ok::<Option<Seq<char>>, Seq<char>>(None),
    {
        Self { client, value: Ok(None) }
    }

    /// Supplies the text to look for with what `value` converts to.
    pub fn value<V>(self, value: V) -> (r: Self) where V: std::convert::TryInto<String>
        ensures
            r.base() == self.base(),
            r.value_view() matches Err(reason) ==> reason
                == "conversion to `String` for value failed"@,
            r.value_view() matches Ok(text) ==> text is Some,
            V::obeys_try_into_spec() ==> match value.try_into_spec() {
                Ok(text) => r.value_view() == Ok::<Option<Seq<char>>, Seq<char>>(Some(text@)),
                Err(_) => r.value_view() is Err,
            },
    {
        let value = match converted_or(value.try_into(), "conversion to `String` for value failed") {
            Ok(text) => Ok(Some(text)),
            Err(reason) => Err(reason),
        };
        self.with_value(value)
    }

    /// Puts `value` in its place: the text to look for, none, or the reason
    /// why it is unknown.
    pub fn with_value(self, value: Result<Option<String>, String>) -> (r: Self)
        ensures
            r.base() == self.base(),
            r.value_view() == optional_text_field_view(value),
    {
        SearchTodos { client: self.client, value }
    }

    /// The request of this operation: `GET` of `/todo/search`, with the
    /// text to look for, where there is one, in the query; a refusal where
    /// the text did not convert.
    pub fn request(self) -> (r: Result<Request, Error<()>>)
        ensures
            is_request_or_refusal(
                r,
                match self.value_view() {
                    Ok(value) => Ok(search_request(self.base(), value)),
                    Err(reason) => Err(reason),
                },
            ),
    {
        match self.value {
            Ok(Some(text)) => Ok(self.client.search(Some(text.as_str()))),
            Ok(None) => Ok(self.client.search(None)),
            Err(reason) => Err(Error::InvalidRequest(reason)),
        }
    }

    /// What a response to this operation means: under 200 the list of the
    /// todos found; any other status is unexpected.
    pub fn response(response: Response) -> (r: Result<ResponseValue<Vec<types::Todo>>, Error<()>>)
        ensures
            is_todos_of(Operation::SearchTodos, response@, r),
    {
        read_todos(Operation::SearchTodos, response)
    }
}

/// The id before any was supplied.
pub open spec fn unsupplied_id() -> Result<i32, Seq<char>> {
    Err("id was not initialized"@)
}

/// Builder for [`crate::ClientTodoExt::get_todo_by_id`]
#[derive(Debug)]
pub struct GetTodoById<'a> {
    client: &'a Client,
    id: Result<i32, String>,
}

impl<'a> Clone for GetTodoById<'a> {
    fn clone(&self) -> (r: Self)
        ensures
            r == *self,
    {
        let id = match &self.id {
            Ok(id) => Ok(*id),
            Err(reason) => Err(reason.clone()),
        };
        GetTodoById { client: self.client, id }
    }
}

impl<'a> GetTodoById<'a> {
    /// The base URL of the client that this operation is for.
    pub closed spec fn base(&self) -> Seq<char> {
        self.client@
    }

    /// What the argument `id` holds.
    pub closed spec fn id_view(&self) -> Result<i32, Seq<char>> {
        field_view(self.id)
    }

    /// The operation on `client`, with no id yet.
    pub fn new(client: &'a Client) -> (r: Self)
        ensures
            r.base() == client@,
            r.id_view() == unsupplied_id(),
    {
        Self { client, id: Err(String::from_str("id was not initialized")) }
    }

    /// Supplies the id with what `value` converts to.
    pub fn id<V>(self, value: V) -> (r: Self) where V: std::convert::TryInto<i32>
        ensures
            r.base() == self.base(),
            r.id_view() matches Err(reason) ==> reason == "conversion to `i32` for id failed"@,
            V::obeys_try_into_spec() ==> match value.try_into_spec() {
                Ok(id) => r.id_view() == Ok::<i32, Seq<char>>(id),
                Err(_) => r.id_view() is Err,
            },
    {
        self.with_id(converted_or(value.try_into(), "conversion to `i32` for id failed"))
    }

    /// Puts `id` in its place: the id, or the reason why there is none.
    pub fn with_id(self, id: Result<i32, String>) -> (r: Self)
        ensures
            r.base() == self.base(),
            r.id_view() == field_view(id),
    {
        GetTodoById { client: self.client, id }
    }

    /// The request of this operation: `GET` of `/todo/{id}`; a refusal
    /// where the id is missing or did not convert.
    pub fn request(self) -> (r: Result<Request, Error<types::ErrorResponse>>)
        ensures
            is_request_or_refusal(
                r,
                match self.id_view() {
                    Ok(id) => Ok(get_by_id_request(self.base(), id)),
                    Err(reason) => Err(reason),
                },
            ),
    {
        match self.id {
            Ok(id) => Ok(self.client.get_by_id(id)),
            Err(reason) => Err(Error::InvalidRequest(reason)),
        }
    }

    /// What a response to this operation means: under 200 the todo, under
    /// 404 the error of the body; any other status is unexpected.
    pub fn response(response: Response) -> (r: Result<
        ResponseValue<types::Todo>,
        Error<types::ErrorResponse>,
    >)
        ensures
            is_todo_of(Operation::GetTodoById, response@, r),
    {
        read_todo(Operation::GetTodoById, response)
    }
}

/// Builder for [`crate::ClientTodoExt::update_todo`]
#[derive(Debug)]
pub struct UpdateTodo<'a> {
    client: &'a Client,
    id: Result<i32, String>,
    body: Result<types::builder::TodoUpdateRequest, String>,
}

impl<'a> Clone for UpdateTodo<'a> {
    fn clone(&self) -> (r: Self)
        ensures
            r == *self,
    {
        let id = match &self.id {
            Ok(id) => Ok(*id),
            Err(reason) => Err(reason.clone()),
        };
        let body = match &self.body {
            Ok(draft) => Ok(draft.clone()),
            Err(reason) => Err(reason.clone()),
        };
        UpdateTodo { client: self.client, id, body }
    }
}

impl<'a> UpdateTodo<'a> {
    /// The base URL of the client that this operation is for.
    pub closed spec fn base(&self) -> Seq<char> {
        self.client@
    }

    /// What the argument `id` holds.
    pub closed spec fn id_view(&self) -> Result<i32, Seq<char>> {
        field_view(self.id)
    }

    /// The argument `body` as it stands.
    pub closed spec fn body_argument(&self) -> Result<types::builder::TodoUpdateRequest, String> {
        self.body
    }

    /// What the argument `body` holds.
    pub open spec fn body_view(&self) -> Result<UpdateDraft, Seq<char>> {
        update_argument_view(self.body_argument())
    }

    /// The operation on `client`, with no id yet and a body that changes
    /// nothing.
    pub fn new(client: &'a Client) -> (r: Self)
        ensures
            r.base() == client@,
            r.id_view() == unsupplied_id(),
            r.body_view() == Ok::<UpdateDraft, Seq<char>>(empty_update()),
    {
        Self {
            client,
            id: Err(String::from_str("id was not initialized")),
            body: Ok(types::builder::TodoUpdateRequest::default()),
        }
    }

    /// Supplies the id with what `value` converts to.
    pub fn id<V>(self, value: V) -> (r: Self) where V: std::convert::TryInto<i32>
        ensures
            r.base() == self.base(),
            r.body_argument() == self.body_argument(),
            r.id_view() matches Err(reason) ==> reason == "conversion to `i32` for id failed"@,
            V::obeys_try_into_spec() ==> match value.try_into_spec() {
                Ok(id) => r.id_view() == Ok::<i32, Seq<char>>(id),
                Err(_) => r.id_view() is Err,
            },
    {
        self.with_id(converted_or(value.try_into(), "conversion to `i32` for id failed"))
    }

    /// Puts `id` in its place: the id, or the reason why there is none.
    pub fn with_id(self, id: Result<i32, String>) -> (r: Self)
        ensures
            r.base() == self.base(),
            r.body_argument() == self.body_argument(),
            r.id_view() == field_view(id),
    {
        UpdateTodo { client: self.client, id, body: self.body }
    }

    /// Supplies the body with what `value` converts to.
    pub fn body<V>(self, value: V) -> (r: Self) where
        V: std::convert::TryInto<types::TodoUpdateRequest>,

        ensures
            r.base() == self.base(),
            r.id_view() == self.id_view(),
            r.body_view() matches Err(reason) ==> reason
                == "conversion to `TodoUpdateRequest` for body failed"@,
            r.body_view() matches Ok(draft) ==> built_update(draft) is Ok,
            V::obeys_try_into_spec() ==> match value.try_into_spec() {
                Ok(update) => r.body_view() == Ok::<UpdateDraft, Seq<char>>(
                    draft_of_update(update@),
                ),
                Err(_) => r.body_view() is Err,
            },
    {
        let body = match converted_or(
            value.try_into(),
            "conversion to `TodoUpdateRequest` for body failed",
        ) {
            Ok(update) => Ok(types::builder::TodoUpdateRequest::from(update)),
            Err(reason) => Err(reason),
        };
        self.with_body(body)
    }

    /// Puts `body` in its place: a builder of the update, or the reason why
    /// there is none.
    pub fn with_body(self, body: Result<types::builder::TodoUpdateRequest, String>) -> (r: Self)
        ensures
            r.base() == self.base(),
            r.id_view() == self.id_view(),
            r.body_argument() == body,
    {
        UpdateTodo { client: self.client, id: self.id, body }
    }

    /// Changes the builder of the body by `f`, where there is one.
    pub fn body_map<F>(self, f: F) -> (r: Self) where
        F: std::ops::FnOnce(types::builder::TodoUpdateRequest) -> types::builder::TodoUpdateRequest,

        requires
            self.body_argument() matches Ok(draft) ==> call_requires(f, (draft,)),
        ensures
            r.base() == self.base(),
            r.id_view() == self.id_view(),
            match self.body_argument() {
                Ok(draft) => r.body_argument() matches Ok(changed) && call_ensures(
                    f,
                    (draft,),
                    changed,
                ),
                Err(reason) => r.body_argument() == Err::<
                    types::builder::TodoUpdateRequest,
                    String,
                >(reason),
            },
    {
        let body = match self.body {
            Ok(draft) => Ok(f(draft)),
            Err(reason) => Err(reason),
        };
        UpdateTodo { client: self.client, id: self.id, body }
    }

    /// The request of this operation: `PUT` of `/todo/{id}` with the update
    /// as its body; a refusal for the first of these that holds: the id is
    /// missing or did not convert; the body did not convert; a field of the
    /// body did not convert.
    pub fn request(self) -> (r: Result<Request, Error<types::ErrorResponse>>)
        ensures
            is_request_or_refusal(
                r,
                match self.id_view() {
                    Ok(id) => match update_argument(self.body_view()) {
                        Ok(update) => Ok(update_request(self.base(), id, update)),
                        Err(reason) => Err(reason),
                    },
                    Err(reason) => Err(reason),
                },
            ),
    {
        let id = match self.id {
            Ok(id) => id,
            Err(reason) => {
                return Err(Error::InvalidRequest(reason));
            },
        };
        let draft = match self.body {
            Ok(draft) => draft,
            Err(reason) => {
                return Err(Error::InvalidRequest(reason));
            },
        };
        match types::TodoUpdateRequest::try_from(draft) {
            Ok(update) => Ok(self.client.update(id, &update)),
            Err(reason) => Err(Error::InvalidRequest(reason)),
        }
    }

    /// What a response to this operation means: under 200 the todo as it
    /// is after the update, under 404 the error of the body; any other
    /// status is unexpected.
    pub fn response(response: Response) -> (r: Result<
        ResponseValue<types::Todo>,
        Error<types::ErrorResponse>,
    >)
        ensures
            is_todo_of(Operation::UpdateTodo, response@, r),
    {
        read_todo(Operation::UpdateTodo, response)
    }
}

/// Builder for [`crate::ClientTodoExt::delete_todo`]
#[derive(Debug)]
pub struct DeleteTodo<'a> {
    client: &'a Client,
    id: Result<i32, String>,
}

impl<'a> Clone for DeleteTodo<'a> {
    fn clone(&self) -> (r: Self)
        ensures
            r == *self,
    {
        let id = match &self.id {
            Ok(id) => Ok(*id),
            Err(reason) => Err(reason.clone()),
        };
        DeleteTodo { client: self.client, id }
    }
}

impl<'a> DeleteTodo<'a> {
    /// The base URL of the client that this operation is for.
    pub closed spec fn base(&self) -> Seq<char> {
        self.client@
    }

    /// What the argument `id` holds.
    pub closed spec fn id_view(&self) -> Result<i32, Seq<char>> {
        field_view(self.id)
    }

    /// The operation on `client`, with no id yet.
    pub fn new(client: &'a Client) -> (r: Self)
        ensures
            r.base() == client@,
            r.id_view() == unsupplied_id(),
    {
        Self { client, id: Err(String::from_str("id was not initialized")) }
    }

    /// Supplies the id with what `value` converts to.
    pub fn id<V>(self, value: V) -> (r: Self) where V: std::convert::TryInto<i32>
        ensures
            r.base() == self.base(),
            r.id_view() matches Err(reason) ==> reason == "conversion to `i32` for id failed"@,
            V::obeys_try_into_spec() ==> match value.try_into_spec() {
                Ok(id) => r.id_view() == Ok::<i32, Seq<char>>(id),
                Err(_) => r.id_view() is Err,
            },
    {
        self.with_id(converted_or(value.try_into(), "conversion to `i32` for id failed"))
    }

    /// Puts `id` in its place: the id, or the reason why there is none.
    pub fn with_id(self, id: Result<i32, String>) -> (r: Self)
        ensures
            r.base() == self.base(),
            r.id_view() == field_view(id),
    {
        DeleteTodo { client: self.client, id }
    }

    /// The request of this operation: `DELETE` of `/todo/{id}`; a refusal
    /// where the id is missing or did not convert.
    pub fn request(self) -> (r: Result<Request, Error<types::ErrorResponse>>)
        ensures
            is_request_or_refusal(
                r,
                match self.id_view() {
                    Ok(id) => Ok(delete_request(self.base(), id)),
                    Err(reason) => Err(reason),
                },
            ),
    {
        match self.id {
            Ok(id) => Ok(self.client.delete(id)),
            Err(reason) => Err(Error::InvalidRequest(reason)),
        }
    }

    /// What a response to this operation means: under 200 nothing, under
    /// 401 and 404 the error of the body; any other status is unexpected.
    pub fn response(response: Response) -> (r: Result<
        ResponseValue<()>,
        Error<types::ErrorResponse>,
    >)
        ensures
            is_nothing_of(Operation::DeleteTodo, response@, r),
    {
        read_nothing(Operation::DeleteTodo, response)
    }
}

} // verus!
