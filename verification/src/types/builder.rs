//! Builders of the records, field by field. A field holds the value it was
//! given, or the reason why it holds none.

use vstd::prelude::*;
use vstd::std_specs::convert::{FromSpecImpl, TryFromSpec, TryFromSpecImpl, TryIntoSpec};
use vstd::string::*;

verus! {

/// What a field holds whose value is no text.
pub open spec fn field_view<T>(field: Result<T, String>) -> Result<T, Seq<char>> {
    match field {
        Ok(value) => Ok(value),
        Err(reason) => Err(reason@),
    }
}

/// What a field of text holds.
pub open spec fn text_field_view(field: Result<String, String>) -> Result<Seq<char>, Seq<char>> {
    match field {
        Ok(value) => Ok(value@),
        Err(reason) => Err(reason@),
    }
}

/// What a field of optional text holds.
pub open spec fn optional_text_field_view(field: Result<Option<String>, String>) -> Result<
    Option<Seq<char>>,
    Seq<char>,
> {
    match field {
        Ok(Some(value)) => Ok(Some(value@)),
        Ok(None) => Ok(None),
        Err(reason) => Err(reason@),
    }
}

/// How the reason starts that a field gives for a value that did not convert.
pub open spec fn conversion_prefix(field: Seq<char>) -> Seq<char> {
    "error converting supplied value for "@ + field + ": "@
}

/// `reason` is what a field gives for a value that did not convert: the
/// prefix of that field, then what the conversion said.
pub open spec fn is_conversion_failure(field: Seq<char>, reason: Seq<char>) -> bool {
    exists|detail: Seq<char>| reason == conversion_prefix(field) + detail
}

/// What a field keeps of a conversion that went one way or the other: the
/// value, or the reason made of the field's prefix and of what the failure
/// displays as.
pub fn converted<V, E: std::fmt::Display>(field: &str, outcome: Result<V, E>) -> (r: Result<
    V,
    String,
>)
    ensures
        match outcome {
            Ok(value) => r == Ok::<V, String>(value),
            Err(failure) => r matches Err(reason) && exists|detail: String|
                to_string_from_display_ensures::<E>(&failure, detail) && reason@
                    == conversion_prefix(field@) + detail@,
        },
        r matches Err(reason) ==> is_conversion_failure(field@, reason@),
{
    match outcome {
        Ok(value) => Ok(value),
        Err(failure) => {
            let detail = failure.to_string();
            let mut reason = String::from_str("error converting supplied value for ");
            reason.append(field);
            reason.append(": ");
            reason.append(detail.as_str());
            assert(reason@ == conversion_prefix(field@) + detail@);
            Err(reason)
        },
    }
}

/// Builder of a [`super::Todo`].
#[derive(Debug)]
pub struct Todo {
    checked: Result<bool, String>,
    id: Result<i32, String>,
    value: Result<String, String>,
}

/// What a builder of a todo holds.
pub struct TodoDraft {
    pub checked: Result<bool, Seq<char>>,
    pub id: Result<i32, Seq<char>>,
    pub value: Result<Seq<char>, Seq<char>>,
}

/// The builder to which nothing was supplied.
pub open spec fn unsupplied_todo() -> TodoDraft {
    TodoDraft {
        checked: Err("no value supplied for checked"@),
        id: Err("no value supplied for id"@),
        value: Err("no value supplied for value"@),
    }
}

/// The todo that a builder makes: its three values, or the reason of the
/// first field that holds none.
pub open spec fn built_todo(draft: TodoDraft) -> Result<super::TodoView, Seq<char>> {
    match draft.checked {
        Err(reason) => Err(reason),
        Ok(checked) => match draft.id {
            Err(reason) => Err(reason),
            Ok(id) => match draft.value {
                Err(reason) => Err(reason),
                Ok(value) => Ok(super::TodoView { checked, id, value }),
            },
        },
    }
}

/// The builder that holds the three values of a todo.
pub open spec fn draft_of_todo(todo: super::TodoView) -> TodoDraft {
    TodoDraft { checked: Ok(todo.checked), id: Ok(todo.id), value: Ok(todo.value) }
}

impl View for Todo {
    type V = TodoDraft;

    closed spec fn view(&self) -> TodoDraft {
        TodoDraft {
            checked: field_view(self.checked),
            id: field_view(self.id),
            value: text_field_view(self.value),
        }
    }
}

impl Clone for Todo {
    fn clone(&self) -> (r: Self)
        ensures
            r == *self,
    {
        let checked = match &self.checked {
            Ok(value) => Ok(*value),
            Err(reason) => Err(reason.clone()),
        };
        let id = match &self.id {
            Ok(value) => Ok(*value),
            Err(reason) => Err(reason.clone()),
        };
        let value = match &self.value {
            Ok(value) => Ok(value.clone()),
            Err(reason) => Err(reason.clone()),
        };
        Todo { checked, id, value }
    }
}

impl Default for Todo {
    fn default() -> (r: Self)
        ensures
            r@ == unsupplied_todo(),
    {
        Self {
            checked: Err(String::from_str("no value supplied for checked")),
            id: Err(String::from_str("no value supplied for id")),
            value: Err(String::from_str("no value supplied for value")),
        }
    }
}

impl Todo {
    /// Supplies `checked` with what `value` converts to.
    pub fn checked<T>(self, value: T) -> (r: Self) where
        T: std::convert::TryInto<bool>,
        T::Error: std::fmt::Display,

        ensures
            r@.id == self@.id,
            r@.value == self@.value,
            r@.checked matches Err(reason) ==> is_conversion_failure("checked"@, reason),
            T::obeys_try_into_spec() ==> match value.try_into_spec() {
                Ok(converted) => r@.checked == Ok::<bool, Seq<char>>(converted),
                Err(_) => r@.checked is Err,
            },
    {
        let outcome = value.try_into();
        self.with_checked(converted("checked", outcome))
    }

    /// Supplies `id` with what `value` converts to.
    pub fn id<T>(self, value: T) -> (r: Self) where
        T: std::convert::TryInto<i32>,
        T::Error: std::fmt::Display,

        ensures
            r@.checked == self@.checked,
            r@.value == self@.value,
            r@.id matches Err(reason) ==> is_conversion_failure("id"@, reason),
            T::obeys_try_into_spec() ==> match value.try_into_spec() {
                Ok(converted) => r@.id == Ok::<i32, Seq<char>>(converted),
                Err(_) => r@.id is Err,
            },
    {
        let outcome = value.try_into();
        self.with_id(converted("id", outcome))
    }

    /// Supplies `value` with what `value` converts to.
    pub fn value<T>(self, value: T) -> (r: Self) where
        T: std::convert::TryInto<String>,
        T::Error: std::fmt::Display,

        ensures
            r@.checked == self@.checked,
            r@.id == self@.id,
            r@.value matches Err(reason) ==> is_conversion_failure("value"@, reason),
            T::obeys_try_into_spec() ==> match value.try_into_spec() {
                Ok(converted) => r@.value == Ok::<Seq<char>, Seq<char>>(converted@),
                Err(_) => r@.value is Err,
            },
    {
        let outcome = value.try_into();
        self.with_value(converted("value", outcome))
    }

    /// Puts `checked` in its field: a value, or the reason why there is none.
    pub fn with_checked(self, checked: Result<bool, String>) -> (r: Self)
        ensures
            r@ == (TodoDraft { checked: field_view(checked), ..self@ }),
    {
        Todo { checked, id: self.id, value: self.value }
    }

    /// Puts `id` in its field: a value, or the reason why there is none.
    pub fn with_id(self, id: Result<i32, String>) -> (r: Self)
        ensures
            r@ == (TodoDraft { id: field_view(id), ..self@ }),
    {
        Todo { checked: self.checked, id, value: self.value }
    }

    /// Puts `value` in its field: a value, or the reason why there is none.
    pub fn with_value(self, value: Result<String, String>) -> (r: Self)
        ensures
            r@ == (TodoDraft { value: text_field_view(value), ..self@ }),
    {
        Todo { checked: self.checked, id: self.id, value }
    }
}

impl std::convert::TryFrom<Todo> for super::Todo {
    type Error = String;

    fn try_from(value: Todo) -> (r: Result<Self, String>)
        ensures
            match built_todo(value@) {
                Ok(todo) => r matches Ok(made) && made@ == todo,
                Err(reason) => r matches Err(given) && given@ == reason,
            },
    {
        let checked = match value.checked {
            Ok(checked) => checked,
            Err(reason) => {
                return Err(reason);
            },
        };
        let id = match value.id {
            Ok(id) => id,
            Err(reason) => {
                return Err(reason);
            },
        };
        let value = match value.value {
            Ok(value) => value,
            Err(reason) => {
                return Err(reason);
            },
        };
        Ok(Self { checked, id, value })
    }
}

impl TryFromSpecImpl<Todo> for super::Todo {
    open spec fn obeys_try_from_spec() -> bool {
        true
    }

    closed spec fn try_from_spec(value: Todo) -> Result<Self, String> {
        match value.checked {
            Err(reason) => Err(reason),
            Ok(checked) => match value.id {
                Err(reason) => Err(reason),
                Ok(id) => match value.value {
                    Err(reason) => Err(reason),
                    Ok(value) => Ok(super::Todo { checked, id, value }),
                },
            },
        }
    }
}

/// What converting a builder into a todo gives, as the conversion traits
/// see it: the todo that the builder makes, or the reason why it makes none.
pub proof fn lemma_todo_conversion(builder: Todo)
    ensures
        match built_todo(builder@) {
            Ok(todo) => <super::Todo as TryFromSpec<Todo>>::try_from_spec(builder) matches Ok(
                made,
            ) && made@ == todo,
            Err(reason) => <super::Todo as TryFromSpec<Todo>>::try_from_spec(
                builder,
            ) matches Err(given) && given@ == reason,
        },
{
}

impl From<super::Todo> for Todo {
    fn from(value: super::Todo) -> (r: Self)
        ensures
            r@ == draft_of_todo(value@),
    {
        Self { checked: Ok(value.checked), id: Ok(value.id), value: Ok(value.value) }
    }
}

impl FromSpecImpl<super::Todo> for Todo {
    open spec fn obeys_from_spec() -> bool {
        true
    }

    closed spec fn from_spec(value: super::Todo) -> Self {
        Self { checked: Ok(value.checked), id: Ok(value.id), value: Ok(value.value) }
    }
}

/// Builder of a [`super::TodoUpdateRequest`].
#[derive(Debug)]
pub struct TodoUpdateRequest {
    checked: Result<Option<bool>, String>,
    value: Result<Option<String>, String>,
}

/// What a builder of an update holds.
pub struct UpdateDraft {
    pub checked: Result<Option<bool>, Seq<char>>,
    pub value: Result<Option<Seq<char>>, Seq<char>>,
}

/// The builder of the update that changes nothing.
pub open spec fn empty_update() -> UpdateDraft {
    UpdateDraft { checked: Ok(None), value: Ok(None) }
}

/// The update that a builder makes: its two fields, or the reason of the
/// first field that holds none.
pub open spec fn built_update(draft: UpdateDraft) -> Result<
    super::TodoUpdateRequestView,
    Seq<char>,
> {
    match draft.checked {
        Err(reason) => Err(reason),
        Ok(checked) => match draft.value {
            Err(reason) => Err(reason),
            Ok(value) => Ok(super::TodoUpdateRequestView { checked, value }),
        },
    }
}

/// The builder that holds the two fields of an update.
pub open spec fn draft_of_update(update: super::TodoUpdateRequestView) -> UpdateDraft {
    UpdateDraft { checked: Ok(update.checked), value: Ok(update.value) }
}

impl View for TodoUpdateRequest {
    type V = UpdateDraft;

    closed spec fn view(&self) -> UpdateDraft {
        UpdateDraft {
            checked: field_view(self.checked),
            value: optional_text_field_view(self.value),
        }
    }
}

impl Clone for TodoUpdateRequest {
    fn clone(&self) -> (r: Self)
        ensures
            r == *self,
    {
        let checked = match &self.checked {
            Ok(value) => Ok(*value),
            Err(reason) => Err(reason.clone()),
        };
        let value = match &self.value {
            Ok(Some(value)) => Ok(Some(value.clone())),
            Ok(None) => Ok(None),
            Err(reason) => Err(reason.clone()),
        };
        TodoUpdateRequest { checked, value }
    }
}

impl Default for TodoUpdateRequest {
    fn default() -> (r: Self)
        ensures
            r@ == empty_update(),
    {
        Self { checked: Ok(None), value: Ok(None) }
    }
}

impl TodoUpdateRequest {
    /// Supplies `checked` with what `value` converts to.
    pub fn checked<T>(self, value: T) -> (r: Self) where
        T: std::convert::TryInto<Option<bool>>,
        T::Error: std::fmt::Display,

        ensures
            r@.value == self@.value,
            r@.checked matches Err(reason) ==> is_conversion_failure("checked"@, reason),
            T::obeys_try_into_spec() ==> match value.try_into_spec() {
                Ok(converted) => r@.checked == Ok::<Option<bool>, Seq<char>>(converted),
                Err(_) => r@.checked is Err,
            },
    {
        let outcome = value.try_into();
        self.with_checked(converted("checked", outcome))
    }

    /// Supplies `value` with what `value` converts to.
    pub fn value<T>(self, value: T) -> (r: Self) where
        T: std::convert::TryInto<Option<String>>,
        T::Error: std::fmt::Display,

        ensures
            r@.checked == self@.checked,
            r@.value matches Err(reason) ==> is_conversion_failure("value"@, reason),
            T::obeys_try_into_spec() ==> match value.try_into_spec() {
                Ok(converted) => r@.value == Ok::<Option<Seq<char>>, Seq<char>>(
                    super::optional_text(converted),
                ),
                Err(_) => r@.value is Err,
            },
    {
        let outcome = value.try_into();
        self.with_value(converted("value", outcome))
    }

    /// Puts `checked` in its field: a value, none, or the reason why it is
    /// unknown.
    pub fn with_checked(self, checked: Result<Option<bool>, String>) -> (r: Self)
        ensures
            r@ == (UpdateDraft { checked: field_view(checked), ..self@ }),
    {
        TodoUpdateRequest { checked, value: self.value }
    }

    /// Puts `value` in its field: a value, none, or the reason why it is
    /// unknown.
    pub fn with_value(self, value: Result<Option<String>, String>) -> (r: Self)
        ensures
            r@ == (UpdateDraft { value: optional_text_field_view(value), ..self@ }),
    {
        TodoUpdateRequest { checked: self.checked, value }
    }
}

impl std::convert::TryFrom<TodoUpdateRequest> for super::TodoUpdateRequest {
    type Error = String;

    fn try_from(value: TodoUpdateRequest) -> (r: Result<Self, String>)
        ensures
            match built_update(value@) {
                Ok(update) => r matches Ok(made) && made@ == update,
                Err(reason) => r matches Err(given) && given@ == reason,
            },
    {
        let checked = match value.checked {
            Ok(checked) => checked,
            Err(reason) => {
                return Err(reason);
            },
        };
        let value = match value.value {
            Ok(value) => value,
            Err(reason) => {
                return Err(reason);
            },
        };
        Ok(Self { checked, value })
    }
}

impl TryFromSpecImpl<TodoUpdateRequest> for super::TodoUpdateRequest {
    open spec fn obeys_try_from_spec() -> bool {
        true
    }

    closed spec fn try_from_spec(value: TodoUpdateRequest) -> Result<Self, String> {
        match value.checked {
            Err(reason) => Err(reason),
            Ok(checked) => match value.value {
                Err(reason) => Err(reason),
                Ok(value) => Ok(super::TodoUpdateRequest { checked, value }),
            },
        }
    }
}

/// What converting a builder into an update gives, as the conversion
/// traits see it: the update that the builder makes, or the reason why it
/// makes none.
pub proof fn lemma_update_conversion(builder: TodoUpdateRequest)
    ensures
        match built_update(builder@) {
            Ok(update) => <super::TodoUpdateRequest as TryFromSpec<
                TodoUpdateRequest,
            >>::try_from_spec(builder) matches Ok(made) && made@ == update,
            Err(reason) => <super::TodoUpdateRequest as TryFromSpec<
                TodoUpdateRequest,
            >>::try_from_spec(builder) matches Err(given) && given@ == reason,
        },
{
}

impl From<super::TodoUpdateRequest> for TodoUpdateRequest {
    fn from(value: super::TodoUpdateRequest) -> (r: Self)
        ensures
            r@ == draft_of_update(value@),
    {
        Self { checked: Ok(value.checked), value: Ok(value.value) }
    }
}

impl FromSpecImpl<super::TodoUpdateRequest> for TodoUpdateRequest {
    open spec fn obeys_from_spec() -> bool {
        true
    }

    closed spec fn from_spec(value: super::TodoUpdateRequest) -> Self {
        Self { checked: Ok(value.checked), value: Ok(value.value) }
    }
}

} // verus!
