//! The records as JSON documents: what a request body holds for a record,
//! and which record a response body stands for.

use crate::json::{find, items_view, lemma_view_of_parts, member, members_view};
use crate::json::{Found, Json, JsonView, Member, MemberView};
use crate::text::{decimal, decimal_text, decimal_value, lemma_decimal_read_back, parse_i32};
use crate::types::{ErrorResponse, ErrorResponseView};
use crate::types::{Todo, TodoUpdateRequest, TodoUpdateRequestView, TodoView};
use vstd::prelude::*;
use vstd::string::*;

verus! {

/// The document of a todo: an object of its three fields.
pub open spec fn todo_json(todo: TodoView) -> JsonView {
    JsonView::Object(
        seq![
            MemberView { name: "checked"@, value: JsonView::Bool(todo.checked) },
            MemberView { name: "id"@, value: JsonView::Number(decimal(todo.id as int)) },
            MemberView { name: "value"@, value: JsonView::Text(todo.value) },
        ],
    )
}

/// The member that an update has for `checked`, if it has one.
pub open spec fn checked_members(checked: Option<bool>) -> Seq<MemberView> {
    match checked {
        Some(flag) => seq![MemberView { name: "checked"@, value: JsonView::Bool(flag) }],
        None => Seq::empty(),
    }
}

/// The member that an update has for `value`, if it has one.
pub open spec fn value_members(value: Option<Seq<char>>) -> Seq<MemberView> {
    match value {
        Some(text) => seq![MemberView { name: "value"@, value: JsonView::Text(text) }],
        None => Seq::empty(),
    }
}

/// The document of an update: an object of the fields that are present.
/// An absent field has no member.
pub open spec fn update_json(update: TodoUpdateRequestView) -> JsonView {
    JsonView::Object(checked_members(update.checked) + value_members(update.value))
}

/// The 32-bit integer that a JSON number is, if it is one.
pub open spec fn id_of_number(literal: Seq<char>) -> Option<i32> {
    match decimal_value(literal) {
        Some(i) => if i32::MIN <= i <= i32::MAX {
            Some(i as i32)
        } else {
            None
        },
        None => None,
    }
}

/// The todo of the three values `checked`, `id` and `value`, where each is
/// of the kind that its field takes.
pub open spec fn todo_of_parts(checked: JsonView, id: JsonView, value: JsonView) -> Option<
    TodoView,
> {
    match checked {
        JsonView::Bool(flag) => match id {
            JsonView::Number(literal) => match value {
                JsonView::Text(text) => match id_of_number(literal) {
                    Some(number) => Some(TodoView { checked: flag, id: number, value: text }),
                    None => None,
                },
                _ => None,
            },
            _ => None,
        },
        _ => None,
    }
}

/// The todo that a document stands for. An object stands for one where each
/// of `checked`, `id` and `value` is the name of exactly one member, of the
/// kind that the field takes; members of other names do not count. An array
/// stands for one where it holds the three values in that order and no more.
pub open spec fn todo_of_json(j: JsonView) -> Option<TodoView> {
    match j {
        JsonView::Object(members) => match member(members, "checked"@) {
            Found::Once(checked) => match member(members, "id"@) {
                Found::Once(id) => match member(members, "value"@) {
                    Found::Once(value) => todo_of_parts(checked, id, value),
                    _ => None,
                },
                _ => None,
            },
            _ => None,
        },
        JsonView::Array(items) => if items.len() == 3 {
            todo_of_parts(items[0], items[1], items[2])
        } else {
            None
        },
        _ => None,
    }
}

/// The todos that a document stands for: it is an array, and each of its
/// items stands for a todo.
pub open spec fn todos_of_json(j: JsonView) -> Option<Seq<TodoView>> {
    match j {
        JsonView::Array(items) => if forall|k: int|
            0 <= k < items.len() ==> (#[trigger] todo_of_json(items[k])) is Some {
            Some(Seq::new(items.len(), |k: int| todo_of_json(items[k])->Some_0))
        } else {
            None
        },
        _ => None,
    }
}

/// The error that a document stands for: it is an object of one member,
/// whose name is the kind of the error and whose value is the message.
pub open spec fn error_of_json(j: JsonView) -> Option<ErrorResponseView> {
    match j {
        JsonView::Object(members) => if members.len() == 1 {
            match members[0].value {
                JsonView::Text(message) => if members[0].name == "NotFound"@ {
                    Some(ErrorResponseView::NotFound(message))
                } else if members[0].name == "Conflict"@ {
                    Some(ErrorResponseView::Conflict(message))
                } else if members[0].name == "Unauthorized"@ {
                    Some(ErrorResponseView::Unauthorized(message))
                } else {
                    None
                },
                _ => None,
            }
        } else {
            None
        },
        _ => None,
    }
}

/// What a list of todos holds.
pub open spec fn todos_view(todos: Seq<Todo>) -> Seq<TodoView> {
    Seq::new(todos.len(), |k: int| todos[k]@)
}

/// The three names of the fields of a todo differ from each other.
proof fn lemma_field_names_differ()
    ensures
        "checked"@ != "id"@,
        "checked"@ != "value"@,
        "id"@ != "value"@,
{
    reveal_strlit("checked");
    reveal_strlit("id");
    reveal_strlit("value");
    assert("id"@.len() == 2);
    assert("value"@.len() == 5);
}

/// A todo is the todo that its own document stands for.
pub proof fn lemma_todo_round_trip(todo: TodoView)
    ensures
        todo_of_json(todo_json(todo)) == Some(todo),
{
    lemma_field_names_differ();
    lemma_decimal_read_back(todo.id as int);
    let members = todo_json(todo)->Object_0;
    let first = members.take(1);
    let second = members.take(2);
    assert(second.drop_last() =~= first);
    assert(member(first.drop_last(), "checked"@) == Found::<JsonView>::Missing);
    assert(member(first.drop_last(), "id"@) == Found::<JsonView>::Missing);
    assert(member(first.drop_last(), "value"@) == Found::<JsonView>::Missing);
    assert(member(first, "checked"@) == Found::Once(JsonView::Bool(todo.checked)));
    assert(member(first, "id"@) == Found::<JsonView>::Missing);
    assert(member(first, "value"@) == Found::<JsonView>::Missing);
    assert(member(second, "checked"@) == Found::Once(JsonView::Bool(todo.checked)));
    assert(member(second, "id"@) == Found::Once(JsonView::Number(decimal(todo.id as int))));
    assert(member(second, "value"@) == Found::<JsonView>::Missing);
}

/// The document of an update has a member for a field exactly where the
/// field is present: an absent field is left out, not written as null.
pub proof fn lemma_update_members(update: TodoUpdateRequestView)
    ensures
        update_json(update) is Object,
        member(update_json(update)->Object_0, "checked"@) == match update.checked {
            Some(flag) => Found::Once(JsonView::Bool(flag)),
            None => Found::Missing,
        },
        member(update_json(update)->Object_0, "value"@) == match update.value {
            Some(text) => Found::Once(JsonView::Text(text)),
            None => Found::Missing,
        },
        update_json(update)->Object_0.len() == (if update.checked is Some {
            1int
        } else {
            0int
        }) + (if update.value is Some {
            1int
        } else {
            0int
        }),
{
    lemma_field_names_differ();
    let members = update_json(update)->Object_0;
    let none = Seq::<MemberView>::empty();
    assert(member(none, "checked"@) == Found::<JsonView>::Missing);
    assert(member(none, "value"@) == Found::<JsonView>::Missing);
    match (update.checked, update.value) {
        (None, None) => {},
        (Some(_), None) | (None, Some(_)) => {
            assert(members.drop_last() =~= none);
        },
        (Some(flag), Some(_)) => {
            let first = members.drop_last();
            assert(first.drop_last() =~= none);
            assert(member(first, "checked"@) == Found::Once(JsonView::Bool(flag)));
            assert(member(first, "value"@) == Found::<JsonView>::Missing);
        },
    }
}

impl Todo {
    /// The document that a request carries for this todo.
    pub fn to_json(&self) -> (j: Json)
        ensures
            j@ == todo_json(self@),
    {
        let mut members: Vec<Member> = Vec::new();
        members.push(Member { name: String::from_str("checked"), value: Json::Bool(self.checked) });
        members.push(
            Member { name: String::from_str("id"), value: Json::Number(decimal_text(self.id)) },
        );
        members.push(
            Member { name: String::from_str("value"), value: Json::Text(self.value.clone()) },
        );
        let j = Json::Object(members);
        proof {
            lemma_view_of_parts(j);
            assert(members_view(members@) =~= todo_json(self@)->Object_0);
        }
        j
    }

    /// The todo that a document stands for, if it stands for one.
    pub fn from_json(j: &Json) -> (r: Option<Todo>)
        ensures
            match todo_of_json(j@) {
                Some(todo) => r matches Some(read) && read@ == todo,
                None => r is None,
            },
    {
        proof {
            lemma_view_of_parts(*j);
        }
        match j {
            Json::Object(members) => {
                let checked = match find(members, "checked") {
                    Found::Once(checked) => checked,
                    _ => {
                        return None;
                    },
                };
                let id = match find(members, "id") {
                    Found::Once(id) => id,
                    _ => {
                        return None;
                    },
                };
                let value = match find(members, "value") {
                    Found::Once(value) => value,
                    _ => {
                        return None;
                    },
                };
                todo_from_parts(checked, id, value)
            },
            Json::Array(items) => {
                if items.len() == 3 {
                    todo_from_parts(&items[0], &items[1], &items[2])
                } else {
                    None
                }
            },
            _ => None,
        }
    }
}

/// The todo of three values, if each is of the kind that its field takes.
fn todo_from_parts(checked: &Json, id: &Json, value: &Json) -> (r: Option<Todo>)
    ensures
        match todo_of_parts(checked@, id@, value@) {
            Some(todo) => r matches Some(read) && read@ == todo,
            None => r is None,
        },
{
    let flag = match checked {
        Json::Bool(flag) => *flag,
        _ => {
            return None;
        },
    };
    let literal = match id {
        Json::Number(literal) => literal,
        _ => {
            return None;
        },
    };
    let text = match value {
        Json::Text(text) => text,
        _ => {
            return None;
        },
    };
    match parse_i32(literal.as_str()) {
        Some(number) => Some(Todo { checked: flag, id: number, value: text.clone() }),
        None => None,
    }
}

/// The todos that a document stands for, if it is a list of todos.
pub fn todos_from_json(j: &Json) -> (r: Option<Vec<Todo>>)
    ensures
        match todos_of_json(j@) {
            Some(todos) => r matches Some(read) && todos_view(read@) == todos,
            None => r is None,
        },
{
    proof {
        lemma_view_of_parts(*j);
    }
    let items = match j {
        Json::Array(items) => items,
        _ => {
            return None;
        },
    };
    let mut todos: Vec<Todo> = Vec::new();
    let mut k: usize = 0;
    while k < items.len()
        invariant
            k <= items@.len(),
            j@ == JsonView::Array(items_view(items@)),
            todos@.len() == k,
            forall|n: int|
                0 <= n < k ==> todo_of_json(#[trigger] items_view(items@)[n]) == Some(todos@[n]@),
        decreases items@.len() - k,
    {
        match Todo::from_json(&items[k]) {
            Some(todo) => {
                todos.push(todo);
            },
            None => {
                assert(todo_of_json(items_view(items@)[k as int]) is None);
                return None;
            },
        }
        k = k + 1;
    }
    Some(todos)
}

impl TodoUpdateRequest {
    /// The document that a request carries for this update.
    pub fn to_json(&self) -> (j: Json)
        ensures
            j@ == update_json(self@),
    {
        let mut members: Vec<Member> = Vec::new();
        match self.checked {
            Some(flag) => {
                members.push(Member { name: String::from_str("checked"), value: Json::Bool(flag) });
            },
            None => {},
        }
        match &self.value {
            Some(text) => {
                members.push(
                    Member { name: String::from_str("value"), value: Json::Text(text.clone()) },
                );
            },
            None => {},
        }
        let j = Json::Object(members);
        proof {
            lemma_view_of_parts(j);
            assert(members_view(members@) =~= update_json(self@)->Object_0);
        }
        j
    }
}

impl ErrorResponse {
    /// The error that a document stands for, if it stands for one.
    pub fn from_json(j: &Json) -> (r: Option<ErrorResponse>)
        ensures
            match error_of_json(j@) {
                Some(error) => r matches Some(read) && read@ == error,
                None => r is None,
            },
    {
        proof {
            lemma_view_of_parts(*j);
        }
        let members = match j {
            Json::Object(members) => members,
            _ => {
                return None;
            },
        };
        if members.len() != 1 {
            return None;
        }
        let only = &members[0];
        let message = match &only.value {
            Json::Text(message) => message,
            _ => {
                return None;
            },
        };
        if only.name == String::from_str("NotFound") {
            Some(ErrorResponse::NotFound(message.clone()))
        } else if only.name == String::from_str("Conflict") {
            Some(ErrorResponse::Conflict(message.clone()))
        } else if only.name == String::from_str("Unauthorized") {
            Some(ErrorResponse::Unauthorized(message.clone()))
        } else {
            None
        }
    }
}

} // verus!
