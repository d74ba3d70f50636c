//! JSON documents: what a request body is made of and what a response body
//! is read from. Turning a document into text and text into a document is
//! the transport's work.

use vstd::prelude::*;
use vstd::string::*;

verus! {

/// A JSON value. A number is kept by its literal text.
#[derive(Debug, PartialEq, Eq)]
pub enum Json {
    Null,
    Bool(bool),
    Number(String),
    Text(String),
    Array(Vec<Json>),
    Object(Vec<Member>),
}

/// One member of a JSON object. An object keeps its members in the order
/// in which they were written, with repeated names.
#[derive(Debug, PartialEq, Eq)]
pub struct Member {
    pub name: String,
    pub value: Json,
}

/// What a [`Member`] holds.
pub struct MemberView {
    pub name: Seq<char>,
    pub value: JsonView,
}

/// What a [`Json`] value holds.
pub enum JsonView {
    Null,
    Bool(bool),
    Number(Seq<char>),
    Text(Seq<char>),
    Array(Seq<JsonView>),
    Object(Seq<MemberView>),
}

impl View for Json {
    type V = JsonView;

    open spec fn view(&self) -> JsonView
        decreases self,
    {
        match self {
            Json::Null => JsonView::Null,
            Json::Bool(b) => JsonView::Bool(*b),
            Json::Number(literal) => JsonView::Number(literal@),
            Json::Text(text) => JsonView::Text(text@),
            Json::Array(items) => JsonView::Array(
                Seq::new(
                    items@.len(),
                    |k: int|
                        if 0 <= k < items@.len() {
                            items@[k]@
                        } else {
                            JsonView::Null
                        },
                ),
            ),
            Json::Object(members) => JsonView::Object(
                Seq::new(
                    members@.len(),
                    |k: int|
                        if 0 <= k < members@.len() {
                            MemberView { name: members@[k].name@, value: members@[k].value@ }
                        } else {
                            MemberView { name: Seq::empty(), value: JsonView::Null }
                        },
                ),
            ),
        }
    }
}

impl View for Member {
    type V = MemberView;

    open spec fn view(&self) -> MemberView {
        MemberView { name: self.name@, value: self.value@ }
    }
}

/// What a list of values holds.
pub open spec fn items_view(items: Seq<Json>) -> Seq<JsonView> {
    Seq::new(items.len(), |k: int| items[k]@)
}

/// What a list of members holds.
pub open spec fn members_view(members: Seq<Member>) -> Seq<MemberView> {
    Seq::new(members.len(), |k: int| members[k]@)
}

/// An array holds its items, an object its members.
pub proof fn lemma_view_of_parts(j: Json)
    ensures
        j matches Json::Array(items) ==> j@ == JsonView::Array(items_view(items@)),
        j matches Json::Object(members) ==> j@ == JsonView::Object(members_view(members@)),
{
    match j {
        Json::Array(items) => {
            assert(j@->Array_0 =~= items_view(items@));
        },
        Json::Object(members) => {
            assert(j@->Object_0 =~= members_view(members@));
        },
        _ => {},
    }
}

/// How often a name occurs among the members of an object, and with what.
#[derive(Debug, PartialEq, Eq)]
pub enum Found<T> {
    Missing,
    Once(T),
    Repeated,
}

/// The member of the name `name` among `members`.
pub open spec fn member(members: Seq<MemberView>, name: Seq<char>) -> Found<JsonView>
    decreases members.len(),
{
    if members.len() == 0 {
        Found::Missing
    } else {
        let before = member(members.drop_last(), name);
        if members.last().name == name {
            match before {
                Found::Missing => Found::Once(members.last().value),
                _ => Found::Repeated,
            }
        } else {
            before
        }
    }
}

/// What a lookup tells: a name is missing where no member has it, found
/// once where exactly one member has it, and repeated where two have it.
pub proof fn lemma_member_counts(members: Seq<MemberView>, name: Seq<char>)
    ensures
        member(members, name) is Missing <==> forall|k: int|
            0 <= k < members.len() ==> (#[trigger] members[k]).name != name,
        member(members, name) matches Found::Once(value) ==> exists|k: int|
            0 <= k < members.len() && (#[trigger] members[k]).name == name && members[k].value
                == value && forall|j: int|
                0 <= j < members.len() && j != k ==> (#[trigger] members[j]).name != name,
        member(members, name) is Repeated <==> exists|j: int, k: int|
            0 <= j < k < members.len() && (#[trigger] members[j]).name == name
                && (#[trigger] members[k]).name == name,
    decreases members.len(),
{
    if members.len() > 0 {
        let before = members.drop_last();
        let last = members.len() - 1;
        lemma_member_counts(before, name);
        assert forall|k: int| 0 <= k < before.len() implies before[k] == members[k] by {}
        match member(before, name) {
            Found::Missing => {
                if members[last].name == name {
                    assert(members[last].name == name && forall|j: int|
                        0 <= j < members.len() && j != last ==> (#[trigger] members[j]).name
                            != name);
                }
                assert forall|j: int, k: int|
                    0 <= j < k < members.len() && (#[trigger] members[j]).name == name implies (
                #[trigger] members[k]).name != name by {
                    assert(before[j].name != name);
                }
            },
            Found::Once(value) => {
                let at = choose|k: int|
                    0 <= k < before.len() && (#[trigger] before[k]).name == name && before[k].value
                        == value && forall|j: int|
                        0 <= j < before.len() && j != k ==> (#[trigger] before[j]).name != name;
                assert(members[at].name == name);
                if members[last].name == name {
                    assert(0 <= at < last < members.len() && members[at].name == name
                        && members[last].name == name);
                } else {
                    assert forall|j: int| 0 <= j < members.len() && j != at implies (
                    #[trigger] members[j]).name != name by {
                        if j < last {
                            assert(before[j].name != name);
                        }
                    }
                    assert forall|j: int, k: int|
                        0 <= j < k < members.len() && (#[trigger] members[j]).name
                            == name implies (#[trigger] members[k]).name != name by {
                        if k < last {
                            assert(before[j].name == name && before[k] == members[k]);
                        }
                    }
                }
            },
            Found::Repeated => {
                let (j, k) = choose|j: int, k: int|
                    0 <= j < k < before.len() && (#[trigger] before[j]).name == name
                        && (#[trigger] before[k]).name == name;
                assert(0 <= j < k < members.len() && members[j].name == name && members[k].name
                    == name);
            },
        }
    }
}

/// Looks `name` up among the members of an object.
pub fn find<'a>(members: &'a Vec<Member>, name: &str) -> (r: Found<&'a Json>)
    ensures
        match member(members_view(members@), name@) {
            Found::Missing => r is Missing,
            Found::Once(value) => r matches Found::Once(j) && j@ == value,
            Found::Repeated => r is Repeated,
        },
{
    let key = String::from_str(name);
    let mut found: Found<&'a Json> = Found::Missing;
    let mut k: usize = 0;
    while k < members.len()
        invariant
            k <= members@.len(),
            key@ == name@,
            match member(members_view(members@).take(k as int), name@) {
                Found::Missing => found is Missing,
                Found::Once(value) => found matches Found::Once(j) && j@ == value,
                Found::Repeated => found is Repeated,
            },
        decreases members@.len() - k,
    {
        let here = &members[k];
        proof {
            let all = members_view(members@);
            assert(all.take(k + 1).drop_last() =~= all.take(k as int));
        }
        if here.name == key {
            found = match found {
                Found::Missing => Found::Once(&here.value),
                _ => Found::Repeated,
            };
        }
        k = k + 1;
    }
    assert(members_view(members@).take(k as int) =~= members_view(members@));
    found
}

} // verus!
