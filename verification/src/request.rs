//! The request of each operation: what has to be put on the wire for it.

use crate::body::{todo_json, update_json};
use crate::json::{Json, JsonView};
use crate::text::{decimal, decimal_text, digits, is_digit, lemma_digits_read_back};
use crate::types::{Todo, TodoUpdateRequest, TodoUpdateRequestView, TodoView};
use crate::Client;
use vstd::prelude::*;
use vstd::string::*;
use vstd::utf8::{char_u32_cast, encode_utf8, is_ascii_chars, is_ascii_chars_encode_utf8};

verus! {

/// The method of a request.
#[derive(Clone, Copy, Debug, PartialEq, Eq, Structural)]
pub enum Method {
    Get,
    Post,
    Put,
    Delete,
}

/// A request, ready for a transport to send.
#[derive(Debug, PartialEq, Eq)]
pub struct Request {
    pub method: Method,
    /// Where the request goes, without its query.
    pub url: String,
    /// The headers, each by name and value.
    pub headers: Vec<(String, String)>,
    /// The parameters of the query, each by name and value, not encoded.
    pub query: Vec<(String, String)>,
    /// The document to send as the body, if there is one.
    pub body: Option<Json>,
}

/// What a [`Request`] holds.
pub struct RequestView {
    pub method: Method,
    pub url: Seq<char>,
    pub headers: Seq<(Seq<char>, Seq<char>)>,
    pub query: Seq<(Seq<char>, Seq<char>)>,
    pub body: Option<JsonView>,
}

/// What a list of names and values holds.
pub open spec fn pairs_view(pairs: Seq<(String, String)>) -> Seq<(Seq<char>, Seq<char>)> {
    Seq::new(pairs.len(), |k: int| (pairs[k].0@, pairs[k].1@))
}

/// What an optional document holds.
pub open spec fn optional_json(body: Option<Json>) -> Option<JsonView> {
    match body {
        Some(j) => Some(j@),
        None => None,
    }
}

impl View for Request {
    type V = RequestView;

    open spec fn view(&self) -> RequestView {
        RequestView {
            method: self.method,
            url: self.url@,
            headers: pairs_view(self.headers@),
            query: pairs_view(self.query@),
            body: optional_json(self.body),
        }
    }
}

/// The digit of `d` in base sixteen, in upper case.
pub open spec fn hex_char(d: int) -> char {
    if d == 0 {
        '0'
    } else if d == 1 {
        '1'
    } else if d == 2 {
        '2'
    } else if d == 3 {
        '3'
    } else if d == 4 {
        '4'
    } else if d == 5 {
        '5'
    } else if d == 6 {
        '6'
    } else if d == 7 {
        '7'
    } else if d == 8 {
        '8'
    } else if d == 9 {
        '9'
    } else if d == 10 {
        'A'
    } else if d == 11 {
        'B'
    } else if d == 12 {
        'C'
    } else if d == 13 {
        'D'
    } else if d == 14 {
        'E'
    } else {
        'F'
    }
}

/// A byte that stands in a path segment as it is: a printable ASCII
/// character other than the space and `"`, `#`, `%`, `/`, `<`, `>`, `?`,
/// `` ` ``, `{` and `}`.
pub open spec fn is_kept(byte: u8) -> bool {
    &&& 0x21 <= byte <= 0x7e
    &&& byte != 0x22
    &&& byte != 0x23
    &&& byte != 0x25
    &&& byte != 0x2f
    &&& byte != 0x3c
    &&& byte != 0x3e
    &&& byte != 0x3f
    &&& byte != 0x60
    &&& byte != 0x7b
    &&& byte != 0x7d
}

/// One byte in a path segment: itself, or `%` and its two digits in base
/// sixteen.
pub open spec fn encoded_byte(byte: u8) -> Seq<char> {
    if is_kept(byte) {
        seq![byte as char]
    } else {
        seq!['%', hex_char(byte as int / 16), hex_char(byte as int % 16)]
    }
}

/// A run of bytes in a path segment, byte by byte.
pub open spec fn encoded_bytes(bytes: Seq<u8>) -> Seq<char>
    decreases bytes.len(),
{
    if bytes.len() == 0 {
        Seq::empty()
    } else {
        encoded_bytes(bytes.drop_last()) + encoded_byte(bytes.last())
    }
}

/// A text as a path segment: the bytes of its UTF-8 form, percent-encoded.
pub open spec fn path_encoded(raw: Seq<char>) -> Seq<char> {
    encoded_bytes(encode_utf8(raw))
}

/// Percent-encodes a text for use as one segment of a path.
///
/// Calls `progenitor_client::encode_path`, which hands the UTF-8 bytes of
/// the text to `percent_encoding::utf8_percent_encode` with the set of the
/// C0 controls, DEL, the space and `"`, `#`, `<`, `>`, `?`, `` ` ``, `{`,
/// `}`, `/`, `%`. That every byte outside ASCII and every byte of the set
/// comes out as `%` and two upper-case digits, and every other byte as
/// itself, is taken from that crate's source and not proved here.
#[verifier::external_body]
fn encode_path(raw: &str) -> (r: String)
    ensures
        r@ == path_encoded(raw@),
{
    progenitor_client::encode_path(raw)
}

/// A character that stands in a path segment as it is.
pub open spec fn is_kept_char(c: char) -> bool {
    (c as u32) < 128 && is_kept(c as u8)
}

proof fn lemma_kept_bytes(bytes: Seq<u8>, chars: Seq<char>)
    requires
        bytes.len() == chars.len(),
        forall|k: int| 0 <= k < chars.len() ==> is_kept_char(#[trigger] chars[k]),
        forall|k: int| 0 <= k < chars.len() ==> chars[k] as u8 == #[trigger] bytes[k],
    ensures
        encoded_bytes(bytes) == chars,
    decreases bytes.len(),
{
    if bytes.len() > 0 {
        lemma_kept_bytes(bytes.drop_last(), chars.drop_last());
        char_u32_cast(chars.last(), chars.last() as u32);
    }
}

/// A text made of characters that a path segment keeps is its own path
/// segment.
pub proof fn lemma_kept_text_unchanged(raw: Seq<char>)
    requires
        forall|k: int| 0 <= k < raw.len() ==> is_kept_char(#[trigger] raw[k]),
    ensures
        path_encoded(raw) == raw,
{
    assert(is_ascii_chars(raw)) by {
        assert forall|k: int| 0 <= k < raw.len() implies '\0' <= #[trigger] raw[k] <= '\u{7f}' by {
            char_u32_cast(raw[k], raw[k] as u32);
        }
    }
    is_ascii_chars_encode_utf8(raw);
    lemma_kept_bytes(encode_utf8(raw), raw);
}

/// Percent-encoding leaves the decimal text of an integer as it is: no
/// character of it has to be encoded.
pub proof fn lemma_decimal_path_unchanged(i: int)
    ensures
        path_encoded(decimal(i)) == decimal(i),
{
    let text = decimal(i);
    let n: nat = if i < 0 {
        (-i) as nat
    } else {
        i as nat
    };
    lemma_digits_read_back(n);
    assert forall|k: int| 0 <= k < text.len() implies is_kept_char(#[trigger] text[k]) by {
        if i >= 0 {
            assert(is_digit(digits(n)[k]));
        } else if k > 0 {
            assert(is_digit(digits(n)[k - 1]));
        }
    }
    lemma_kept_text_unchanged(text);
}

/// Where the todos are, under the base URL `base`.
pub open spec fn collection_url(base: Seq<char>) -> Seq<char> {
    base + "/todo"@
}

/// Where todos are searched for, under the base URL `base`.
pub open spec fn search_url(base: Seq<char>) -> Seq<char> {
    base + "/todo/search"@
}

/// Where the todo of the id `id` is, under the base URL `base`: the id is
/// one segment of the path, percent-encoded.
pub open spec fn item_url(base: Seq<char>, id: Seq<char>) -> Seq<char> {
    base + "/todo/"@ + path_encoded(id)
}

/// The headers of a request: it accepts JSON, and says of its body, where
/// it has one, that it is JSON.
pub open spec fn headers_of(has_body: bool) -> Seq<(Seq<char>, Seq<char>)> {
    if has_body {
        seq![("accept"@, "application/json"@), ("content-type"@, "application/json"@)]
    } else {
        seq![("accept"@, "application/json"@)]
    }
}

/// The query of a search: the text to look for, under the name `value`,
/// where there is one.
pub open spec fn search_query(value: Option<Seq<char>>) -> Seq<(Seq<char>, Seq<char>)> {
    match value {
        Some(text) => seq![("value"@, text)],
        None => Seq::empty(),
    }
}

/// The request that lists the todos.
pub open spec fn list_request(base: Seq<char>) -> RequestView {
    RequestView {
        method: Method::Get,
        url: collection_url(base),
        headers: headers_of(false),
        query: Seq::empty(),
        body: None,
    }
}

/// The request that creates `todo`.
pub open spec fn create_request(base: Seq<char>, todo: TodoView) -> RequestView {
    RequestView {
        method: Method::Post,
        url: collection_url(base),
        headers: headers_of(true),
        query: Seq::empty(),
        body: Some(todo_json(todo)),
    }
}

/// The request that searches the todos for `value`.
pub open spec fn search_request(base: Seq<char>, value: Option<Seq<char>>) -> RequestView {
    RequestView {
        method: Method::Get,
        url: search_url(base),
        headers: headers_of(false),
        query: search_query(value),
        body: None,
    }
}

/// The request that gets the todo of the id `id`.
pub open spec fn get_by_id_request(base: Seq<char>, id: i32) -> RequestView {
    RequestView {
        method: Method::Get,
        url: item_url(base, decimal(id as int)),
        headers: headers_of(false),
        query: Seq::empty(),
        body: None,
    }
}

/// The request that updates the todo of the id `id` with `update`.
pub open spec fn update_request(
    base: Seq<char>,
    id: i32,
    update: TodoUpdateRequestView,
) -> RequestView {
    RequestView {
        method: Method::Put,
        url: item_url(base, decimal(id as int)),
        headers: headers_of(true),
        query: Seq::empty(),
        body: Some(update_json(update)),
    }
}

/// The request that deletes the todo of the id `id`.
pub open spec fn delete_request(base: Seq<char>, id: i32) -> RequestView {
    RequestView {
        method: Method::Delete,
        url: item_url(base, decimal(id as int)),
        headers: headers_of(false),
        query: Seq::empty(),
        body: None,
    }
}

/// The URL under `baseurl` of the todo whose id is written `id`.
pub fn todo_url(baseurl: &str, id: &str) -> (r: String)
    ensures
        r@ == item_url(baseurl@, id@),
{
    let mut url = String::from_str(baseurl);
    url.append("/todo/");
    let segment = encode_path(id);
    url.append(segment.as_str());
    url
}

fn headers(has_body: bool) -> (r: Vec<(String, String)>)
    ensures
        pairs_view(r@) == headers_of(has_body),
{
    let mut list: Vec<(String, String)> = Vec::new();
    list.push((String::from_str("accept"), String::from_str("application/json")));
    if has_body {
        list.push((String::from_str("content-type"), String::from_str("application/json")));
    }
    list
}

fn no_query() -> (r: Vec<(String, String)>)
    ensures
        pairs_view(r@) == Seq::<(Seq<char>, Seq<char>)>::empty(),
{
    let list: Vec<(String, String)> = Vec::new();
    list
}

impl Client {
    /// The request that lists the todos: `GET` of `/todo`.
    pub fn list(&self) -> (r: Request)
        ensures
            r@ == list_request(self@),
    {
        let mut url = self.baseurl.clone();
        url.append("/todo");
        Request { method: Method::Get, url, headers: headers(false), query: no_query(), body: None }
    }

    /// The request that creates `body`: `POST` of `/todo`, with the todo as
    /// its body.
    pub fn create(&self, body: &Todo) -> (r: Request)
        ensures
            r@ == create_request(self@, body@),
    {
        let mut url = self.baseurl.clone();
        url.append("/todo");
        Request {
            method: Method::Post,
            url,
            headers: headers(true),
            query: no_query(),
            body: Some(body.to_json()),
        }
    }

    /// The request that searches the todos: `GET` of `/todo/search`, with
    /// the text to look for, where there is one, as the parameter `value`
    /// of the query.
    pub fn search(&self, value: Option<&str>) -> (r: Request)
        ensures
            r@ == search_request(
                self@,
                match value {
                    Some(text) => Some(text@),
                    None => None,
                },
            ),
    {
        let mut url = self.baseurl.clone();
        url.append("/todo/search");
        let mut query: Vec<(String, String)> = Vec::new();
        match value {
            Some(text) => {
                query.push((String::from_str("value"), String::from_str(text)));
                assert(pairs_view(query@) =~= search_query(Some(text@)));
            },
            None => {
                assert(pairs_view(query@) =~= search_query(None));
            },
        }
        Request { method: Method::Get, url, headers: headers(false), query, body: None }
    }

    /// The request that gets one todo: `GET` of `/todo/{id}`.
    pub fn get_by_id(&self, id: i32) -> (r: Request)
        ensures
            r@ == get_by_id_request(self@, id),
    {
        let url = todo_url(self.baseurl.as_str(), decimal_text(id).as_str());
        Request { method: Method::Get, url, headers: headers(false), query: no_query(), body: None }
    }

    /// The request that updates one todo: `PUT` of `/todo/{id}`, with the
    /// update as its body.
    pub fn update(&self, id: i32, body: &TodoUpdateRequest) -> (r: Request)
        ensures
            r@ == update_request(self@, id, body@),
    {
        let url = todo_url(self.baseurl.as_str(), decimal_text(id).as_str());
        Request {
            method: Method::Put,
            url,
            headers: headers(true),
            query: no_query(),
            body: Some(body.to_json()),
        }
    }

    /// The request that deletes one todo: `DELETE` of `/todo/{id}`.
    pub fn delete(&self, id: i32) -> (r: Request)
        ensures
            r@ == delete_request(self@, id),
    {
        let url = todo_url(self.baseurl.as_str(), decimal_text(id).as_str());
        Request {
            method: Method::Delete,
            url,
            headers: headers(false),
            query: no_query(),
            body: None,
        }
    }
}

/// The path of a todo holds its id in decimal, as it is: for an id that is
/// an integer, percent-encoding changes nothing.
pub proof fn lemma_item_url_of_integer(base: Seq<char>, id: i32)
    ensures
        item_url(base, decimal(id as int)) == base + "/todo/"@ + decimal(id as int),
{
    lemma_decimal_path_unchanged(id as int);
}

} // verus!
