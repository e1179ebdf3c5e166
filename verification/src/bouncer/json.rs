//! JSON values as the bouncer reads them from model replies.
use vstd::prelude::*;

use crate::text::{chars_eq, str_chars};

verus! {

/// A JSON value. Numbers keep their text; objects keep their members in order.
#[derive(Debug)]
pub enum JsonValue {
    Null,
    Bool(bool),
    Number(String),
    String(String),
    Array(Vec<JsonValue>),
    Object(Vec<(String, JsonValue)>),
}

/// The mathematical value of a JSON value: its texts as character
/// sequences.
pub ghost enum JsonView {
    Null,
    Bool(bool),
    Number(Seq<char>),
    String(Seq<char>),
    Array(Seq<JsonView>),
    Object(Seq<(Seq<char>, JsonView)>),
}

/// The view of a JSON value.
pub open spec fn json_view(v: JsonValue) -> JsonView
    decreases v,
{
    match v {
        JsonValue::Null => JsonView::Null,
        JsonValue::Bool(b) => JsonView::Bool(b),
        JsonValue::Number(n) => JsonView::Number(n@),
        JsonValue::String(s) => JsonView::String(s@),
        JsonValue::Array(items) => JsonView::Array(
            Seq::new(
                items@.len(),
                |i: int|
                    if 0 <= i < items@.len() {
                        json_view(items@[i])
                    } else {
                        JsonView::Null
                    },
            ),
        ),
        JsonValue::Object(members) => JsonView::Object(
            Seq::new(
                members@.len(),
                |i: int|
                    if 0 <= i < members@.len() {
                        (members@[i].0@, json_view(members@[i].1))
                    } else {
                        (Seq::empty(), JsonView::Null)
                    },
            ),
        ),
    }
}

/// The first member of `members` named `key`, from position `i` on.
pub open spec fn member_from(members: Seq<(String, JsonValue)>, key: Seq<char>, i: int) -> Option<
    JsonValue,
>
    decreases members.len() - i,
{
    if i < 0 || i >= members.len() {
        None
    } else if members[i].0@ == key {
        Some(members[i].1)
    } else {
        member_from(members, key, i + 1)
    }
}

/// `v[key]`: the member named `key` of an object, `null` when there is none
/// or `v` is not an object (as indexing a `serde_json::Value` with a string).
pub open spec fn json_get(v: JsonValue, key: Seq<char>) -> JsonValue {
    match v {
        JsonValue::Object(members) => match member_from(members@, key, 0) {
            Some(x) => x,
            None => JsonValue::Null,
        },
        _ => JsonValue::Null,
    }
}

/// The first member named `key` in `members`, from position `i` on.
fn find_member(members: &Vec<(String, JsonValue)>, key: &[char], i: usize) -> (r: Option<usize>)
    requires
        i <= members@.len(),
    ensures
        match r {
            Some(j) => j < members@.len() && member_from(members@, key@, i as int) == Some(
                members@[j as int].1,
            ),
            None => member_from(members@, key@, i as int) is None,
        },
    decreases members@.len() - i,
{
    if i == members.len() {
        return None;
    }
    let name = str_chars(members[i].0.as_str());
    if chars_eq(&name, key) {
        Some(i)
    } else {
        find_member(members, key, i + 1)
    }
}

/// The first member named `key` of an object's members.
pub fn get_member<'a>(members: &'a Vec<(String, JsonValue)>, key: &str) -> (r: Option<&'a JsonValue>)
    ensures
        r matches Some(x) ==> member_from(members@, key@, 0) == Some(*x),
        r is None ==> member_from(members@, key@, 0) is None,
{
    let k = str_chars(key);
    match find_member(members, &k, 0) {
        Some(j) => Some(&members[j].1),
        None => None,
    }
}

impl JsonValue {
    /// `self[key]` (see [`json_get`]); `None` stands for `null`.
    pub fn get(&self, key: &str) -> (r: Option<&JsonValue>)
        ensures
            r matches Some(x) ==> *x == json_get(*self, key@),
            r is None ==> json_get(*self, key@) == JsonValue::Null,
    {
        match self {
            JsonValue::Object(members) => {
                let k = str_chars(key);
                match find_member(members, &k, 0) {
                    Some(j) => Some(&members[j].1),
                    None => None,
                }
            },
            _ => None,
        }
    }

    /// Whether the value is an object.
    pub fn is_object(&self) -> (r: bool)
        ensures
            r == (*self is Object),
    {
        match self {
            JsonValue::Object(_) => true,
            _ => false,
        }
    }

    /// The boolean, if the value is one.
    pub fn as_bool(&self) -> (r: Option<bool>)
        ensures
            r == (match *self {
                JsonValue::Bool(b) => Some(b),
                _ => None,
            }),
    {
        match self {
            JsonValue::Bool(b) => Some(*b),
            _ => None,
        }
    }

    /// Whether the value is a string with the characters `s`.
    pub fn is_str(&self, s: &str) -> (r: bool)
        ensures
            r == (*self matches JsonValue::String(t) && t@ == s@),
    {
        match self {
            JsonValue::String(t) => {
                let a = str_chars(t.as_str());
                let b = str_chars(s);
                chars_eq(&a, &b)
            },
            _ => false,
        }
    }
}

} // verus!
