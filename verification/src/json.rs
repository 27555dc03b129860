//! JSON documents as values of the library.
//!
//! `serde_json` parses the text; what it hands back is copied, node for node, into
//! [`Json`], on which the library's own reading of a document is verified.

use crate::text::same_text;
use vstd::prelude::*;

verus! {

/// A JSON value.
#[derive(Debug, PartialEq, Eq)]
pub enum Json {
    Null,
    Bool(bool),
    /// A number, held as the decimal text that `serde_json` prints for it.
    Number(String),
    Text(String),
    Array(Vec<Json>),
    /// An object: its members in the order in which the parser holds them.
    Object(Vec<Member>),
}

/// One member of a JSON object.
#[derive(Debug, PartialEq, Eq)]
pub struct Member {
    pub key: String,
    pub value: Json,
}

/// Whether `i` is the place of the first member of `members` whose key is `key`.
pub open spec fn is_first_with_key(members: Seq<Member>, key: Seq<char>, i: int) -> bool {
    &&& 0 <= i < members.len()
    &&& members[i].key@ == key
    &&& forall|j: int| 0 <= j < i ==> members[j].key@ != key
}

/// The place of the first member of `members` whose key is `key`.
pub open spec fn first_with_key(members: Seq<Member>, key: Seq<char>) -> Option<int> {
    if exists|i: int| is_first_with_key(members, key, i) {
        Some(choose|i: int| is_first_with_key(members, key, i))
    } else {
        None
    }
}

/// The first place with the key is the only one that [`first_with_key`] can name.
pub proof fn lemma_first_with_key(members: Seq<Member>, key: Seq<char>, i: int)
    requires
        is_first_with_key(members, key, i),
    ensures
        first_with_key(members, key) == Some(i),
{
    let c = choose|c: int| is_first_with_key(members, key, c);
    assert(is_first_with_key(members, key, c));
    if c < i {
        assert(members[c].key@ != key);
    } else if i < c {
        assert(members[i].key@ != key);
    }
}

/// Where no member has the key, [`first_with_key`] names none.
pub proof fn lemma_no_member_with_key(members: Seq<Member>, key: Seq<char>)
    requires
        forall|j: int| 0 <= j < members.len() ==> members[j].key@ != key,
    ensures
        first_with_key(members, key) is None,
{
}

impl Json {
    /// Parses JSON text. A text that `serde_json` rejects gives `None`.
    pub fn parse(text: &str) -> (r: Option<Json>)
        ensures
            r == json_document(text@),
    {
        match parse_json(text) {
            Ok(document) => Some(document),
            Err(_) => None,
        }
    }

    /// The value of the first member named `key`, where `self` is an object that
    /// has such a member.
    pub open spec fn member_of(self, key: Seq<char>) -> Option<Json> {
        match self {
            Json::Object(members) => match first_with_key(members@, key) {
                Some(i) => Some(members@[i].value),
                None => None,
            },
            _ => None,
        }
    }

    /// The characters of `self`, where it is a text.
    pub open spec fn text_of(self) -> Option<Seq<char>> {
        match self {
            Json::Text(text) => Some(text@),
            _ => None,
        }
    }

    /// The items of `self`, where it is an array.
    pub open spec fn items_of(self) -> Option<Seq<Json>> {
        match self {
            Json::Array(items) => Some(items@),
            _ => None,
        }
    }

    /// The characters of the member named `key`, where `self` is an object whose
    /// first member of that name is a text.
    pub open spec fn text_member_of(self, key: Seq<char>) -> Option<Seq<char>> {
        match self.member_of(key) {
            Some(value) => value.text_of(),
            None => None,
        }
    }

    /// The items of the member named `key`, where `self` is an object whose first
    /// member of that name is an array.
    pub open spec fn items_member_of(self, key: Seq<char>) -> Option<Seq<Json>> {
        match self.member_of(key) {
            Some(value) => value.items_of(),
            None => None,
        }
    }

    /// Looks up the member named `key`.
    pub fn member(&self, key: &str) -> (r: Option<&Json>)
        ensures
            match self.member_of(key@) {
                Some(value) => r == Some(&value),
                None => r is None,
            },
    {
        match self {
            Json::Object(members) => {
                let mut i: usize = 0;
                while i < members.len()
                    invariant
                        i <= members.len(),
                        *self == Json::Object(*members),
                        forall|j: int| 0 <= j < i ==> members@[j].key@ != key@,
                    decreases members.len() - i,
                {
                    if same_text(members[i].key.as_str(), key) {
                        proof {
                            lemma_first_with_key(members@, key@, i as int);
                        }
                        return Some(&members[i].value);
                    }
                    i = i + 1;
                }
                proof {
                    lemma_no_member_with_key(members@, key@);
                }
                None
            },
            _ => None,
        }
    }

    /// The text that `self` holds, if it is one.
    pub fn as_text(&self) -> (r: Option<&str>)
        ensures
            match self.text_of() {
                Some(text) => r is Some && r->0@ == text,
                None => r is None,
            },
    {
        match self {
            Json::Text(text) => Some(text.as_str()),
            _ => None,
        }
    }

    /// The items that `self` holds, if it is an array.
    pub fn as_array(&self) -> (r: Option<&Vec<Json>>)
        ensures
            match self.items_of() {
                Some(items) => r is Some && r->0@ == items,
                None => r is None,
            },
    {
        match self {
            Json::Array(items) => Some(items),
            _ => None,
        }
    }

    /// The text of the member named `key`, if there is such a member and it is a text.
    pub fn text_member(&self, key: &str) -> (r: Option<&str>)
        ensures
            match self.text_member_of(key@) {
                Some(text) => r is Some && r->0@ == text,
                None => r is None,
            },
    {
        match self.member(key) {
            Some(value) => value.as_text(),
            None => None,
        }
    }

    /// The items of the member named `key`, if there is such a member and it is an
    /// array.
    pub fn items_member(&self, key: &str) -> (r: Option<&Vec<Json>>)
        ensures
            match self.items_member_of(key@) {
                Some(items) => r is Some && r->0@ == items,
                None => r is None,
            },
    {
        match self.member(key) {
            Some(value) => value.as_array(),
            None => None,
        }
    }
}

/// The document that `serde_json` reads from `text`, or `None` where it rejects
/// the text.
pub uninterp spec fn json_document(text: Seq<char>) -> Option<Json>;

#[verifier::external_type_specification]
#[verifier::external_body]
pub struct ExJsonValue(serde_json::Value);

#[verifier::external_type_specification]
#[verifier::external_body]
pub struct ExJsonError(serde_json::Error);

/// Copies a `serde_json::Value` into a [`Json`]: one variant for each of its six,
/// a number by the text of its `to_string`, the members of an object in the order
/// of its `iter`. Nothing is stated of the copy here; [`parse_json`] names the
/// whole of parsing and copying.
#[verifier::external_body]
fn json_from_value(value: &serde_json::Value) -> Json {
    match value {
        serde_json::Value::Null => Json::Null,
        serde_json::Value::Bool(b) => Json::Bool(*b),
        serde_json::Value::Number(n) => Json::Number(n.to_string()),
        serde_json::Value::String(s) => Json::Text(s.clone()),
        serde_json::Value::Array(items) => Json::Array(items.iter().map(json_from_value).collect()),
        serde_json::Value::Object(map) => Json::Object(
            map.iter().map(|(k, v)| Member { key: k.clone(), value: json_from_value(v) }).collect(),
        ),
    }
}

/// Calls `serde_json::from_str` for a `serde_json::Value`. The contract claims
/// that the outcome depends on `text` alone: the same text is accepted or
/// rejected alike each time, and an accepted text gives the same document.
#[verifier::external_body]
pub(crate) fn parse_json(text: &str) -> (r: Result<Json, serde_json::Error>)
    ensures
        match json_document(text@) {
            Some(document) => r == Ok::<Json, serde_json::Error>(document),
            None => r is Err,
        },
{
    match serde_json::from_str::<serde_json::Value>(text) {
        Ok(value) => Ok(json_from_value(&value)),
        Err(error) => Err(error),
    }
}

/// The message of a `serde_json::Error`, as its `Display` gives it.
#[verifier::external_body]
pub(crate) fn json_error_text(error: &serde_json::Error) -> String {
    error.to_string()
}

} // verus!
