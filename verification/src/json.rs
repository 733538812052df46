//! JSON documents as the exchange parsers read them, and the steps that walk
//! into one: a member of an object, an element of an array, the first value
//! of an object, the text of a string.
use vstd::prelude::*;

verus! {

/// A parsed JSON document.
///
/// Objects keep their members in the order that the parser hands them out
/// (`serde_json` keeps them sorted by key); numbers keep the text that the
/// parser prints for them.
#[derive(Debug)]
pub enum Json {
    Null,
    Bool(bool),
    Number(String),
    Str(String),
    Array(Vec<Json>),
    Object(Vec<(String, Json)>),
}

/// The value of the first member of `members` named `key`.
pub open spec fn member_value(members: Seq<(String, Json)>, key: Seq<char>) -> Option<Json>
    decreases members.len(),
{
    if members.len() == 0 {
        None
    } else if members[0].0@ == key {
        Some(members[0].1)
    } else {
        member_value(members.drop_first(), key)
    }
}

/// `Some` of what `r` points to, or `None`.
pub open spec fn deref_opt(r: Option<&Json>) -> Option<Json> {
    match r {
        Some(j) => Some(*j),
        None => None,
    }
}

impl Json {
    /// The member named `key` of an object; `None` for anything else.
    pub open spec fn member(self, key: Seq<char>) -> Option<Json> {
        match self {
            Json::Object(members) => member_value(members@, key),
            _ => None,
        }
    }

    /// The element at `index` of an array; `None` for anything else.
    pub open spec fn element(self, index: int) -> Option<Json> {
        match self {
            Json::Array(items) => if 0 <= index < items@.len() {
                Some(items@[index])
            } else {
                None
            },
            _ => None,
        }
    }

    /// The value of the first member of a non-empty object.
    pub open spec fn first_value(self) -> Option<Json> {
        match self {
            Json::Object(members) => if members@.len() > 0 {
                Some(members@[0].1)
            } else {
                None
            },
            _ => None,
        }
    }

    /// The text of a string.
    pub open spec fn text(self) -> Option<Seq<char>> {
        match self {
            Json::Str(s) => Some(s@),
            _ => None,
        }
    }

    /// Looks up the member named `key` of an object.
    pub fn get_key(&self, key: &str) -> (r: Option<&Json>)
        ensures
            deref_opt(r) == self.member(key@),
    {
        match self {
            Json::Object(members) => {
                let wanted = String::from_str(key);
                let mut i: usize = 0;
                assert(members@.subrange(0, members@.len() as int) =~= members@);
                while i < members.len()
                    invariant
                        i <= members@.len(),
                        wanted@ == key@,
                        self.member(key@) == member_value(members@, key@),
                        member_value(members@, key@) == member_value(
                            members@.subrange(i as int, members@.len() as int),
                            key@,
                        ),
                    decreases members@.len() - i,
                {
                    let ghost rest = members@.subrange(i as int, members@.len() as int);
                    assert(rest.drop_first() =~= members@.subrange(i + 1, members@.len() as int));
                    assert(rest[0] == members@[i as int]);
                    if members[i].0 == wanted {
                        return Some(&members[i].1);
                    }
                    i = i + 1;
                }
                assert(members@.subrange(i as int, members@.len() as int).len() == 0);
                None
            },
            _ => None,
        }
    }

    /// Looks up the element at `index` of an array.
    pub fn get_index(&self, index: usize) -> (r: Option<&Json>)
        ensures
            deref_opt(r) == self.element(index as int),
    {
        match self {
            Json::Array(items) => {
                if index < items.len() {
                    Some(&items[index])
                } else {
                    None
                }
            },
            _ => None,
        }
    }

    /// The value of the first member of an object.
    pub fn get_first_value(&self) -> (r: Option<&Json>)
        ensures
            deref_opt(r) == self.first_value(),
    {
        match self {
            Json::Object(members) => {
                if members.len() > 0 {
                    Some(&members[0].1)
                } else {
                    None
                }
            },
            _ => None,
        }
    }

    /// The text of a string.
    pub fn as_str(&self) -> (r: Option<&str>)
        ensures
            match r {
                Some(s) => self.text() == Some(s@),
                None => self.text() is None,
            },
    {
        match self {
            Json::Str(s) => Some(s.as_str()),
            _ => None,
        }
    }
}

/// What `serde_json::from_str` makes of `text`, read as a `serde_json::Value`
/// and carried over into a `Json`: `None` where the parser refuses the text.
pub uninterp spec fn json_from_str(text: Seq<char>) -> Option<Json>;

#[verifier::external_type_specification]
#[verifier::external_body]
pub struct ExJsonValue(serde_json::Value);

/// Parses `text` with `serde_json::from_str` into a `serde_json::Value` and
/// carries the document over into a `Json`. The contract names the result
/// and states nothing of its shape: which texts are JSON, and what document
/// each one holds, is the parser's.
#[verifier::external_body]
pub(crate) fn parse_json(text: &str) -> (r: Option<Json>)
    ensures
        r == json_from_str(text@),
{
    match serde_json::from_str::<serde_json::Value>(text) {
        Ok(value) => Some(json_of_value(value)),
        Err(_) => None,
    }
}

/// Carries a `serde_json::Value` over into a `Json`, variant for variant:
/// arrays and objects in the order in which `serde_json` yields them, a
/// number as the text that `serde_json::Number`'s `Display` prints. Part of
/// `parse_json`, whose contract speaks for both.
#[verifier::external_body]
fn json_of_value(value: serde_json::Value) -> Json {
    match value {
        serde_json::Value::Null => Json::Null,
        serde_json::Value::Bool(b) => Json::Bool(b),
        serde_json::Value::Number(n) => Json::Number(n.to_string()),
        serde_json::Value::String(s) => Json::Str(s),
        serde_json::Value::Array(items) => Json::Array(items.into_iter().map(json_of_value).collect()),
        serde_json::Value::Object(map) => Json::Object(
            map.into_iter().map(|(k, v)| (k, json_of_value(v))).collect(),
        ),
    }
}

} // verus!
