//! JSON documents as plain values, and the pinned-SDK lookup in a pin file.

use vstd::prelude::*;
use crate::text::same_text;

verus! {

/// A JSON document; numbers keep their text, and objects hold their members
/// as the parser hands them over (serde_json's map: sorted by key, one member
/// per key).
#[derive(Debug)]
pub enum JsonValue {
    Null,
    Bool(bool),
    Number(String),
    Str(String),
    Array(Vec<JsonValue>),
    Object(Vec<(String, JsonValue)>),
}

/// What serde_json makes of a text: `None` where the text is not one JSON document.
pub uninterp spec fn parsed_json(text: Seq<char>) -> Option<JsonValue>;

#[verifier::external_type_specification]
#[verifier::external_body]
pub struct ExSerdeValue(serde_json::Value);

/// Relies on `serde_json::from_str::<serde_json::Value>`: the result depends on
/// the text alone.
#[verifier::external_body]
fn parse_json(text: &str) -> (r: Option<JsonValue>)
    ensures
        r == parsed_json(text@),
{
    serde_json::from_str::<serde_json::Value>(text).ok().map(|v| from_serde(&v))
}

/// Converts a `serde_json::Value` into a `JsonValue`, variant by variant.
#[verifier::external_body]
fn from_serde(v: &serde_json::Value) -> JsonValue {
    match v {
        serde_json::Value::Null => JsonValue::Null,
        serde_json::Value::Bool(b) => JsonValue::Bool(*b),
        serde_json::Value::Number(n) => JsonValue::Number(n.to_string()),
        serde_json::Value::String(s) => JsonValue::Str(s.clone()),
        serde_json::Value::Array(a) => JsonValue::Array(a.iter().map(from_serde).collect()),
        serde_json::Value::Object(o) => JsonValue::Object(
            o.iter().map(|(k, x)| (k.clone(), from_serde(x))).collect(),
        ),
    }
}

/// The value of the first member named `key`.
pub open spec fn member_of(members: Seq<(String, JsonValue)>, key: Seq<char>) -> Option<JsonValue>
    decreases members.len(),
{
    if members.len() == 0 {
        None
    } else if members[0].0@ == key {
        Some(members[0].1)
    } else {
        member_of(members.subrange(1, members.len() as int), key)
    }
}

/// The string at `sdk.version` of a document whose root and `sdk` are objects.
pub open spec fn pinned_version_in(doc: JsonValue) -> Option<Seq<char>> {
    match doc {
        JsonValue::Object(root) => match member_of(root@, "sdk"@) {
            Some(JsonValue::Object(sdk)) => match member_of(sdk@, "version"@) {
                Some(JsonValue::Str(v)) => Some(v@),
                _ => None,
            },
            _ => None,
        },
        _ => None,
    }
}

/// The pinned version of a pin file's text; any other shape gives none.
pub open spec fn pinned_version_of_text(text: Seq<char>) -> Option<Seq<char>> {
    match parsed_json(text) {
        Some(doc) => pinned_version_in(doc),
        None => None,
    }
}

/// An SDK version, as it is shown.
#[derive(Clone, Debug)]
pub struct Version(pub String);

impl Version {
    pub fn as_str(&self) -> (r: &str)
        ensures
            r@ == self.0@,
    {
        self.0.as_str()
    }
}

fn member<'a>(members: &'a Vec<(String, JsonValue)>, key: &str) -> (r: Option<&'a JsonValue>)
    ensures
        match r {
            Some(v) => member_of(members@, key@) == Some(*v),
            None => member_of(members@, key@).is_none(),
        },
{
    let mut i: usize = 0;
    assert(members@.subrange(0, members@.len() as int) =~= members@);
    while i < members.len()
        invariant
            i <= members@.len(),
            member_of(members@, key@) == member_of(members@.subrange(i as int, members@.len() as int), key@),
        decreases members@.len() - i,
    {
        let ghost rest = members@.subrange(i as int, members@.len() as int);
        assert(rest.subrange(1, rest.len() as int) =~= members@.subrange(i + 1, members@.len() as int));
        if same_text(members[i].0.as_str(), key) {
            return Some(&members[i].1);
        }
        i = i + 1;
    }
    None
}

/// The version pinned by a parsed pin file.
pub fn pinned_sdk_version(doc: &JsonValue) -> (r: Option<Version>)
    ensures
        match r {
            Some(v) => pinned_version_in(*doc) == Some(v.0@),
            None => pinned_version_in(*doc).is_none(),
        },
{
    match doc {
        JsonValue::Object(root) => match member(root, "sdk") {
            Some(JsonValue::Object(sdk)) => match member(sdk, "version") {
                Some(JsonValue::Str(v)) => Some(Version(v.clone())),
                _ => None,
            },
            _ => None,
        },
        _ => None,
    }
}

/// The version pinned by a pin file's text.
pub fn get_pinned_sdk_version(json: &str) -> (r: Option<Version>)
    ensures
        match r {
            Some(v) => pinned_version_of_text(json@) == Some(v.0@),
            None => pinned_version_of_text(json@).is_none(),
        },
{
    match parse_json(json) {
        Some(doc) => pinned_sdk_version(&doc),
        None => None,
    }
}

} // verus!
