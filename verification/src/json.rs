//! JSON documents: the tree that the rest of the library reads and builds,
//! and the boundary to `serde_json`, which parses and prints it.

use crate::text::same_text;
use vstd::prelude::*;

verus! {

/// `serde_json::Value`, of which the contracts know only the document that
/// it holds, `json_content`.
#[verifier::external_type_specification]
#[verifier::external_body]
pub struct ExValue(serde_json::Value);

/// `serde_json::Number`, which a document carries through as it is.
#[verifier::external_type_specification]
#[verifier::external_body]
pub struct ExNumber(serde_json::Number);

/// A JSON document. An object lists its members in the order of the text.
#[derive(Debug, PartialEq)]
pub enum Json {
    Null,
    Bool(bool),
    Number(serde_json::Number),
    Text(String),
    Array(Vec<Json>),
    Object(Vec<(String, Json)>),
}

/// What a `Json` stands for in contracts.
pub ghost enum JsonValue {
    Null,
    Bool(bool),
    Number(serde_json::Number),
    Text(Seq<char>),
    Array(Seq<JsonValue>),
    Object(Seq<(Seq<char>, JsonValue)>),
}

/// The document that `json` stands for.
pub open spec fn json_view(json: Json) -> JsonValue
    decreases json,
{
    match json {
        Json::Null => JsonValue::Null,
        Json::Bool(b) => JsonValue::Bool(b),
        Json::Number(n) => JsonValue::Number(n),
        Json::Text(s) => JsonValue::Text(s@),
        Json::Array(items) => JsonValue::Array(
            Seq::new(
                items.len() as nat,
                |i: int|
                    if 0 <= i < items.len() {
                        json_view(items[i])
                    } else {
                        JsonValue::Null
                    },
            ),
        ),
        Json::Object(members) => JsonValue::Object(
            Seq::new(
                members.len() as nat,
                |i: int|
                    if 0 <= i < members.len() {
                        (members[i].0@, json_view(members[i].1))
                    } else {
                        (Seq::empty(), JsonValue::Null)
                    },
            ),
        ),
    }
}

impl View for Json {
    type V = JsonValue;

    open spec fn view(&self) -> JsonValue {
        json_view(*self)
    }
}

/// Whether `at` is the place of the first of `members` that is named `key`.
pub open spec fn first_named(members: Seq<(Seq<char>, JsonValue)>, key: Seq<char>, at: int) -> bool {
    &&& 0 <= at < members.len()
    &&& members[at].0 == key
    &&& forall|earlier: int| 0 <= earlier < at ==> members[earlier].0 != key
}

impl JsonValue {
    /// The member of an object that is named `key`: the first, should several
    /// share the name. Anything but an object has no members.
    pub open spec fn member(self, key: Seq<char>) -> Option<JsonValue> {
        match self {
            JsonValue::Object(members) => {
                if exists|at: int| first_named(members, key, at) {
                    Some(members[choose|at: int| first_named(members, key, at)].1)
                } else {
                    None
                }
            },
            _ => None,
        }
    }

    /// The characters of a string.
    pub open spec fn text(self) -> Option<Seq<char>> {
        match self {
            JsonValue::Text(characters) => Some(characters),
            _ => None,
        }
    }

    /// The string that is the member named `key`.
    pub open spec fn text_member(self, key: Seq<char>) -> Option<Seq<char>> {
        match self.member(key) {
            Some(value) => value.text(),
            None => None,
        }
    }

    /// Whether no object in the document names two of its members alike.
    pub open spec fn unique_keys(self) -> bool
        decreases self,
    {
        match self {
            JsonValue::Array(items) => forall|i: int|
                0 <= i < items.len() ==> (#[trigger] items[i]).unique_keys(),
            JsonValue::Object(members) => {
                &&& forall|i: int, j: int|
                    0 <= i < j < members.len() ==> (#[trigger] members[i]).0 != (
                    #[trigger] members[j]).0
                &&& forall|i: int|
                    0 <= i < members.len() ==> (#[trigger] members[i]).1.unique_keys()
            },
            _ => true,
        }
    }
}

/// The document that a `serde_json::Value` holds: each of its six variants
/// as the variant of the same kind, an object's members in the order in
/// which its map walks them. The library builds `serde_json` with
/// `preserve_order`, so that this is the order in which the members came.
pub uninterp spec fn json_content(value: serde_json::Value) -> JsonValue;

/// What `serde_json` makes of a text: the document that it reads from it, or
/// the message of the error with which it turns the text down.
pub uninterp spec fn json_parsed(text: Seq<char>) -> Result<JsonValue, Seq<char>>;

/// What `serde_json` prints for a document in its indented form, or the
/// message of the error with which it gives up.
pub uninterp spec fn json_pretty(document: JsonValue) -> Result<Seq<char>, Seq<char>>;

/// Reads a text as JSON.
///
/// Calls `serde_json::from_str` for a `serde_json::Value` and hands on its
/// answer, an error as its `Display` text. The contract gives that answer
/// its name, `json_parsed`, and claims nothing else of it.
#[verifier::external_body]
fn parse_value(text: &str) -> (outcome: Result<serde_json::Value, String>)
    ensures
        match outcome {
            Ok(value) => json_parsed(text@) == Ok::<JsonValue, Seq<char>>(json_content(value)),
            Err(message) => json_parsed(text@) == Err::<JsonValue, Seq<char>>(message@),
        },
{
    match serde_json::from_str::<serde_json::Value>(text) {
        Ok(value) => Ok(value),
        Err(error) => Err(error.to_string()),
    }
}

/// What a `serde_json::Value` is made of: the fields of its variant, the
/// members of an object as a list.
enum Parts {
    Null,
    Bool(bool),
    Number(serde_json::Number),
    Text(String),
    Array(Vec<serde_json::Value>),
    Object(Vec<(String, serde_json::Value)>),
}

/// The document of a value that is made of `parts`.
spec fn parts_content(parts: Parts) -> JsonValue {
    match parts {
        Parts::Null => JsonValue::Null,
        Parts::Bool(b) => JsonValue::Bool(b),
        Parts::Number(n) => JsonValue::Number(n),
        Parts::Text(s) => JsonValue::Text(s@),
        Parts::Array(items) => JsonValue::Array(
            items@.map_values(|item: serde_json::Value| json_content(item)),
        ),
        Parts::Object(members) => JsonValue::Object(
            members@.map_values(
                |member: (String, serde_json::Value)| (member.0@, json_content(member.1)),
            ),
        ),
    }
}

/// Whether the members of an object, if `parts` are those of one, differ in
/// name.
spec fn names_differ(parts: Parts) -> bool {
    parts matches Parts::Object(members) ==> forall|i: int, j: int|
        0 <= i < j < members.len() ==> (#[trigger] members[i]).0@ != (#[trigger] members[j]).0@
}

/// Takes a `serde_json::Value` apart.
///
/// One arm for each variant of `serde_json::Value`, each moving the fields
/// out; the members of an object come in the order in which
/// `serde_json::Map` hands them out. The contract says what `json_content`
/// is for the value: the variant of the same kind, over the documents of
/// the values inside.
#[verifier::external_body]
fn take_apart(value: serde_json::Value) -> (parts: Parts)
    ensures
        json_content(value) == parts_content(parts),
{
    match value {
        serde_json::Value::Null => Parts::Null,
        serde_json::Value::Bool(b) => Parts::Bool(b),
        serde_json::Value::Number(n) => Parts::Number(n),
        serde_json::Value::String(s) => Parts::Text(s),
        serde_json::Value::Array(items) => Parts::Array(items),
        serde_json::Value::Object(members) => Parts::Object(members.into_iter().collect()),
    }
}

/// Puts a `serde_json::Value` together.
///
/// One arm for each variant, each moving the fields in; the members of an
/// object are collected into a `serde_json::Map`, which keeps one member
/// for each name, in the order in which the names first came. So the
/// contract speaks only of members that differ in name: the value then
/// holds the document of the same kind over the documents of the values
/// inside.
#[verifier::external_body]
fn put_together(parts: Parts) -> (value: serde_json::Value)
    ensures
        names_differ(parts) ==> json_content(value) == parts_content(parts),
{
    match parts {
        Parts::Null => serde_json::Value::Null,
        Parts::Bool(b) => serde_json::Value::Bool(b),
        Parts::Number(n) => serde_json::Value::Number(n),
        Parts::Text(s) => serde_json::Value::String(s),
        Parts::Array(items) => serde_json::Value::Array(items),
        Parts::Object(members) => serde_json::Value::Object(members.into_iter().collect()),
    }
}

/// Prints a value as indented JSON.
///
/// Calls `serde_json::to_string_pretty` and hands on its answer, an error
/// as its `Display` text. The contract gives that answer its name,
/// `json_pretty`, as a function of the document that the value holds, and
/// claims nothing else of it.
#[verifier::external_body]
fn render_value(value: &serde_json::Value) -> (outcome: Result<String, String>)
    ensures
        match outcome {
            Ok(text) => json_pretty(json_content(*value)) == Ok::<Seq<char>, Seq<char>>(text@),
            Err(message) => json_pretty(json_content(*value)) == Err::<Seq<char>, Seq<char>>(
                message@,
            ),
        },
{
    match serde_json::to_string_pretty(value) {
        Ok(text) => Ok(text),
        Err(error) => Err(error.to_string()),
    }
}

/// The document that `value` holds.
fn json_from_value(value: serde_json::Value) -> (json: Json)
    ensures
        json@ == json_content(value),
    decreases json_content(value),
{
    match take_apart(value) {
        Parts::Null => Json::Null,
        Parts::Bool(b) => Json::Bool(b),
        Parts::Number(n) => Json::Number(n),
        Parts::Text(s) => Json::Text(s),
        Parts::Array(items) => {
            let ghost held = json_content(value)->Array_0;
            let ghost given = items@;
            let mut converted: Vec<Json> = Vec::new();
            for item in it: items.into_iter()
                invariant
                    it.seq() == given,
                    held.len() == given.len(),
                    json_content(value) == JsonValue::Array(held),
                    forall|i: int| 0 <= i < given.len() ==> held[i] == json_content(given[i]),
                    converted.len() == it.index(),
                    forall|i: int| 0 <= i < it.index() ==> (#[trigger] converted[i])@ == held[i],
            {
                // The value inside is a part of the value, and so is its document.
                assert(json_content(value)->Array_0[it.index()] == json_content(item));
                converted.push(json_from_value(item));
            }
            let json = Json::Array(converted);
            assert(json@->Array_0 =~= held);
            json
        },
        Parts::Object(members) => {
            let ghost held = json_content(value)->Object_0;
            let ghost given = members@;
            let mut converted: Vec<(String, Json)> = Vec::new();
            for member in it: members.into_iter()
                invariant
                    it.seq() == given,
                    held.len() == given.len(),
                    json_content(value) == JsonValue::Object(held),
                    forall|i: int|
                        0 <= i < given.len() ==> held[i] == (given[i].0@, json_content(given[i].1)),
                    converted.len() == it.index(),
                    forall|i: int|
                        0 <= i < it.index() ==> ((#[trigger] converted[i]).0@, converted[i].1@)
                            == held[i],
            {
                let (name, inner) = member;
                assert(json_content(value)->Object_0[it.index()].1 == json_content(inner));
                converted.push((name, json_from_value(inner)));
            }
            let json = Json::Object(converted);
            assert(json@->Object_0 =~= held);
            json
        },
    }
}

/// A value that holds the document `json`.
fn value_from_json(json: Json) -> (value: serde_json::Value)
    requires
        json@.unique_keys(),
    ensures
        json_content(value) == json@,
    decreases json,
{
    match json {
        Json::Null => put_together(Parts::Null),
        Json::Bool(b) => put_together(Parts::Bool(b)),
        Json::Number(n) => put_together(Parts::Number(n)),
        Json::Text(s) => put_together(Parts::Text(s)),
        Json::Array(items) => {
            let ghost held = json@->Array_0;
            let ghost given = items@;
            let mut converted: Vec<serde_json::Value> = Vec::new();
            for item in it: items.into_iter()
                invariant
                    json == Json::Array(items),
                    json@ == JsonValue::Array(held),
                    forall|i: int| 0 <= i < given.len() ==> held[i] == given[i]@,
                    forall|i: int| 0 <= i < held.len() ==> (#[trigger] held[i]).unique_keys(),
                    converted.len() == it.index(),
                    forall|i: int|
                        0 <= i < it.index() ==> json_content(#[trigger] converted[i]) == held[i],
            {
                assert(held[it.index()] == item@);
                converted.push(value_from_json(item));
            }
            let parts = Parts::Array(converted);
            assert(parts_content(parts)->Array_0 =~= held);
            put_together(parts)
        },
        Json::Object(members) => {
            let ghost held = json@->Object_0;
            let ghost given = members@;
            let mut converted: Vec<(String, serde_json::Value)> = Vec::new();
            for member in it: members.into_iter()
                invariant
                    json == Json::Object(members),
                    json@ == JsonValue::Object(held),
                    forall|i: int| 0 <= i < given.len() ==> held[i] == (given[i].0@, given[i].1@),
                    forall|i: int| 0 <= i < held.len() ==> (#[trigger] held[i]).1.unique_keys(),
                    converted.len() == it.index(),
                    forall|i: int|
                        0 <= i < it.index() ==> ((#[trigger] converted[i]).0@, json_content(
                            converted[i].1,
                        )) == held[i],
            {
                assert(held[it.index()] == (member.0@, member.1@));
                let (name, inner) = member;
                converted.push((name, value_from_json(inner)));
            }
            let parts = Parts::Object(converted);
            assert(parts_content(parts)->Object_0 =~= held);
            assert forall|i: int, j: int| 0 <= i < j < converted.len() implies (
            #[trigger] converted[i]).0@ != (#[trigger] converted[j]).0@ by {
                assert(held[i].0 != held[j].0);
            }
            put_together(parts)
        },
    }
}

/// Reads `text` as a JSON document, or gives the parser's message.
pub fn parse_json(text: &str) -> (outcome: Result<Json, String>)
    ensures
        match outcome {
            Ok(json) => json_parsed(text@) == Ok::<JsonValue, Seq<char>>(json@),
            Err(message) => json_parsed(text@) == Err::<JsonValue, Seq<char>>(message@),
        },
{
    match parse_value(text) {
        Ok(value) => Ok(json_from_value(value)),
        Err(message) => Err(message),
    }
}

/// Prints `json` as indented JSON text, or gives the printer's message.
pub(crate) fn render_json(json: Json) -> (outcome: Result<String, String>)
    requires
        json@.unique_keys(),
    ensures
        match outcome {
            Ok(text) => json_pretty(json@) == Ok::<Seq<char>, Seq<char>>(text@),
            Err(message) => json_pretty(json@) == Err::<Seq<char>, Seq<char>>(message@),
        },
{
    let value = value_from_json(json);
    render_value(&value)
}

impl Json {
    /// The string that `self` is, if it is one.
    pub fn as_text(&self) -> (text: Option<&str>)
        ensures
            match text {
                Some(characters) => self@.text() == Some(characters@),
                None => self@.text() is None,
            },
    {
        match self {
            Json::Text(characters) => Some(characters.as_str()),
            _ => None,
        }
    }

    /// The member named `key`, if `self` is an object that has one.
    pub fn member(&self, key: &str) -> (found: Option<&Json>)
        ensures
            match found {
                Some(value) => self@.member(key@) == Some(value@),
                None => self@.member(key@) is None,
            },
    {
        match self {
            Json::Object(members) => {
                let ghost listed = self@->Object_0;
                let mut at: usize = 0;
                while at < members.len()
                    invariant
                        at <= members.len(),
                        self@ == JsonValue::Object(listed),
                        listed.len() == members.len(),
                        forall|i: int|
                            0 <= i < members.len() ==> listed[i] == (members[i].0@, members[i].1@),
                        forall|earlier: int| 0 <= earlier < at ==> listed[earlier].0 != key@,
                    decreases members.len() - at,
                {
                    if same_text(members[at].0.as_str(), key) {
                        assert(first_named(listed, key@, at as int));
                        return Some(&members[at].1);
                    }
                    at = at + 1;
                }
                None
            },
            _ => None,
        }
    }

    /// The string that is the member named `key`, if there is one.
    pub fn text_member(&self, key: &str) -> (text: Option<&str>)
        ensures
            match text {
                Some(characters) => self@.text_member(key@) == Some(characters@),
                None => self@.text_member(key@) is None,
            },
    {
        match self.member(key) {
            Some(value) => value.as_text(),
            None => None,
        }
    }
}

} // verus!

