//! JSON on the wire. String literals are written and texts are parsed by
//! `rustc_serialize`; which members an object must have, and in which order
//! they are written, is decided here.

use crate::result::{AppError, Result};
use crate::scan::{admissible, admits};
use crate::text::same_text;
use rustc_serialize::json::Json;
use vstd::prelude::*;

verus! {

/// The error of `rustc_serialize`'s JSON encoder.
#[verifier::external_type_specification]
#[verifier::external_body]
pub struct ExEncoderError(rustc_serialize::json::EncoderError);

/// The JSON string literal that `rustc_serialize` writes for `text`: the text
/// between double quotes, with quotes, backslashes and control characters
/// escaped.
pub uninterp spec fn json_string(text: Seq<char>) -> Seq<char>;

/// Calls `json::encode` of `rustc_serialize` on a string. For a string the
/// encoder does nothing but escape the text into a `String` of its own,
/// which cannot fail, so the call succeeds; what it wrote is the literal
/// named `json_string`, which depends on the text alone.
#[verifier::external_body]
fn encode_string(text: &str) -> (encoded: std::result::Result<
    String,
    rustc_serialize::json::EncoderError,
>)
    ensures
        encoded is Ok,
        encoded->Ok_0@ == json_string(text@),
{
    rustc_serialize::json::encode(&text)
}

/// The value of a member of a JSON object: a string or a boolean with what
/// it holds, anything else without.
#[derive(Debug, PartialEq, Eq)]
pub enum JsonValue {
    Text(String),
    Boolean(bool),
    Other,
}

/// What a JSON value says.
pub enum JsonValueModel {
    Text(Seq<char>),
    Boolean(bool),
    Other,
}

impl View for JsonValue {
    type V = JsonValueModel;

    open spec fn view(&self) -> JsonValueModel {
        match *self {
            JsonValue::Text(t) => JsonValueModel::Text(t@),
            JsonValue::Boolean(b) => JsonValueModel::Boolean(b),
            JsonValue::Other => JsonValueModel::Other,
        }
    }
}

/// A member of a JSON object.
#[derive(Debug, PartialEq, Eq)]
pub struct Member {
    pub key: String,
    pub value: JsonValue,
}

/// What a member says.
pub struct MemberModel {
    pub key: Seq<char>,
    pub value: JsonValueModel,
}

impl View for Member {
    type V = MemberModel;

    open spec fn view(&self) -> MemberModel {
        MemberModel { key: self.key@, value: self.value@ }
    }
}

/// What the members say, in order.
pub open spec fn member_views(members: Seq<Member>) -> Seq<MemberModel> {
    Seq::new(members.len(), |i: int| members[i]@)
}

/// What the outcome of parsing says.
pub open spec fn object_view(parsed: Option<Vec<Member>>) -> Option<Seq<MemberModel>> {
    match parsed {
        Some(members) => Some(member_views(members@)),
        None => None,
    }
}

/// The members of the JSON object that `text` denotes, as `rustc_serialize`
/// parses it, in the order of its map; `None` where the text is not JSON or
/// denotes something other than an object.
pub uninterp spec fn json_object(text: Seq<char>) -> Option<Seq<MemberModel>>;

/// The members of the JSON object that `text` denotes, where the parser can
/// take the text. A text that it cannot take is not read at all and counts
/// as no object.
pub open spec fn object_of(text: Seq<char>) -> Option<Seq<MemberModel>> {
    if admissible(text) {
        json_object(text)
    } else {
        None
    }
}

/// Calls `Json::from_str` of `rustc_serialize` and, where the text denotes an
/// object, copies its members out in the order of the parser's map: a string
/// or a boolean with its value, anything else as `Other`. What comes back
/// depends on the text alone and is named `json_object`.
///
/// The text must be `admissible`, because the parser panics or runs out of
/// stack on others. Its builder calls itself once for every array or object
/// that is open. It keeps the keys of the open objects in one buffer and
/// notes where each begins and how long it is in sixteen bits, so together
/// they may not have more than 65535 bytes. It multiplies and adds the
/// digits of an exponent in a `usize`, and counts the elements of an array
/// in 32 bits, without a check. And after a comma that is followed by `}`
/// inside another array or object it takes the wrong key off its buffer and
/// later stops with "invalid state".
#[verifier::external_body]
fn parse_object(text: &str) -> (parsed: Option<Vec<Member>>)
    requires
        admissible(text@),
    ensures
        object_view(parsed) == json_object(text@),
{
    let member = |(key, value): (String, Json)| Member {
        key: key,
        value: match value {
            Json::String(t) => JsonValue::Text(t),
            Json::Boolean(b) => JsonValue::Boolean(b),
            _ => JsonValue::Other,
        },
    };
    match Json::from_str(text) {
        Ok(Json::Object(map)) => Some(map.into_iter().map(member).collect()),
        _ => None,
    }
}

/// The value of the first member with the given key.
pub open spec fn member_named(members: Seq<MemberModel>, key: Seq<char>) -> Option<
    JsonValueModel,
>
    decreases members.len(),
{
    if members.len() == 0 {
        None
    } else if members[0].key == key {
        Some(members[0].value)
    } else {
        member_named(members.drop_first(), key)
    }
}

/// The string under `key`, where the object has that member and it is a
/// string.
pub open spec fn text_member(members: Seq<MemberModel>, key: Seq<char>) -> Option<Seq<char>> {
    match member_named(members, key) {
        Some(JsonValueModel::Text(t)) => Some(t),
        _ => None,
    }
}

/// The boolean under `key`, where the object has that member and it is a
/// boolean.
pub open spec fn flag_member(members: Seq<MemberModel>, key: Seq<char>) -> Option<bool> {
    match member_named(members, key) {
        Some(JsonValueModel::Boolean(b)) => Some(b),
        _ => None,
    }
}

/// The first member with the given key.
pub fn find_member<'a>(members: &'a Vec<Member>, key: &str) -> (found: Option<&'a JsonValue>)
    ensures
        match found {
            Some(value) => member_named(member_views(members@), key@) == Some(value@),
            None => member_named(member_views(members@), key@) is None,
        },
{
    let ghost all = member_views(members@);
    let mut i: usize = 0;
    assert(all.skip(0) =~= all);
    while i < members.len()
        invariant
            i <= members@.len(),
            all == member_views(members@),
            member_named(all, key@) == member_named(all.skip(i as int), key@),
        decreases members@.len() - i,
    {
        if same_text(members[i].key.as_str(), key) {
            return Some(&members[i].value);
        }
        assert(all.skip(i as int).drop_first() =~= all.skip(i + 1));
        i += 1;
    }
    None
}

/// A copy of the string under `key`.
pub fn find_text(members: &Vec<Member>, key: &str) -> (found: Option<String>)
    ensures
        match found {
            Some(text) => text_member(member_views(members@), key@) == Some(text@),
            None => text_member(member_views(members@), key@) is None,
        },
{
    match find_member(members, key) {
        Some(JsonValue::Text(t)) => Some(t.clone()),
        _ => None,
    }
}

/// The boolean under `key`.
pub fn find_flag(members: &Vec<Member>, key: &str) -> (found: Option<bool>)
    ensures
        found == flag_member(member_views(members@), key@),
{
    match find_member(members, key) {
        Some(JsonValue::Boolean(b)) => Some(*b),
        _ => None,
    }
}

/// The members of the object that `text` denotes. The text is scanned
/// first; one that the parser cannot take is turned down unread.
pub fn object_members(text: &str) -> (parsed: Option<Vec<Member>>)
    ensures
        object_view(parsed) == object_of(text@),
{
    if admits(text) {
        parse_object(text)
    } else {
        None
    }
}

/// Writes `text` as a JSON string literal. Every text can be written.
pub fn string_literal(text: &str) -> (written: Result<String>)
    ensures
        written matches Ok(literal) && literal@ == json_string(text@),
{
    match encode_string(text) {
        Ok(literal) => Ok(literal),
        Err(_) => Err(AppError::JsonEncoderError),
    }
}

/// `true` or `false`.
pub open spec fn json_bool(flag: bool) -> Seq<char> {
    if flag {
        "true"@
    } else {
        "false"@
    }
}

} // verus!
