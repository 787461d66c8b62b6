//! JSON documents as `serde_json` holds them.
//!
//! A `serde_json::Value` is opaque to the verifier. What it holds is named by
//! [`json_of`], as a [`Json`] tree, and every call into `serde_json` is
//! specified over that tree.
use vstd::prelude::*;

verus! {

/// A JSON number. `Float` carries the IEEE 754 bits of a binary64.
pub enum JsonNumber {
    PosInt(u64),
    NegInt(i64),
    Float(u64),
}

/// The mathematical model of a JSON document.
pub enum Json {
    Null,
    Bool(bool),
    Number(JsonNumber),
    Text(Seq<char>),
    Array(Seq<Json>),
    Object(Map<Seq<char>, Json>),
}

impl Json {
    /// The member of an object under `key`; nothing for any other document.
    pub open spec fn member(self, key: Seq<char>) -> Option<Json> {
        match self {
            Json::Object(members) => if members.dom().contains(key) {
                Some(members[key])
            } else {
                None
            },
            _ => None,
        }
    }

    /// The non-negative integer that a document is.
    pub open spec fn unsigned(self) -> Option<u64> {
        match self {
            Json::Number(JsonNumber::PosInt(n)) => Some(n),
            _ => None,
        }
    }

    /// The string that a document is.
    pub open spec fn text(self) -> Option<Seq<char>> {
        match self {
            Json::Text(s) => Some(s),
            _ => None,
        }
    }

    /// The elements of the array that a document is.
    pub open spec fn elements(self) -> Option<Seq<Json>> {
        match self {
            Json::Array(items) => Some(items),
            _ => None,
        }
    }
}

/// A parsed document. Its contents are named by [`json_of`].
#[verifier::external_type_specification]
#[verifier::external_body]
pub struct ExValue(serde_json::Value);

/// The error of a failed parse or rendering, carried through unread.
#[verifier::external_type_specification]
#[verifier::external_body]
pub struct ExError(serde_json::Error);

/// What a `serde_json::Value` holds.
pub uninterp spec fn json_of(value: serde_json::Value) -> Json;

/// What `serde_json::from_str` reads from a text; nothing where it fails.
pub uninterp spec fn parsed(text: Seq<char>) -> Option<Json>;

/// The text that `serde_json::to_string` writes for a document.
pub uninterp spec fn rendered(document: Json) -> Seq<char>;

/// The bits of the binary64 that `serde_json::Value::as_f64` gives for a number.
pub uninterp spec fn float_bits(number: JsonNumber) -> u64;

/// `serde_json::from_str` at type `serde_json::Value`: the outcome depends on
/// the text alone.
#[verifier::external_body]
pub(crate) fn parse_text(text: &str) -> (res: Result<serde_json::Value, serde_json::Error>)
    ensures
        res is Ok <==> parsed(text@) is Some,
        res matches Ok(value) ==> parsed(text@) == Some(json_of(value)),
{
    serde_json::from_str(text)
}

/// `serde_json::to_string` of a `serde_json::Value`: it succeeds, since every
/// key of such a document is a string and the output is memory, and the text
/// depends on the document alone.
#[verifier::external_body]
pub(crate) fn render(value: &serde_json::Value) -> (res: Result<String, serde_json::Error>)
    ensures
        res is Ok,
        res matches Ok(text) ==> text@ == rendered(json_of(*value)),
{
    serde_json::to_string(value)
}

/// `serde_json::Value::get` with a string key: the member of an object.
#[verifier::external_body]
pub(crate) fn member<'a>(value: &'a serde_json::Value, key: &str) -> (res: Option<
    &'a serde_json::Value,
>)
    ensures
        json_of(*value).member(key@) == match res {
            Some(found) => Some(json_of(*found)),
            None => None::<Json>,
        },
{
    value.get(key)
}

/// `serde_json::Value::get_mut` with a string key: a place inside an object,
/// whose other members stay as they are.
#[verifier::external_body]
pub(crate) fn member_mut<'a>(value: &'a mut serde_json::Value, key: &str) -> (res: Option<
    &'a mut serde_json::Value,
>)
    ensures
        match res {
            Some(found) => {
                &&& json_of(*old(value)).member(key@) == Some(json_of(*found))
                &&& json_of(*final(value)) == Json::Object(
                    json_of(*old(value))->Object_0.insert(key@, json_of(*final(found))),
                )
            },
            None => {
                &&& json_of(*old(value)).member(key@) is None
                &&& *final(value) == *old(value)
            },
        },
{
    value.get_mut(key)
}

/// `serde_json::Number::from` of an unsigned integer, as a document.
#[verifier::external_body]
pub(crate) fn unsigned_number(n: u64) -> (res: serde_json::Value)
    ensures
        json_of(res) == Json::Number(JsonNumber::PosInt(n)),
{
    serde_json::Value::Number(serde_json::Number::from(n))
}

/// `serde_json::Value::as_f64`, as bits: every number has a binary64, which is
/// the number itself where it is held as one.
#[verifier::external_body]
pub(crate) fn as_float_bits(value: &serde_json::Value) -> (res: Option<u64>)
    ensures
        match json_of(*value) {
            Json::Number(number) => res == Some(float_bits(number)),
            _ => res is None,
        },
        json_of(*value) matches Json::Number(JsonNumber::Float(bits)) ==> res == Some(bits),
{
    value.as_f64().map(|x| x.to_bits())
}

/// `serde_json::Value::is_null`: whether the document is `null`.
pub assume_specification[ serde_json::Value::is_null ](value: &serde_json::Value) -> (res: bool)
    ensures
        res == (json_of(*value) is Null),
;

/// `serde_json::Value::as_u64`: the integer, where the document is one that is
/// not negative.
pub assume_specification[ serde_json::Value::as_u64 ](value: &serde_json::Value) -> (res: Option<
    u64,
>)
    ensures
        res == json_of(*value).unsigned(),
;

/// `serde_json::Value::as_str`: the string, where the document is one.
pub assume_specification[ serde_json::Value::as_str ](value: &serde_json::Value) -> (res: Option<
    &str,
>)
    ensures
        json_of(*value).text() == match res {
            Some(s) => Some(s@),
            None => None::<Seq<char>>,
        },
;

/// `serde_json::Value::as_array`: the elements, where the document is an array.
pub assume_specification[ serde_json::Value::as_array ](value: &serde_json::Value) -> (res: Option<
    &Vec<serde_json::Value>,
>)
    ensures
        json_of(*value).elements() == match res {
            Some(items) => Some(items@.map_values(|item: serde_json::Value| json_of(item))),
            None => None::<Seq<Json>>,
        },
;

/// A document with a `null` under `key` replaced by zero.
pub open spec fn zero_for_null(document: Json, key: Seq<char>) -> Json {
    if document.member(key) == Some(Json::Null) {
        Json::Object(document->Object_0.insert(key, Json::Number(JsonNumber::PosInt(0))))
    } else {
        document
    }
}

/// Replaces a `null` under `key` by zero.
pub fn null_member_to_zero(value: &mut serde_json::Value, key: &str)
    ensures
        json_of(*final(value)) == zero_for_null(json_of(*old(value)), key@),
{
    let ghost before = json_of(*value);
    if let Some(found) = member_mut(value, key) {
        proof {
            let members = before->Object_0;
            assert(members.insert(key@, members[key@]) =~= members);
        }
        if found.is_null() {
            *found = unsigned_number(0);
        }
    }
}

/// Replacing `null` by zero puts zero where `null` was under the key, and leaves
/// every other member as it was.
pub proof fn only_null_is_replaced(document: Json, key: Seq<char>)
    ensures
        zero_for_null(document, key).member(key) != Some(Json::Null),
        document.member(key) == Some(Json::Null) ==> zero_for_null(document, key).member(key)
            == Some(Json::Number(JsonNumber::PosInt(0))),
        document.member(key) != Some(Json::Null) ==> zero_for_null(document, key) == document,
        forall|other: Seq<char>|
            other != key ==> #[trigger] zero_for_null(document, key).member(other)
                == document.member(other),
{
}

/// A document is read as what it is: a member only of an object and only where
/// it stands, an unsigned integer only of one, a text only of a text, and
/// elements only of an array.
pub proof fn documents_are_read_as_they_are(document: Json, key: Seq<char>)
    ensures
        match document.member(key) {
            Some(found) => document matches Json::Object(members) && members.dom().contains(key)
                && members[key] == found,
            None => !(document matches Json::Object(members) && members.dom().contains(key)),
        },
        match document.unsigned() {
            Some(n) => document == Json::Number(JsonNumber::PosInt(n)),
            None => !(document matches Json::Number(JsonNumber::PosInt(_))),
        },
        match document.text() {
            Some(text) => document == Json::Text(text),
            None => !(document is Text),
        },
        match document.elements() {
            Some(items) => document == Json::Array(items),
            None => !(document is Array),
        },
{
}

} // verus!
