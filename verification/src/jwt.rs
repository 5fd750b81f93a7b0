//! Signed tokens: the calls into `jsonwebtoken`, and the JSON objects of
//! `serde_json` that carry a token's payload.

use vstd::prelude::*;
use serde_json::{Map as JsonMap, Value};

verus! {

/// `serde_json::Value`, carried through unopened.
#[verifier::external_type_specification]
#[verifier::external_body]
pub struct ExValue(serde_json::Value);

/// `serde_json::Map`, the members of a JSON object.
#[verifier::external_type_specification]
#[verifier::external_body]
#[verifier::reject_recursive_types(K)]
#[verifier::reject_recursive_types(V)]
pub struct ExJsonMap<K, V>(serde_json::Map<K, V>);

/// `jsonwebtoken::errors::Error`, what a failed signing reports.
#[verifier::external_type_specification]
#[verifier::external_body]
pub struct ExSigningError(jsonwebtoken::errors::Error);

/// What stands under one key of a JSON object.
pub ghost enum JsonField {
    /// A non-negative integer that fits 64 bits.
    Number(u64),
    /// A string.
    Text(Seq<char>),
    /// Anything else: null, a boolean, another number, an array, an object.
    Other,
}

/// The members of a JSON object, by key.
pub uninterp spec fn json_fields(object: JsonMap<String, Value>) -> Map<Seq<char>, JsonField>;

/// The keys of a JSON object's members, in the order in which the object
/// holds them and writes them out. This crate asks `serde_json` for its
/// order-preserving map, so that order is the one in which the keys were
/// first put in.
pub uninterp spec fn json_keys(object: JsonMap<String, Value>) -> Seq<Seq<char>>;

/// The token that signing gives for a payload of numbers and strings whose
/// members stand in the order given, under a secret.
pub uninterp spec fn jwt_signed(
    keys: Seq<Seq<char>>,
    fields: Map<Seq<char>, JsonField>,
    secret: Seq<char>,
) -> Seq<char>;

/// The payload of a token that `jsonwebtoken::decode` accepts under a
/// secret when it checks everything but expiry; `None` where it rejects
/// the token.
pub uninterp spec fn jwt_verified(token: Seq<char>, secret: Seq<char>) -> Option<
    Map<Seq<char>, JsonField>,
>;

/// The key under which a payload carries its expiry.
pub open spec fn expiry_key() -> Seq<char> {
    "exp"@
}

/// Whether a key is one of the registered claim names that the verifier
/// reads besides the expiry.
pub open spec fn is_reserved_key(key: Seq<char>) -> bool {
    key == "nbf"@ || key == "sub"@ || key == "iss"@ || key == "aud"@
}

/// A payload that holds numbers and strings only.
pub open spec fn is_plain(fields: Map<Seq<char>, JsonField>) -> bool {
    forall|key: Seq<char>| #[trigger] fields.dom().contains(key) ==> !(fields[key] is Other)
}

/// A payload that verifies again once signed: it holds numbers and strings
/// only, among them a numeric expiry, and none of the other registered
/// claim names.
pub open spec fn is_signable(fields: Map<Seq<char>, JsonField>) -> bool {
    &&& is_plain(fields)
    &&& fields.dom().contains(expiry_key())
    &&& fields[expiry_key()] is Number
    &&& forall|key: Seq<char>| #[trigger] fields.dom().contains(key) ==> !is_reserved_key(key)
}

/// The order of an object's keys once a member has been put under a key:
/// a key that was there keeps its place, a new one comes last.
pub open spec fn keys_after_put(
    keys: Seq<Seq<char>>,
    fields: Map<Seq<char>, JsonField>,
    key: Seq<char>,
) -> Seq<Seq<char>> {
    if fields.dom().contains(key) {
        keys
    } else {
        keys.push(key)
    }
}

/// Calls `serde_json::Map::new`.
///
/// Trusted: the object has no members.
#[verifier::external_body]
pub(crate) fn empty_payload() -> (object: JsonMap<String, Value>)
    ensures
        json_fields(object) =~= Map::empty(),
        json_keys(object).len() == 0,
{
    JsonMap::new()
}

/// Calls `serde_json::Map::insert` with a number made by `Value::from`.
///
/// Trusted: afterwards the key holds that number, whatever it held before,
/// and the other members are unchanged; a key that was there keeps its
/// place in the order, a new one comes last.
#[verifier::external_body]
pub(crate) fn put_number(object: &mut JsonMap<String, Value>, key: &str, number: u64)
    ensures
        json_fields(*final(object)) == json_fields(*old(object)).insert(
            key@,
            JsonField::Number(number),
        ),
        json_keys(*final(object)) == keys_after_put(
            json_keys(*old(object)),
            json_fields(*old(object)),
            key@,
        ),
{
    object.insert(key.to_owned(), Value::from(number));
}

/// Calls `serde_json::Map::insert` with a string made by `Value::from`.
///
/// Trusted: afterwards the key holds that string, whatever it held before,
/// and the other members are unchanged; a key that was there keeps its
/// place in the order, a new one comes last.
#[verifier::external_body]
pub(crate) fn put_text(object: &mut JsonMap<String, Value>, key: &str, text: &str)
    ensures
        json_fields(*final(object)) == json_fields(*old(object)).insert(
            key@,
            JsonField::Text(text@),
        ),
        json_keys(*final(object)) == keys_after_put(
            json_keys(*old(object)),
            json_fields(*old(object)),
            key@,
        ),
{
    object.insert(key.to_owned(), Value::from(text));
}

/// Calls `serde_json::Map::get`, then `Value::as_u64` on what it found.
///
/// Trusted: the number under the key, where the key is there and holds a
/// non-negative integer that fits 64 bits.
#[verifier::external_body]
pub(crate) fn number_at(object: &JsonMap<String, Value>, key: &str) -> (number: Option<u64>)
    ensures
        number == number_field(json_fields(*object), key@),
{
    object.get(key).and_then(Value::as_u64)
}

/// Calls `serde_json::Map::get`, then `Value::as_str` on what it found.
///
/// Trusted: a copy of the string under the key, where the key is there and
/// holds a string.
#[verifier::external_body]
pub(crate) fn text_at(object: &JsonMap<String, Value>, key: &str) -> (text: Option<String>)
    ensures
        text is Some <==> text_field(json_fields(*object), key@) is Some,
        text is Some ==> text.unwrap()@ == text_field(json_fields(*object), key@).unwrap(),
{
    object.get(key).and_then(Value::as_str).map(str::to_owned)
}

/// The number that a payload holds under a key, if it holds one there.
pub open spec fn number_field(fields: Map<Seq<char>, JsonField>, key: Seq<char>) -> Option<u64> {
    if fields.dom().contains(key) && fields[key] is Number {
        Some(fields[key]->Number_0)
    } else {
        None
    }
}

/// The string that a payload holds under a key, if it holds one there.
pub open spec fn text_field(fields: Map<Seq<char>, JsonField>, key: Seq<char>) -> Option<
    Seq<char>,
> {
    if fields.dom().contains(key) && fields[key] is Text {
        Some(fields[key]->Text_0)
    } else {
        None
    }
}

/// Whether a text holds no space.
pub open spec fn has_no_space(text: Seq<char>) -> bool {
    forall|i: int| 0 <= i < text.len() ==> text[i] != ' '
}

/// Calls `jsonwebtoken::encode` with the default header (HS256) and the
/// secret's bytes as the key.
///
/// Trusted, of the four clauses in their order. A token always comes
/// back: with a secret as the key and a JSON object as the payload the
/// call has no failing path. The token is three runs of URL-safe base64
/// joined by dots, so it holds no space. For a payload of numbers and
/// strings it is the token named by [`jwt_signed`], the same for the same
/// members in the same order under the same secret. And for a signable
/// payload it verifies under the same secret, and to that payload.
#[verifier::external_body]
pub(crate) fn sign(payload: &JsonMap<String, Value>, secret: &str) -> (signed: Result<
    String,
    jsonwebtoken::errors::Error,
>)
    ensures
        signed is Ok,
        signed matches Ok(token) ==> has_no_space(token@),
        signed matches Ok(token) ==> (is_plain(json_fields(*payload)) ==> token@ == jwt_signed(
            json_keys(*payload),
            json_fields(*payload),
            secret@,
        )),
        signed matches Ok(token) ==> (is_signable(json_fields(*payload)) ==> jwt_verified(
            token@,
            secret@,
        ) == Some(json_fields(*payload))),
{
    let key = jsonwebtoken::EncodingKey::from_secret(secret.as_bytes());
    jsonwebtoken::encode(&jsonwebtoken::Header::default(), payload, &key)
}

/// Calls `jsonwebtoken::decode` with the secret's bytes as the key and the
/// default validation, but for expiry, which is left to the caller.
///
/// Trusted: the payload comes back exactly where [`jwt_verified`] has one,
/// and it is that one. The outcome depends on the token and the secret
/// alone. The call fails only on a machine whose clock reads a time before
/// 1970.
#[verifier::external_body]
pub(crate) fn verify(token: &str, secret: &str) -> (payload: Option<JsonMap<String, Value>>)
    ensures
        payload is Some <==> jwt_verified(token@, secret@) is Some,
        payload is Some ==> json_fields(payload.unwrap()) == jwt_verified(token@, secret@).unwrap(),
{
    let key = jsonwebtoken::DecodingKey::from_secret(secret.as_bytes());
    let mut rules = jsonwebtoken::Validation::default();
    rules.validate_exp = false;
    jsonwebtoken::decode::<JsonMap<String, Value>>(token, &key, &rules).ok().map(|data| data.claims)
}

/// Calls `to_string` on a signing error.
///
/// Trusted, and nothing is claimed of the text.
#[verifier::external_body]
pub(crate) fn failure_text(failure: &jsonwebtoken::errors::Error) -> String {
    failure.to_string()
}

/// Calls `jsonwebtoken::get_current_timestamp`.
///
/// Trusted, and nothing is claimed of the result: it is the clock's reading
/// in seconds since the epoch. The call fails only on a machine whose clock
/// reads a time before 1970.
#[verifier::external_body]
pub(crate) fn current_timestamp() -> u64 {
    jsonwebtoken::get_current_timestamp()
}

} // verus!
