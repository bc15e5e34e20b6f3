//! The outside world of the token: the clock, the JSON object that is a token's
//! body, and the primitive that signs and verifies.
//!
//! Nothing in this file is proved. Each item states what the rest of the crate
//! relies on, and its comment names the outside function that it stands for.

use vstd::prelude::*;

verus! {

/// `serde_json::Map`, the JSON object. Verus sees nothing inside it.
#[verifier::external_type_specification]
#[verifier::external_body]
#[verifier::reject_recursive_types(K)]
#[verifier::reject_recursive_types(V)]
pub struct ExJsonMap<K, V>(serde_json::Map<K, V>);

/// `serde_json::Value`, any JSON value. Verus sees nothing inside it.
#[verifier::external_type_specification]
#[verifier::external_body]
pub struct ExJsonValue(serde_json::Value);

/// `jsonwebtoken::errors::Error`, the failure of the signing primitive. Verus
/// sees nothing inside it.
#[verifier::external_type_specification]
#[verifier::external_body]
pub struct ExSigningError(jsonwebtoken::errors::Error);

/// The body of a token: a JSON object.
pub type Fields = serde_json::Map<String, serde_json::Value>;

/// What a field of a JSON object holds, as far as this crate tells values apart.
pub enum FieldValue {
    /// An integer that fits in an `i64`.
    Integer(i64),
    /// A string, by its characters.
    Text(Seq<char>),
    /// Any other value, by its compact JSON text.
    Other(Seq<char>),
}

/// The fields of a JSON object: for each name in it, what the field holds.
pub uninterp spec fn fields_of(object: serde_json::Map<String, serde_json::Value>) -> Map<
    Seq<char>,
    FieldValue,
>;

/// The token that the signing primitive makes of a body and a secret, or `None`
/// where it fails.
pub uninterp spec fn signed_token(body: Map<Seq<char>, FieldValue>, secret: Seq<u8>) -> Option<
    Seq<char>,
>;

/// The body that a token carries: the fields of the JSON object that its text
/// holds between the header and the signature. For a text that holds none, this
/// says nothing.
pub uninterp spec fn carried_body(token: Seq<char>) -> Map<Seq<char>, FieldValue>;

/// Whether the signature that a token's text ends with is the one that the
/// secret gives to the header and the body that the text holds before it.
pub uninterp spec fn signature_fits(token: Seq<char>, secret: Seq<u8>) -> bool;

/// The integer that the field `name` of `fields` holds, if it holds one.
pub open spec fn integer_at(fields: Map<Seq<char>, FieldValue>, name: Seq<char>) -> Option<i64> {
    if fields.contains_key(name) {
        match fields[name] {
            FieldValue::Integer(i) => Some(i),
            _ => None,
        }
    } else {
        None
    }
}

/// The fields of a JSON object that has none.
pub open spec fn nothing() -> Map<Seq<char>, FieldValue> {
    Map::empty()
}

/// The string that the field `name` of `fields` holds, if it holds one.
pub open spec fn text_at(fields: Map<Seq<char>, FieldValue>, name: Seq<char>) -> Option<Seq<char>> {
    if fields.contains_key(name) {
        match fields[name] {
            FieldValue::Text(text) => Some(text),
            _ => None,
        }
    } else {
        None
    }
}

/// No time that the clock tells is earlier than this, in seconds since the
/// epoch: 366,000,000 days before it.
pub const MIN_TIMESTAMP: i64 = -31_622_400_000_000;

/// No time that the clock tells is later than this, in seconds since the epoch:
/// 366,000,000 days after it.
pub const MAX_TIMESTAMP: i64 = 31_622_400_000_000;

/// `time::OffsetDateTime::now_utc`, as a Unix timestamp
/// (`OffsetDateTime::unix_timestamp`). The time crate holds no date before the
/// year -999,999 or after the year 999,999 (with its default features, -9999 and
/// 9999), and panics rather than make one; every such date is within 366,000,000
/// days of the epoch. Nothing else is known of the result, and two calls may
/// differ.
#[verifier::external_body]
pub(crate) fn unix_now() -> (now: i64)
    ensures
        MIN_TIMESTAMP <= now <= MAX_TIMESTAMP,
{
    time::OffsetDateTime::now_utc().unix_timestamp()
}

/// `serde_json::Map::new`: a JSON object without fields.
#[verifier::external_body]
pub(crate) fn no_fields() -> (fields: Fields)
    ensures
        fields_of(fields) == nothing(),
{
    serde_json::Map::new()
}

/// `serde_json::Map::insert`, with the value `serde_json::Value::String` of a
/// copy of `value`: afterwards the field `name` holds the string `value`,
/// whether or not the object had such a field, and the other fields are as
/// before.
#[verifier::external_body]
pub(crate) fn insert_text(fields: &mut Fields, name: &str, value: &str)
    ensures
        fields_of(*final(fields)) == fields_of(*old(fields)).insert(
            name@,
            FieldValue::Text(value@),
        ),
{
    fields.insert(name.to_owned(), serde_json::Value::String(value.to_owned()));
}

/// `serde_json::Map::remove`, with the value that it hands back taken out of
/// `serde_json::Value::String`: afterwards the object has no field `name`, and
/// the other fields are as before. The result is the string that the field held,
/// `None` where there was no such field or it held something else.
#[verifier::external_body]
pub(crate) fn take_text(fields: &mut Fields, name: &str) -> (value: Option<String>)
    ensures
        fields_of(*final(fields)) == fields_of(*old(fields)).remove(name@),
        match value {
            Some(text) => text_at(fields_of(*old(fields)), name@) == Some(text@),
            None => text_at(fields_of(*old(fields)), name@) is None,
        },
{
    match fields.remove(name) {
        Some(serde_json::Value::String(text)) => Some(text),
        _ => None,
    }
}

/// `serde_json::Map::insert`, with a value made by `serde_json::Value::from` of
/// an `i64`: afterwards the field `name` holds the integer `value`, whether or
/// not the object had such a field, and the other fields are as before.
#[verifier::external_body]
pub(crate) fn insert_integer(fields: &mut Fields, name: &str, value: i64)
    ensures
        fields_of(*final(fields)) == fields_of(*old(fields)).insert(
            name@,
            FieldValue::Integer(value),
        ),
{
    fields.insert(name.to_owned(), serde_json::Value::from(value));
}

/// `serde_json::Map::remove`, with the value that it hands back read by
/// `serde_json::Value::as_i64`: afterwards the object has no field `name`, and
/// the other fields are as before. The result is the integer that the field
/// held, `None` where there was no such field or it held something else.
#[verifier::external_body]
pub(crate) fn take_integer(fields: &mut Fields, name: &str) -> (value: Option<i64>)
    ensures
        fields_of(*final(fields)) == fields_of(*old(fields)).remove(name@),
        value == integer_at(fields_of(*old(fields)), name@),
{
    match fields.remove(name) {
        Some(held) => held.as_i64(),
        None => None,
    }
}

/// `jsonwebtoken::encode` with the default header (HS256) and the key that
/// `EncodingKey::from_secret` makes of `secret`. The primitive writes the body as
/// compact JSON, which `serde_json` orders by field name, and signs that text
/// with HMAC-SHA256: the outcome is a function of the fields and the secret
/// alone.
#[verifier::external_body]
pub(crate) fn sign(body: &Fields, secret: &[u8]) -> (outcome: Result<
    String,
    jsonwebtoken::errors::Error,
>)
    ensures
        match outcome {
            Ok(token) => signed_token(fields_of(*body), secret@) == Some(token@),
            Err(_) => signed_token(fields_of(*body), secret@) is None,
        },
{
    jsonwebtoken::encode(
        &jsonwebtoken::Header::default(),
        body,
        &jsonwebtoken::EncodingKey::from_secret(secret),
    )
}

/// `jsonwebtoken::decode` with the default validation (HS256, `exp` required and
/// checked against the primitive's own clock with its leeway of 60 seconds) and the
/// key that `DecodingKey::from_secret` makes of `secret`. Whether the token is
/// accepted depends on the time of the call, so nothing is stated of that. No
/// token is accepted whose signature does not fit the secret, and a body that
/// is handed back is the one that the text carries, whenever it is asked for.
/// The primitive panics where the system clock tells a time before the epoch
/// and, where overflow is checked, a time within its leeway after the epoch.
#[verifier::external_body]
pub(crate) fn verify(token: &str, secret: &[u8]) -> (outcome: Result<
    Fields,
    jsonwebtoken::errors::Error,
>)
    ensures
        outcome is Ok ==> signature_fits(token@, secret@),
        outcome matches Ok(body) ==> fields_of(body) == carried_body(token@),
{
    jsonwebtoken::decode::<Fields>(
        token,
        &jsonwebtoken::DecodingKey::from_secret(secret),
        &jsonwebtoken::Validation::default(),
    ).map(|data| data.claims)
}

/// The primitive's own error for a body that cannot be read as what was
/// expected: `jsonwebtoken::errors::Error::from` of the `serde_json::Error` that
/// `serde::de::Error::custom` makes of `reason`.
#[verifier::external_body]
pub(crate) fn malformed(reason: &str) -> (error: jsonwebtoken::errors::Error) {
    jsonwebtoken::errors::Error::from(<serde_json::Error as serde::de::Error>::custom(reason))
}

} // verus!
