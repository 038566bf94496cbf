//! The calls into `serde_json` and `jsonwebtoken`.
//!
//! The contracts in this file are believed, not proved: each says what the
//! outside function it names is relied on to do.
use crate::json::{Json, JsonValue, Member};
use crate::token::{HeaderValue, TokenHeader};
use std::str::FromStr;
use vstd::prelude::*;

verus! {

/// `serde_json::Value`, a parsed JSON document.
#[verifier::external_type_specification]
#[verifier::external_body]
pub struct ExJsonTree(serde_json::Value);

/// `serde_json::Error`, why a text is not a JSON document.
#[verifier::external_type_specification]
#[verifier::external_body]
pub struct ExJsonFault(serde_json::Error);

/// `jsonwebtoken::errors::Error`, why a token was not decoded.
#[verifier::external_type_specification]
#[verifier::external_body]
pub struct ExTokenFault(jsonwebtoken::errors::Error);

/// The document that a `serde_json::Value` holds.
pub uninterp spec fn tree_value(tree: serde_json::Value) -> JsonValue;

/// The document that `serde_json::from_str` reads from `text`, or `None`
/// where it reports an error.
pub uninterp spec fn parsed_document(text: Seq<char>) -> Option<JsonValue>;

/// The header that `jsonwebtoken::decode_header` reads from `token`, or
/// `None` where it reports an error.
pub uninterp spec fn decoded_header(token: Seq<char>) -> Option<HeaderValue>;

/// The payload that `jsonwebtoken::decode` returns for `token` when it
/// checks the signature with the RSA public key (`modulus`, `exponent`) and
/// accepts `algorithm` alone, or `None` where it reports an error.
pub uninterp spec fn signed_payload(
    token: Seq<char>,
    algorithm: Seq<char>,
    modulus: Seq<char>,
    exponent: Seq<char>,
) -> Option<JsonValue>;

/// Calls `serde_json::from_str` to parse `text` as one JSON document.
///
/// Believed: the outcome depends on `text` alone.
#[verifier::external_body]
pub(crate) fn parse_tree(text: &str) -> (parsed: Result<serde_json::Value, serde_json::Error>)
    ensures
        match parsed {
            Ok(tree) => parsed_document(text@) == Some(tree_value(tree)),
            Err(_) => parsed_document(text@).is_none(),
        },
{
    serde_json::from_str::<serde_json::Value>(text)
}

/// Copies a `serde_json::Value` into a `Json`, variant by variant; for a
/// number it calls `serde_json::Number::as_u64`.
///
/// Believed: the copy holds the same document as `tree`, with the members of
/// an object in the order in which `serde_json::Map::iter` yields them.
#[verifier::external_body]
pub(crate) fn tree_to_json(tree: &serde_json::Value) -> (json: Json)
    ensures
        json@ == tree_value(*tree),
{
    match tree {
        serde_json::Value::Null => Json::Null,
        serde_json::Value::Bool(b) => Json::Bool(*b),
        serde_json::Value::Number(n) => Json::Number(n.as_u64()),
        serde_json::Value::String(s) => Json::Text(s.clone()),
        serde_json::Value::Array(items) => Json::Array(items.iter().map(tree_to_json).collect()),
        serde_json::Value::Object(map) => Json::Object(
            map.iter().map(|(k, v)| Member { name: k.clone(), value: tree_to_json(v) }).collect(),
        ),
    }
}

/// Calls `jsonwebtoken::decode_header`, which splits `token` at its dots,
/// decodes the first segment from base64url and reads it as a JSON header. It
/// checks no signature.
///
/// Believed: the outcome depends on `token` alone. `alg` is the name of the
/// variant of `jsonwebtoken::Algorithm` that the header gave.
#[verifier::external_body]
pub(crate) fn read_header(token: &str) -> (header: Result<TokenHeader, jsonwebtoken::errors::Error>)
    ensures
        match header {
            Ok(h) => decoded_header(token@) == Some(h@),
            Err(_) => decoded_header(token@).is_none(),
        },
{
    let header = jsonwebtoken::decode_header(token)?;
    Ok(TokenHeader { alg: format!("{:?}", header.alg), kid: header.kid })
}

/// Calls `jsonwebtoken::decode` with the key that
/// `jsonwebtoken::DecodingKey::from_rsa_components` makes of `modulus` and
/// `exponent`, and with a `jsonwebtoken::Validation` that accepts
/// `algorithm` alone and validates no claim: the expiry, audience and
/// required-claim checks of `decode` are switched off, so that the clock is
/// not read.
///
/// Believed: the outcome depends on the four arguments alone. An error comes
/// back where the key material or the algorithm name is not usable, where the
/// header names another algorithm, where the signature does not verify, and
/// where the payload is no JSON document.
#[verifier::external_body]
pub(crate) fn decode_signed(token: &str, algorithm: &str, modulus: &str, exponent: &str) -> (payload:
    Result<serde_json::Value, jsonwebtoken::errors::Error>)
    ensures
        match payload {
            Ok(tree) => signed_payload(token@, algorithm@, modulus@, exponent@) == Some(
                tree_value(tree),
            ),
            Err(_) => signed_payload(token@, algorithm@, modulus@, exponent@).is_none(),
        },
{
    let key = jsonwebtoken::DecodingKey::from_rsa_components(modulus, exponent)?;
    let mut rules = jsonwebtoken::Validation::new(jsonwebtoken::Algorithm::from_str(algorithm)?);
    rules.validate_exp = false;
    rules.validate_aud = false;
    rules.required_spec_claims.clear();
    Ok(jsonwebtoken::decode::<serde_json::Value>(token, &key, &rules)?.claims)
}

} // verus!
