//! From the payload segment of a token to the claims it encodes: unpadded
//! base64, then UTF-8, then JSON.

use crate::error::SupabaseError;
use std::collections::HashMap;
use vstd::prelude::*;
use vstd::utf8::{decode_utf8, valid_utf8};

verus! {

/// A JSON object: its members by name.
pub type JsonObject = HashMap<String, serde_json::Value>;

/// A JSON value of the `serde_json` crate.
#[verifier::external_type_specification]
#[verifier::external_body]
pub struct ExValue(serde_json::Value);

/// What the `serde_json` crate returns for a text that it cannot read.
#[verifier::external_type_specification]
#[verifier::external_body]
pub struct ExJsonError(serde_json::Error);

/// What the `base64` crate returns for an input that it cannot decode.
#[verifier::external_type_specification]
#[verifier::external_body]
pub struct ExDecodeError(base64::DecodeError);

/// What `String::from_utf8` returns for bytes that are no UTF-8.
#[verifier::external_type_specification]
#[verifier::external_body]
pub struct ExFromUtf8Error(std::string::FromUtf8Error);

/// The bytes that `input` encodes in base64 with the standard alphabet and
/// without padding; `None` where it encodes none.
pub uninterp spec fn base64_decoded(input: Seq<u8>) -> Option<Seq<u8>>;

/// The members of the JSON object that `text` is; `None` where it is none.
pub uninterp spec fn json_object(text: Seq<char>) -> Option<Map<String, serde_json::Value>>;

/// `Engine::decode` of the `base64` crate, on its engine for the standard
/// alphabet without padding.
#[verifier::external_body]
fn base64_decode(input: &[u8]) -> (r: Result<Vec<u8>, base64::DecodeError>)
    ensures
        r matches Ok(bytes) ==> base64_decoded(input@) == Some(bytes@),
        r is Err ==> base64_decoded(input@) is None,
{
    base64::Engine::decode(&base64::prelude::BASE64_STANDARD_NO_PAD, input)
}

/// `String::from_utf8`: the text that `bytes` encodes, where they are UTF-8.
#[verifier::external_body]
fn string_from_utf8(bytes: Vec<u8>) -> (r: Result<String, std::string::FromUtf8Error>)
    ensures
        r is Ok <==> valid_utf8(bytes@),
        r matches Ok(text) ==> text@ == decode_utf8(bytes@),
{
    String::from_utf8(bytes)
}

/// `serde_json::from_str` for a map from names to JSON values.
#[verifier::external_body]
fn json_from_str(text: &str) -> (r: Result<JsonObject, serde_json::Error>)
    ensures
        r matches Ok(object) ==> json_object(text@) == Some(object@),
        r is Err ==> json_object(text@) is None,
{
    serde_json::from_str::<JsonObject>(text)
}

/// The bytes that a payload segment encodes.
pub fn decode_payload(segment: &[u8]) -> (r: Result<Vec<u8>, SupabaseError>)
    ensures
        match r {
            Ok(bytes) => base64_decoded(segment@) == Some(bytes@),
            Err(e) => base64_decoded(segment@) is None && e == SupabaseError::Base64,
        },
{
    match base64_decode(segment) {
        Ok(bytes) => Ok(bytes),
        Err(_) => Err(SupabaseError::Base64),
    }
}

/// The text that decoded payload bytes are.
pub fn payload_text(bytes: Vec<u8>) -> (r: Result<String, SupabaseError>)
    ensures
        match r {
            Ok(text) => valid_utf8(bytes@) && text@ == decode_utf8(bytes@),
            Err(e) => !valid_utf8(bytes@) && e == SupabaseError::Utf8,
        },
{
    match string_from_utf8(bytes) {
        Ok(text) => Ok(text),
        Err(_) => Err(SupabaseError::Utf8),
    }
}

/// The claims that a payload text states.
pub fn parse_claims(text: &str) -> (r: Result<JsonObject, SupabaseError>)
    ensures
        match r {
            Ok(claims) => json_object(text@) == Some(claims@),
            Err(e) => json_object(text@) is None && e == SupabaseError::Json,
        },
{
    match json_from_str(text) {
        Ok(claims) => Ok(claims),
        Err(_) => Err(SupabaseError::Json),
    }
}

/// What a payload segment yields: the claims, or the step that failed.
pub open spec fn claims_of_segment(segment: Seq<u8>) -> Result<
    Map<String, serde_json::Value>,
    SupabaseError,
> {
    match base64_decoded(segment) {
        None => Err(SupabaseError::Base64),
        Some(bytes) => if !valid_utf8(bytes) {
            Err(SupabaseError::Utf8)
        } else {
            match json_object(decode_utf8(bytes)) {
                None => Err(SupabaseError::Json),
                Some(claims) => Ok(claims),
            }
        },
    }
}

/// The claims that a payload segment encodes.
pub fn segment_claims(segment: &[u8]) -> (r: Result<JsonObject, SupabaseError>)
    ensures
        match r {
            Ok(claims) => claims_of_segment(segment@) matches Ok(c) && c == claims@,
            Err(e) => claims_of_segment(segment@) matches Err(x) && x == e,
        },
{
    let bytes = decode_payload(segment)?;
    let text = payload_text(bytes)?;
    parse_claims(text.as_str())
}

} // verus!
