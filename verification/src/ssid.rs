//! Network names as the device reports them: base64 text that, where it
//! decodes to UTF-8, stands for the name, and is shown as it is otherwise.

use base64::engine::general_purpose::STANDARD;
use base64::Engine;
use vstd::prelude::*;
use vstd::utf8::{decode_utf8, valid_utf8};

verus! {

/// The error of the `base64` crate's decoding, `base64::DecodeError`. Opaque:
/// nothing is read from it.
#[verifier::external_type_specification]
#[verifier::external_body]
pub struct ExDecodeError(base64::DecodeError);

/// The error of `String::from_utf8`, `std::string::FromUtf8Error`. Opaque:
/// nothing is read from it.
#[verifier::external_type_specification]
#[verifier::external_body]
pub struct ExFromUtf8Error(std::string::FromUtf8Error);

/// The bytes that `text` stands for in padded base64 over the standard
/// alphabet, as the `base64` crate's `STANDARD` engine decodes it; `None`
/// where that engine rejects `text`.
pub uninterp spec fn standard_base64_payload(text: Seq<char>) -> Option<Seq<u8>>;

/// `Engine::decode` of the `base64` crate on its `STANDARD` engine. Trusted:
/// the outcome is a function of the text alone, named
/// [`standard_base64_payload`]; nothing more is claimed of it.
#[verifier::external_body]
fn decode_standard(encoded: &str) -> (r: Result<Vec<u8>, base64::DecodeError>)
    ensures
        match r {
            Ok(bytes) => standard_base64_payload(encoded@) == Some(bytes@),
            Err(_) => standard_base64_payload(encoded@) is None,
        },
{
    STANDARD.decode(encoded)
}

/// `String::from_utf8` of the standard library. Trusted: it succeeds exactly
/// on well-formed UTF-8 and then yields the characters that the bytes encode.
#[verifier::external_body]
fn string_from_utf8(bytes: Vec<u8>) -> (r: Result<String, std::string::FromUtf8Error>)
    ensures
        match r {
            Ok(text) => valid_utf8(bytes@) && text@ == decode_utf8(bytes@),
            Err(_) => !valid_utf8(bytes@),
        },
{
    String::from_utf8(bytes)
}

/// The name to show for the reported text `encoded`, given the bytes that it
/// decodes to: the characters that the bytes encode where they are well-formed
/// UTF-8, and `encoded` itself where there are no bytes or they are not.
pub open spec fn ssid_text(encoded: Seq<char>, payload: Option<Seq<u8>>) -> Seq<char> {
    match payload {
        Some(bytes) => if valid_utf8(bytes) {
            decode_utf8(bytes)
        } else {
            encoded
        },
        None => encoded,
    }
}

/// What `payload` holds, as a sequence of bytes.
pub open spec fn payload_bytes(payload: Option<Vec<u8>>) -> Option<Seq<u8>> {
    match payload {
        Some(bytes) => Some(bytes@),
        None => None,
    }
}

/// The name to show for `encoded` once its base64 decoding is known:
/// `payload` holds the decoded bytes, or nothing where decoding failed.
pub fn ssid_from_payload(encoded: &str, payload: Option<Vec<u8>>) -> (ssid: String)
    ensures
        ssid@ == ssid_text(encoded@, payload_bytes(payload)),
{
    match payload {
        Some(bytes) => match string_from_utf8(bytes) {
            Ok(text) => text,
            Err(_) => String::from_str(encoded),
        },
        None => String::from_str(encoded),
    }
}

/// The network name that the reported text `encoded` stands for: its base64
/// decoding read as UTF-8, or `encoded` unchanged where either step fails.
pub fn decode_ssid(encoded: &str) -> (ssid: String)
    ensures
        ssid@ == ssid_text(encoded@, standard_base64_payload(encoded@)),
{
    let payload = match decode_standard(encoded) {
        Ok(bytes) => Some(bytes),
        Err(_) => None,
    };
    ssid_from_payload(encoded, payload)
}

} // verus!
