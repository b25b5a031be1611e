//! The encodings that the library hands to outside crates: Base64 text and
//! JSON documents.

use vstd::prelude::*;

use base64::Engine;

verus! {

/// A JSON document, as held by `serde_json`; the library only carries it.
#[verifier::external_type_specification]
#[verifier::external_body]
pub struct ExJsonValue(serde_json::Value);

/// The bytes that the standard Base64 engine of `base64` decodes from a text
/// (alphabet `A-Z a-z 0-9 + /`, canonical `=` padding required, no trailing
/// bits), or `None` where it refuses the text.
pub uninterp spec fn standard_base64_decoding(text: Seq<char>) -> Option<Seq<u8>>;

/// The compact JSON text that `serde_json` prints for the document that it
/// parses from the given bytes, or `None` where they are not one JSON document.
pub uninterp spec fn compact_json_text(bytes: Seq<u8>) -> Option<Seq<char>>;

/// Calls `base64::engine::general_purpose::STANDARD.decode` on the UTF-8 bytes
/// of `text`. Its contract claims only that the outcome is a function of the
/// text (named `standard_base64_decoding`), with the `DecodeError` mapped to
/// `None`; nothing about which texts decode to which bytes is stated here.
#[verifier::external_body]
pub(crate) fn decode_standard_base64(text: &str) -> (decoded: Option<Vec<u8>>)
    ensures
        match decoded {
            Some(bytes) => standard_base64_decoding(text@) == Some(bytes@),
            None => standard_base64_decoding(text@) is None,
        },
{
    base64::engine::general_purpose::STANDARD.decode(text).ok()
}

/// Calls `serde_json::from_slice::<serde_json::Value>` on `bytes` and prints
/// the parsed document with its `Display` (`to_string`), which is the compact
/// form. Its contract claims only that the outcome is a function of the bytes
/// (named `compact_json_text`), the parse error mapped to `None`; nothing about
/// which documents are accepted or how they print is stated here.
#[verifier::external_body]
pub(crate) fn compact_json(bytes: &[u8]) -> (text: Option<String>)
    ensures
        match text {
            Some(t) => compact_json_text(bytes@) == Some(t@),
            None => compact_json_text(bytes@) is None,
        },
{
    match serde_json::from_slice::<serde_json::Value>(bytes) {
        Ok(value) => Some(value.to_string()),
        Err(_) => None,
    }
}

} // verus!
