//! Binary values sent as base64 text.

use vstd::prelude::*;
use vstd::string::*;
use crate::decode::{nullable_text, text_decoded, ExpectedFormat};
use crate::json::{Json, JsonValue};

verus! {

/// The bytes that `data_encoding::BASE64` decodes `input` to; `None` where
/// it reports an error.
pub uninterp spec fn base64_decoded(input: Seq<u8>) -> Option<Seq<u8>>;

/// Calls `data_encoding::BASE64.decode`.
///
/// Trusted: the result is what the crate decodes `input` to, and `None`
/// stands for any error that it reports.
#[verifier::external_body]
fn decode_base64(input: &[u8]) -> (decoded: Option<Vec<u8>>)
    ensures
        decoded.deep_view() == base64_decoded(input@),
{
    data_encoding::BASE64.decode(input).ok()
}

/// The bytes that a base64 text stands for.
pub open spec fn bytes_of_text(text: Seq<char>) -> Option<Seq<u8>> {
    base64_decoded(vstd::utf8::encode_utf8(text))
}

/// What a nullable binary value decodes to.
pub open spec fn binary_strategy(value: JsonValue) -> Result<Option<Seq<u8>>, ExpectedFormat> {
    nullable_text(value, |t: Seq<char>| bytes_of_text(t), ExpectedFormat::Base64)
}

/// Decodes a nullable binary value: `null` is absent, a string of base64
/// text is the bytes it stands for, anything else fails.
pub fn from_base64(value: &Json) -> (decoded: Result<Option<Vec<u8>>, ExpectedFormat>)
    ensures
        match decoded {
            Ok(bytes) => binary_strategy(value@) == Ok::<_, ExpectedFormat>(bytes.deep_view()),
            Err(e) => binary_strategy(value@) == Err::<Option<Seq<u8>>, _>(e),
        },
{
    match value {
        Json::Null => Ok(None),
        Json::String(text) => text_decoded(
            decode_base64(text.as_str().as_bytes()),
            ExpectedFormat::Base64,
        ),
        _ => Err(ExpectedFormat::Base64),
    }
}

/// The text that `data_encoding::BASE64` encodes `input` to.
pub uninterp spec fn base64_encoded(input: Seq<u8>) -> Seq<char>;

/// Calls `data_encoding::BASE64.encode`.
///
/// Trusted: the result is what the crate encodes `input` to.
#[verifier::external_body]
fn encode_base64(input: &[u8]) -> (encoded: String)
    ensures
        encoded@ == base64_encoded(input@),
{
    data_encoding::BASE64.encode(input)
}

/// The base64 text of the UTF-8 bytes of a text.
pub open spec fn text_encoded(text: Seq<char>) -> Seq<char> {
    base64_encoded(vstd::utf8::encode_utf8(text))
}

/// Encodes the UTF-8 bytes of a text as base64, in the standard alphabet and
/// with padding.
pub(crate) fn text_to_base64(text: &str) -> (encoded: String)
    ensures
        encoded@ == text_encoded(text@),
{
    encode_base64(text.as_bytes())
}

} // verus!
