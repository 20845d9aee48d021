//! Screenshots arrive as base64 text; the `base64` crate turns them into bytes.

use crate::error::{CmdError, Failure};
use crate::json::{Json, JsonValue};
use vstd::prelude::*;

verus! {

/// The bytes that `base64::decode` makes of `text`, where it accepts `text`.
pub uninterp spec fn base64_decoded(text: Seq<char>) -> Option<Seq<u8>>;

/// Calls `base64::decode`, which reads the standard alphabet with padding. The contract
/// only names the outcome: `base64_decoded` of the text.
#[verifier::external_body]
fn decode_base64(text: &str) -> (decoded: Result<Vec<u8>, base64::DecodeError>)
    ensures
        match decoded {
            Ok(bytes) => base64_decoded(text@) == Some(bytes@),
            Err(_) => base64_decoded(text@) is None,
        },
{
    base64::decode(text)
}

/// The image in the reply to a screenshot command, given what decoding the reply's text
/// gives: the decoded bytes of the string.
pub open spec fn spec_image(res: JsonValue, decoded: Option<Seq<u8>>) -> Result<Seq<u8>, Failure> {
    match res {
        JsonValue::String(_) => match decoded {
            Some(bytes) => Ok(bytes),
            None => Err(Failure::ImageDecodeError),
        },
        _ => Err(Failure::NotW3C(res)),
    }
}

/// The text of the reply, where it is a string.
pub open spec fn image_text(res: JsonValue) -> Seq<char> {
    match res {
        JsonValue::String(s) => s,
        _ => Seq::empty(),
    }
}

/// Reads the image out of the reply to a screenshot command. The bytes are not looked
/// at: whether they are a PNG is the caller's matter.
pub fn decode_image(res: Json) -> (image: Result<Vec<u8>, CmdError>)
    ensures
        match image {
            Ok(bytes) => spec_image(res@, base64_decoded(image_text(res@))) == Ok::<
                Seq<u8>,
                Failure,
            >(bytes@),
            Err(e) => spec_image(res@, base64_decoded(image_text(res@))) == Err::<
                Seq<u8>,
                Failure,
            >(e@),
        },
{
    match res {
        Json::String(text) => match decode_base64(text.as_str()) {
            Ok(bytes) => Ok(bytes),
            Err(e) => Err(CmdError::ImageDecodeError(e)),
        },
        other => Err(CmdError::NotW3C(other)),
    }
}

} // verus!
