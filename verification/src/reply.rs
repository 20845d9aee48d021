//! What the body of a response says: the command's result, or the server's error, in
//! the shape that each dialect gives them.

use crate::error::{CmdError, Failure};
use crate::json::{
    lemma_lookup_none, lemma_lookup_well_formed, lemma_object_view, lookup, members_view, take,
    Json, JsonValue,
};
use vstd::prelude::*;

verus! {

/// The failure that stands for the server's error `name` with `message`. A name that
/// has no failure of its own gives `UnknownError` with the name.
pub open spec fn spec_error(name: Seq<char>, message: Seq<char>) -> Failure {
    if name == "no such element"@ {
        Failure::NoSuchElement(message)
    } else if name == "no such window"@ {
        Failure::NoSuchWindow
    } else if name == "no such frame"@ {
        Failure::NoSuchFrame
    } else if name == "stale element reference"@ {
        Failure::StaleElementReference
    } else if name == "element not interactable"@ {
        Failure::ElementNotInteractable
    } else if name == "invalid selector"@ {
        Failure::InvalidSelector
    } else if name == "invalid argument"@ {
        Failure::InvalidArgument
    } else if name == "javascript error"@ {
        Failure::JavascriptError(message)
    } else if name == "timeout"@ {
        Failure::Timeout
    } else if name == "unexpected alert open"@ {
        Failure::UnexpectedAlertOpen
    } else {
        Failure::UnknownError(name, message)
    }
}

/// The name of the error that a status code of the legacy dialect stands for.
pub open spec fn legacy_error_name(status: u64) -> Option<Seq<char>> {
    if status == 6 || status == 33 {
        Some("session not created"@)
    } else if status == 7 {
        Some("no such element"@)
    } else if status == 8 {
        Some("no such frame"@)
    } else if status == 9 {
        Some("unknown command"@)
    } else if status == 10 {
        Some("stale element reference"@)
    } else if status == 11 {
        Some("element not interactable"@)
    } else if status == 12 {
        Some("invalid element state"@)
    } else if status == 13 {
        Some("unknown error"@)
    } else if status == 15 {
        Some("element not selectable"@)
    } else if status == 17 {
        Some("javascript error"@)
    } else if status == 19 || status == 32 {
        Some("invalid selector"@)
    } else if status == 21 {
        Some("timeout"@)
    } else if status == 23 {
        Some("no such window"@)
    } else if status == 24 {
        Some("invalid cookie domain"@)
    } else if status == 25 {
        Some("unable to set cookie"@)
    } else if status == 26 {
        Some("unexpected alert open"@)
    } else if status == 27 {
        Some("no such alert"@)
    } else if status == 28 {
        Some("script timeout"@)
    } else if status == 29 {
        Some("invalid element coordinates"@)
    } else if status == 34 {
        Some("move target out of bounds"@)
    } else {
        None
    }
}

/// The name and the message of a W3C error, where `value` is one: an object whose
/// `error` and `message` are strings.
pub open spec fn envelope(value: JsonValue) -> Option<(Seq<char>, Seq<char>)> {
    match (value.text_at("error"@), value.text_at("message"@)) {
        (Some(name), Some(message)) => Some((name, message)),
        _ => None,
    }
}

/// What a W3C response says. An error may stand at the top or under `value`; any other
/// object with a `value` is a success, and `value` the result.
pub open spec fn spec_decode_w3c(body: JsonValue) -> Result<JsonValue, Failure> {
    match envelope(body) {
        Some((name, message)) => Err(spec_error(name, message)),
        None => match body.get("value"@) {
            None => Err(Failure::NotW3C(body)),
            Some(value) => match envelope(value) {
                Some((name, message)) => Err(spec_error(name, message)),
                None => Ok(value),
            },
        },
    }
}

/// The status code of a legacy response.
pub open spec fn legacy_status(body: JsonValue) -> Option<u64> {
    match body.get("status"@) {
        Some(status) => status.as_u64(),
        None => None,
    }
}

/// What a legacy response says. It has a `status` and a `value`; status 0 is a
/// success, and `value` the result; any other status is an error, named by the status
/// and described by the `message` of `value`.
pub open spec fn spec_decode_legacy(body: JsonValue) -> Result<JsonValue, Failure> {
    match (legacy_status(body), body.get("value"@)) {
        (Some(status), Some(value)) => if status == 0 {
            Ok(value)
        } else {
            match (legacy_error_name(status), value.text_at("message"@)) {
                (Some(name), Some(message)) => Err(spec_error(name, message)),
                _ => Err(Failure::NotW3C(body)),
            }
        },
        _ => Err(Failure::NotW3C(body)),
    }
}

/// What a response's body says in the given dialect: the result, the server's error,
/// or, for a body of another shape, `NotW3C` with the body as it came.
pub open spec fn spec_decode(body: JsonValue, legacy: bool) -> Result<JsonValue, Failure> {
    if legacy {
        spec_decode_legacy(body)
    } else {
        spec_decode_w3c(body)
    }
}

/// What is read out of a well-formed body is well-formed: the result, and the value
/// that a failure holds.
pub proof fn lemma_decode_well_formed(body: JsonValue, legacy: bool)
    requires
        body.well_formed(),
    ensures
        spec_decode(body, legacy) matches Ok(v) ==> v.well_formed(),
        spec_decode(body, legacy) matches Err(Failure::NotW3C(v)) ==> v.well_formed(),
{
    match body {
        JsonValue::Object(members) => {
            if lookup(members, "value"@) is Some {
                lemma_lookup_well_formed(members, "value"@);
            }
        },
        _ => {},
    }
}

/// Whether `s` is the text `text`.
fn is_text(s: &String, text: &str) -> (same: bool)
    ensures
        same == (s@ == text@),
{
    *s == text.to_owned()
}

/// The failure that stands for the server's error `name` with `message`.
pub fn map_error(name: String, message: String) -> (e: CmdError)
    ensures
        e@ == spec_error(name@, message@),
{
    if is_text(&name, "no such element") {
        CmdError::NoSuchElement(message)
    } else if is_text(&name, "no such window") {
        CmdError::NoSuchWindow
    } else if is_text(&name, "no such frame") {
        CmdError::NoSuchFrame
    } else if is_text(&name, "stale element reference") {
        CmdError::StaleElementReference
    } else if is_text(&name, "element not interactable") {
        CmdError::ElementNotInteractable
    } else if is_text(&name, "invalid selector") {
        CmdError::InvalidSelector
    } else if is_text(&name, "invalid argument") {
        CmdError::InvalidArgument
    } else if is_text(&name, "javascript error") {
        CmdError::JavascriptError(message)
    } else if is_text(&name, "timeout") {
        CmdError::Timeout
    } else if is_text(&name, "unexpected alert open") {
        CmdError::UnexpectedAlertOpen
    } else {
        CmdError::UnknownError(name, message)
    }
}

/// The name of the error that a status code of the legacy dialect stands for.
fn name_of_status(status: u64) -> (name: Option<&'static str>)
    ensures
        match name {
            Some(n) => legacy_error_name(status) == Some(n@),
            None => legacy_error_name(status) is None,
        },
{
    if status == 6 || status == 33 {
        Some("session not created")
    } else if status == 7 {
        Some("no such element")
    } else if status == 8 {
        Some("no such frame")
    } else if status == 9 {
        Some("unknown command")
    } else if status == 10 {
        Some("stale element reference")
    } else if status == 11 {
        Some("element not interactable")
    } else if status == 12 {
        Some("invalid element state")
    } else if status == 13 {
        Some("unknown error")
    } else if status == 15 {
        Some("element not selectable")
    } else if status == 17 {
        Some("javascript error")
    } else if status == 19 || status == 32 {
        Some("invalid selector")
    } else if status == 21 {
        Some("timeout")
    } else if status == 23 {
        Some("no such window")
    } else if status == 24 {
        Some("invalid cookie domain")
    } else if status == 25 {
        Some("unable to set cookie")
    } else if status == 26 {
        Some("unexpected alert open")
    } else if status == 27 {
        Some("no such alert")
    } else if status == 28 {
        Some("script timeout")
    } else if status == 29 {
        Some("invalid element coordinates")
    } else if status == 34 {
        Some("move target out of bounds")
    } else {
        None
    }
}

/// The failure that `value` tells of, where it is a W3C error.
fn envelope_of(value: &Json) -> (found: Option<CmdError>)
    ensures
        match found {
            Some(e) => envelope(value@) matches Some((name, message)) && e@ == spec_error(
                name,
                message,
            ),
            None => envelope(value@) is None,
        },
{
    let name = match value.text_at("error") {
        Some(name) => name,
        None => {
            return None;
        },
    };
    match value.text_at("message") {
        Some(message) => Some(map_error(name, message)),
        None => None,
    }
}

/// Takes the member `value` out of the body, or hands the body back if it has none.
fn into_value(body: Json) -> (value: Result<Json, Json>)
    ensures
        match value {
            Ok(v) => body@.get("value"@) == Some(v@),
            Err(b) => body@.get("value"@) is None && b@ == body@,
        },
{
    match body {
        Json::Object(mut members) => {
            proof {
                lemma_object_view(members);
            }
            let ghost before = members_view(members@);
            match take(&mut members, "value") {
                Some(value) => Ok(value),
                None => {
                    proof {
                        lemma_lookup_none(before, "value"@);
                        lemma_object_view(members);
                    }
                    Err(Json::Object(members))
                },
            }
        },
        other => Err(other),
    }
}

/// Reads the body of a W3C response.
fn decode_w3c(body: Json) -> (said: Result<Json, CmdError>)
    ensures
        match said {
            Ok(v) => spec_decode_w3c(body@) == Ok::<JsonValue, Failure>(v@),
            Err(e) => spec_decode_w3c(body@) == Err::<JsonValue, Failure>(e@),
        },
{
    match envelope_of(&body) {
        Some(e) => {
            return Err(e);
        },
        None => {},
    }
    let inner = match body.get("value") {
        Some(value) => envelope_of(value),
        None => {
            return Err(CmdError::NotW3C(body));
        },
    };
    match inner {
        Some(e) => Err(e),
        None => match into_value(body) {
            Ok(value) => Ok(value),
            Err(body) => Err(CmdError::NotW3C(body)),
        },
    }
}

/// Reads the body of a legacy response.
fn decode_legacy(body: Json) -> (said: Result<Json, CmdError>)
    ensures
        match said {
            Ok(v) => spec_decode_legacy(body@) == Ok::<JsonValue, Failure>(v@),
            Err(e) => spec_decode_legacy(body@) == Err::<JsonValue, Failure>(e@),
        },
{
    let status = match body.get("status") {
        Some(status) => match status.as_u64() {
            Some(status) => status,
            None => {
                return Err(CmdError::NotW3C(body));
            },
        },
        None => {
            return Err(CmdError::NotW3C(body));
        },
    };
    let message = match body.get("value") {
        Some(value) => value.text_at("message"),
        None => {
            return Err(CmdError::NotW3C(body));
        },
    };
    if status == 0 {
        return match into_value(body) {
            Ok(value) => Ok(value),
            Err(body) => Err(CmdError::NotW3C(body)),
        };
    }
    match (name_of_status(status), message) {
        (Some(name), Some(message)) => Err(map_error(name.to_owned(), message)),
        _ => Err(CmdError::NotW3C(body)),
    }
}

/// Reads the body of a response in the given dialect.
pub fn decode(body: Json, legacy: bool) -> (said: Result<Json, CmdError>)
    ensures
        match said {
            Ok(v) => spec_decode(body@, legacy) == Ok::<JsonValue, Failure>(v@),
            Err(e) => spec_decode(body@, legacy) == Err::<JsonValue, Failure>(e@),
        },
{
    if legacy {
        decode_legacy(body)
    } else {
        decode_w3c(body)
    }
}

} // verus!
