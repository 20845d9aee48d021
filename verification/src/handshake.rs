//! Telling the server's dialect from its answer to the request that creates a session.

use crate::error::{CmdError, Failure};
use crate::json::{text_of, Json, JsonValue};
use crate::reply::legacy_status;
use vstd::prelude::*;

verus! {

/// What the handshake settles for the life of the session.
#[derive(Debug, PartialEq, Eq)]
pub struct Handshake {
    pub is_legacy: bool,
    pub session_id: String,
}

/// The session id of a W3C answer: `{"value": {"sessionId": .., "capabilities": ..}}`.
pub open spec fn w3c_session(res: JsonValue) -> Option<Seq<char>> {
    match res.get("value"@) {
        Some(value) => if value.get("capabilities"@) is Some {
            value.text_at("sessionId"@)
        } else {
            None
        },
        None => None,
    }
}

/// The session id of a legacy answer: `{"sessionId": .., "value": .., "status": 0}`.
pub open spec fn legacy_session(res: JsonValue) -> Option<Seq<char>> {
    if res.get("value"@) is Some && legacy_status(res) == Some(0u64) {
        res.text_at("sessionId"@)
    } else {
        None
    }
}

/// The dialect and the session id that the server's answer gives: an answer of the W3C
/// shape makes a W3C session, one of the legacy shape a legacy session, and any other
/// is refused with the answer as it came.
pub open spec fn spec_classify(res: JsonValue) -> Result<(bool, Seq<char>), Failure> {
    match w3c_session(res) {
        Some(id) => Ok((false, id)),
        None => match legacy_session(res) {
            Some(id) => Ok((true, id)),
            None => Err(Failure::NotW3C(res)),
        },
    }
}

/// The session id of an answer of the W3C shape.
fn session_of_w3c(res: &Json) -> (id: Option<String>)
    ensures
        text_of(id) == w3c_session(res@),
{
    match res.get("value") {
        Some(value) => match value.get("capabilities") {
            Some(_) => value.text_at("sessionId"),
            None => None,
        },
        None => None,
    }
}

/// The session id of an answer of the legacy shape.
fn session_of_legacy(res: &Json) -> (id: Option<String>)
    ensures
        text_of(id) == legacy_session(res@),
{
    let status = match res.get("status") {
        Some(status) => status.as_u64(),
        None => None,
    };
    match (res.get("value"), status) {
        (Some(_), Some(0)) => res.text_at("sessionId"),
        _ => None,
    }
}

/// Reads the dialect and the session id out of the server's answer to the request that
/// creates a session.
pub fn classify(res: Json) -> (settled: Result<Handshake, CmdError>)
    ensures
        match settled {
            Ok(h) => spec_classify(res@) == Ok::<(bool, Seq<char>), Failure>(
                (h.is_legacy, h.session_id@),
            ),
            Err(e) => spec_classify(res@) == Err::<(bool, Seq<char>), Failure>(e@),
        },
{
    match session_of_w3c(&res) {
        Some(session_id) => {
            return Ok(Handshake { is_legacy: false, session_id });
        },
        None => {},
    }
    match session_of_legacy(&res) {
        Some(session_id) => Ok(Handshake { is_legacy: true, session_id }),
        None => Err(CmdError::NotW3C(res)),
    }
}

} // verus!
