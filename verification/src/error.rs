//! The ways in which a command can fail.

use crate::json::{Json, JsonValue};
use crate::urls::UrlError;
use vstd::prelude::*;

verus! {

/// The error type of the `base64` crate.
#[verifier::external_type_specification]
#[verifier::external_body]
pub struct ExDecodeError(base64::DecodeError);

/// Why a command did not give a result.
#[derive(Debug, PartialEq, Eq)]
pub enum CmdError {
    /// The handshake that creates the session failed.
    NewSessionError,
    /// The connection to the server failed, or the session's task is gone.
    Lost,
    /// A reply was JSON, but not of the shape the protocol gives it; the value is kept.
    NotW3C(Json),
    /// The server reported `no such element`; the text is its message.
    NoSuchElement(String),
    NoSuchWindow,
    NoSuchFrame,
    StaleElementReference,
    ElementNotInteractable,
    InvalidSelector,
    InvalidArgument,
    /// The server reported `javascript error`; the text is its message.
    JavascriptError(String),
    Timeout,
    UnexpectedAlertOpen,
    /// The server reported an error of another name: the name, then its message.
    UnknownError(String, String),
    /// A URL could not be parsed or resolved, or is none that a request can go to.
    InvalidUrl(UrlError),
    /// A screenshot was not valid base64.
    ImageDecodeError(base64::DecodeError),
    /// The command was submitted after the session had shut down.
    SessionClosed,
}

/// The mathematical value of a [`CmdError`]. What the `url` and `base64` crates say of
/// a failure, and which of the two ways a URL was refused, is not part of it.
pub enum Failure {
    NewSessionError,
    Lost,
    NotW3C(JsonValue),
    NoSuchElement(Seq<char>),
    NoSuchWindow,
    NoSuchFrame,
    StaleElementReference,
    ElementNotInteractable,
    InvalidSelector,
    InvalidArgument,
    JavascriptError(Seq<char>),
    Timeout,
    UnexpectedAlertOpen,
    UnknownError(Seq<char>, Seq<char>),
    InvalidUrl,
    ImageDecodeError,
    SessionClosed,
}

impl View for CmdError {
    type V = Failure;

    open spec fn view(&self) -> Failure {
        match self {
            CmdError::NewSessionError => Failure::NewSessionError,
            CmdError::Lost => Failure::Lost,
            CmdError::NotW3C(value) => Failure::NotW3C(value@),
            CmdError::NoSuchElement(message) => Failure::NoSuchElement(message@),
            CmdError::NoSuchWindow => Failure::NoSuchWindow,
            CmdError::NoSuchFrame => Failure::NoSuchFrame,
            CmdError::StaleElementReference => Failure::StaleElementReference,
            CmdError::ElementNotInteractable => Failure::ElementNotInteractable,
            CmdError::InvalidSelector => Failure::InvalidSelector,
            CmdError::InvalidArgument => Failure::InvalidArgument,
            CmdError::JavascriptError(message) => Failure::JavascriptError(message@),
            CmdError::Timeout => Failure::Timeout,
            CmdError::UnexpectedAlertOpen => Failure::UnexpectedAlertOpen,
            CmdError::UnknownError(name, message) => Failure::UnknownError(name@, message@),
            CmdError::InvalidUrl(_) => Failure::InvalidUrl,
            CmdError::ImageDecodeError(_) => Failure::ImageDecodeError,
            CmdError::SessionClosed => Failure::SessionClosed,
        }
    }
}

/// The view of an answer: of the result, or of the failure.
pub open spec fn reply_view(reply: Result<Json, CmdError>) -> Result<JsonValue, Failure> {
    match reply {
        Ok(v) => Ok(v@),
        Err(e) => Err(e@),
    }
}

} // verus!
