//! A transport-free core for driving a browser over the WebDriver protocol.
//!
//! The crate holds the rules of a WebDriver client: how commands become HTTP
//! exchanges, how replies in the W3C and the legacy JSON Wire dialect are read,
//! how one session serialises the commands of many handles, and how a request
//! that rides on the browser's cookies is put together. It performs no I/O: a
//! caller sends what the crate describes and hands back what arrived.
//!
//! - [`json`] holds the JSON values that travel on the wire.
//! - [`command`] holds the commands, [`wire`] turns them into requests and [`reply`]
//!   reads the responses; [`handshake`] tells the server's dialect.
//! - [`session`] serves the commands of all handles in turn; [`history`] proves what
//!   holds of a session over any course of events.
//! - [`client`] is a handle's side of each command; [`fixup`] renames the element key
//!   in script arguments and results; [`raw`] builds requests that carry the browser's
//!   cookies.
//! - [`urls`] leans on the `url` and `http` crates, [`image`] on `base64`, [`raw`] on
//!   `cookie` and `http`, [`element`] on `webdriver`.

pub mod client;
pub mod collect;
pub mod command;
pub mod element;
pub mod error;
pub mod fixup;
pub mod handshake;
pub mod history;
pub mod image;
pub mod json;
pub mod raw;
pub mod reply;
pub mod session;
pub mod urls;
pub mod wire;
