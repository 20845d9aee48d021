//! The commands that a handle can send to its session.

use crate::element::{WebElement, WebWindow};
use crate::json::{items_view, text_of, Json, JsonValue};
use vstd::prelude::*;

verus! {

/// The HTTP method of the `http` crate.
#[verifier::external_type_specification]
#[verifier::external_body]
pub struct ExMethod(http::Method);

/// How a locator's value is to be understood.
#[derive(Clone, Copy, Debug, PartialEq, Eq)]
pub enum Strategy {
    Css,
    LinkText,
    PartialLinkText,
    TagName,
    XPath,
    /// Legacy dialect only.
    Id,
    /// Legacy dialect only.
    Name,
    /// Legacy dialect only.
    ClassName,
}

/// What to look for on the page.
#[derive(Debug, PartialEq, Eq)]
pub struct Locator {
    pub using: Strategy,
    pub value: String,
}

/// The mathematical value of a [`Locator`].
pub struct LocatorView {
    pub using: Strategy,
    pub value: Seq<char>,
}

impl View for Locator {
    type V = LocatorView;

    open spec fn view(&self) -> LocatorView {
        LocatorView { using: self.using, value: self.value@ }
    }
}

impl Locator {
    /// A copy of the locator.
    pub fn duplicate(&self) -> (copy: Locator)
        ensures
            copy@ == self@,
    {
        Locator { using: self.using, value: self.value.clone() }
    }
}

/// An HTTP request that is to carry the browser's cookies: the method the caller chose,
/// the target, the `Cookie` header and, where one is set, the `User-Agent` header.
#[derive(Debug, PartialEq, Eq)]
pub struct RawRequest {
    pub method: http::Method,
    pub uri: String,
    pub cookie: String,
    pub user_agent: Option<String>,
}

/// The mathematical value of a [`RawRequest`].
pub struct RawRequestView {
    pub method: http::Method,
    pub uri: Seq<char>,
    pub cookie: Seq<char>,
    pub user_agent: Option<Seq<char>>,
}

impl View for RawRequest {
    type V = RawRequestView;

    open spec fn view(&self) -> RawRequestView {
        RawRequestView {
            method: self.method,
            uri: self.uri@,
            cookie: self.cookie@,
            user_agent: text_of(self.user_agent),
        }
    }
}

/// One operation of a session.
#[derive(Debug, PartialEq, Eq)]
pub enum Command {
    Goto(String),
    GetUrl,
    Back,
    Refresh,
    GetWindow,
    Windows,
    NewWindow { as_tab: bool },
    SwitchToWindow(WebWindow),
    CloseWindow,
    EnterFrame { index: Option<u16> },
    EnterParentFrame,
    SetRect { x: Option<i32>, y: Option<i32>, width: Option<i32>, height: Option<i32> },
    GetRect,
    Find(Locator),
    FindAll(Locator),
    ActiveElement,
    Source,
    Execute { script: String, args: Vec<Json> },
    ExecuteAsync { script: String, args: Vec<Json> },
    Screenshot,
    ElementScreenshot(WebElement),
    GetCookies,
    /// Asks the session for the id that the server gave it. No wire traffic.
    GetSessionId,
    /// Sets the `User-Agent` that later raw requests carry. No wire traffic.
    SetUa(String),
    /// Asks the session for the `User-Agent` that was set. No wire traffic.
    GetUa,
    /// Ends the session.
    Shutdown,
    /// Keeps the session alive after its last handle is gone. No wire traffic.
    Persist,
    /// Sends a request of the caller's own, in turn with the session's commands.
    Raw(RawRequest),
}

/// The mathematical value of a [`Command`].
pub enum CommandView {
    Goto(Seq<char>),
    GetUrl,
    Back,
    Refresh,
    GetWindow,
    Windows,
    NewWindow { as_tab: bool },
    SwitchToWindow(Seq<char>),
    CloseWindow,
    EnterFrame { index: Option<u16> },
    EnterParentFrame,
    SetRect { x: Option<i32>, y: Option<i32>, width: Option<i32>, height: Option<i32> },
    GetRect,
    Find(LocatorView),
    FindAll(LocatorView),
    ActiveElement,
    Source,
    Execute { script: Seq<char>, args: Seq<JsonValue> },
    ExecuteAsync { script: Seq<char>, args: Seq<JsonValue> },
    Screenshot,
    ElementScreenshot(Seq<char>),
    GetCookies,
    GetSessionId,
    SetUa(Seq<char>),
    GetUa,
    Shutdown,
    Persist,
    Raw(RawRequestView),
}

impl View for Command {
    type V = CommandView;

    open spec fn view(&self) -> CommandView {
        match self {
            Command::Goto(url) => CommandView::Goto(url@),
            Command::GetUrl => CommandView::GetUrl,
            Command::Back => CommandView::Back,
            Command::Refresh => CommandView::Refresh,
            Command::GetWindow => CommandView::GetWindow,
            Command::Windows => CommandView::Windows,
            Command::NewWindow { as_tab } => CommandView::NewWindow { as_tab: *as_tab },
            Command::SwitchToWindow(window) => CommandView::SwitchToWindow(window@),
            Command::CloseWindow => CommandView::CloseWindow,
            Command::EnterFrame { index } => CommandView::EnterFrame { index: *index },
            Command::EnterParentFrame => CommandView::EnterParentFrame,
            Command::SetRect { x, y, width, height } => CommandView::SetRect {
                x: *x,
                y: *y,
                width: *width,
                height: *height,
            },
            Command::GetRect => CommandView::GetRect,
            Command::Find(locator) => CommandView::Find(locator@),
            Command::FindAll(locator) => CommandView::FindAll(locator@),
            Command::ActiveElement => CommandView::ActiveElement,
            Command::Source => CommandView::Source,
            Command::Execute { script, args } => CommandView::Execute {
                script: script@,
                args: items_view(args@),
            },
            Command::ExecuteAsync { script, args } => CommandView::ExecuteAsync {
                script: script@,
                args: items_view(args@),
            },
            Command::Screenshot => CommandView::Screenshot,
            Command::ElementScreenshot(element) => CommandView::ElementScreenshot(element@),
            Command::GetCookies => CommandView::GetCookies,
            Command::GetSessionId => CommandView::GetSessionId,
            Command::SetUa(ua) => CommandView::SetUa(ua@),
            Command::GetUa => CommandView::GetUa,
            Command::Shutdown => CommandView::Shutdown,
            Command::Persist => CommandView::Persist,
            Command::Raw(request) => CommandView::Raw(request@),
        }
    }
}

} // verus!
