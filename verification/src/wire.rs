//! The wire form of commands: which HTTP request each one is, and what a response's
//! body says in either dialect.

use crate::command::{
    Command, CommandView, Locator, LocatorView, RawRequest, RawRequestView, Strategy,
};
use crate::json::{distinct, integer, items_view, members_view, Json, JsonValue, Number};
use vstd::prelude::*;
use vstd::string::StringExecFns;

verus! {

/// The content type of every body that goes to the server.
pub const CONTENT_TYPE: &'static str = "application/json; charset=utf-8";

/// The HTTP methods that WebDriver commands use.
#[derive(Clone, Copy, Debug, PartialEq, Eq)]
pub enum Verb {
    Get,
    Post,
    Delete,
}

/// An HTTP request to the WebDriver server. A body goes out as JSON, with the content
/// type `application/json; charset=utf-8`.
#[derive(Debug, PartialEq, Eq)]
pub struct HttpRequest {
    pub verb: Verb,
    pub url: String,
    pub body: Option<Json>,
}

/// The mathematical value of an [`HttpRequest`].
pub struct HttpRequestView {
    pub verb: Verb,
    pub url: Seq<char>,
    pub body: Option<JsonValue>,
}

/// The value of an optional body.
pub open spec fn body_view(body: Option<Json>) -> Option<JsonValue> {
    match body {
        Some(b) => Some(b@),
        None => None,
    }
}

impl View for HttpRequest {
    type V = HttpRequestView;

    open spec fn view(&self) -> HttpRequestView {
        HttpRequestView { verb: self.verb, url: self.url@, body: body_view(self.body) }
    }
}

/// What a command is on the wire, but for the session's part of the path.
pub struct Wire {
    pub verb: Verb,
    pub template: Seq<char>,
    pub body: Option<JsonValue>,
}

/// A command that the session sees to by itself: it answers it from what it knows, or,
/// for a raw request, sends what the caller built.
#[derive(Debug, PartialEq, Eq)]
pub enum Control {
    GetSessionId,
    SetUa(String),
    GetUa,
    Persist,
    Raw(RawRequest),
}

/// The mathematical value of a [`Control`].
pub enum ControlView {
    GetSessionId,
    SetUa(Seq<char>),
    GetUa,
    Persist,
    Raw(RawRequestView),
}

impl View for Control {
    type V = ControlView;

    open spec fn view(&self) -> ControlView {
        match self {
            Control::GetSessionId => ControlView::GetSessionId,
            Control::SetUa(ua) => ControlView::SetUa(ua@),
            Control::GetUa => ControlView::GetUa,
            Control::Persist => ControlView::Persist,
            Control::Raw(request) => ControlView::Raw(request@),
        }
    }
}

/// What a command is: a request, or something that the session sees to by itself.
pub enum Form {
    Wire(Wire),
    Control(ControlView),
}

/// What a command is to a session: a request to send, or something that the session
/// sees to by itself.
#[derive(Debug, PartialEq, Eq)]
pub enum Routed {
    Wire(HttpRequest),
    Control(Control),
}

/// The mathematical value of a [`Routed`].
pub enum RoutedView {
    Wire(HttpRequestView),
    Control(ControlView),
}

impl View for Routed {
    type V = RoutedView;

    open spec fn view(&self) -> RoutedView {
        match self {
            Routed::Wire(request) => RoutedView::Wire(request@),
            Routed::Control(control) => RoutedView::Control(control@),
        }
    }
}

/// The name that the wire gives to a locator strategy.
pub open spec fn strategy_name(strategy: Strategy) -> Seq<char> {
    match strategy {
        Strategy::Css => "css selector"@,
        Strategy::LinkText => "link text"@,
        Strategy::PartialLinkText => "partial link text"@,
        Strategy::TagName => "tag name"@,
        Strategy::XPath => "xpath"@,
        Strategy::Id => "id"@,
        Strategy::Name => "name"@,
        Strategy::ClassName => "class name"@,
    }
}

/// An object with no members.
pub open spec fn empty_body() -> JsonValue {
    JsonValue::Object(Seq::empty())
}

/// The body of `Find` and `FindAll`.
pub open spec fn locator_body(locator: LocatorView) -> JsonValue {
    JsonValue::Object(
        seq![
            ("using"@, JsonValue::String(strategy_name(locator.using))),
            ("value"@, JsonValue::String(locator.value)),
        ],
    )
}

/// The body of `Execute` and `ExecuteAsync`.
pub open spec fn script_body(script: Seq<char>, args: Seq<JsonValue>) -> JsonValue {
    JsonValue::Object(
        seq![("script"@, JsonValue::String(script)), ("args"@, JsonValue::Array(args))],
    )
}

/// A number of the rectangle, or `null` where the command names none.
pub open spec fn optional_number(n: Option<i32>) -> JsonValue {
    match n {
        Some(n) => JsonValue::Number(integer(n as int)),
        None => JsonValue::Null,
    }
}

/// The body of `SetRect`.
pub open spec fn rect_body(
    x: Option<i32>,
    y: Option<i32>,
    width: Option<i32>,
    height: Option<i32>,
) -> JsonValue {
    JsonValue::Object(
        seq![
            ("x"@, optional_number(x)),
            ("y"@, optional_number(y)),
            ("width"@, optional_number(width)),
            ("height"@, optional_number(height)),
        ],
    )
}

/// The body with the single member `key`.
pub open spec fn single(key: Seq<char>, value: JsonValue) -> JsonValue {
    JsonValue::Object(seq![(key, value)])
}

/// The frame that `EnterFrame` names: its index, or `null` for the top of the page.
pub open spec fn frame_id(index: Option<u16>) -> JsonValue {
    match index {
        Some(i) => JsonValue::Number(Number::Unsigned(i as u64)),
        None => JsonValue::Null,
    }
}

/// What each command is: a request, with its method, its path below the session and
/// its body; or something that the session sees to by itself.
pub open spec fn spec_form(command: CommandView) -> Form {
    match command {
        CommandView::Goto(url) => Form::Wire(
            Wire {
                verb: Verb::Post,
                template: "/url"@,
                body: Some(single("url"@, JsonValue::String(url))),
            },
        ),
        CommandView::GetUrl => Form::Wire(Wire { verb: Verb::Get, template: "/url"@, body: None }),
        CommandView::Back => Form::Wire(
            Wire { verb: Verb::Post, template: "/back"@, body: Some(empty_body()) },
        ),
        CommandView::Refresh => Form::Wire(
            Wire { verb: Verb::Post, template: "/refresh"@, body: Some(empty_body()) },
        ),
        CommandView::GetWindow => Form::Wire(Wire { verb: Verb::Get, template: "/window"@, body: None }),
        CommandView::Windows => Form::Wire(
            Wire { verb: Verb::Get, template: "/window/handles"@, body: None },
        ),
        CommandView::NewWindow { as_tab } => Form::Wire(
            Wire {
                verb: Verb::Post,
                template: "/window/new"@,
                body: Some(
                    single(
                        "type"@,
                        JsonValue::String(
                            if as_tab {
                                "tab"@
                            } else {
                                "window"@
                            },
                        ),
                    ),
                ),
            },
        ),
        CommandView::SwitchToWindow(handle) => Form::Wire(
            Wire {
                verb: Verb::Post,
                template: "/window"@,
                body: Some(single("handle"@, JsonValue::String(handle))),
            },
        ),
        CommandView::CloseWindow => Form::Wire(
            Wire { verb: Verb::Delete, template: "/window"@, body: None },
        ),
        CommandView::EnterFrame { index } => Form::Wire(
            Wire {
                verb: Verb::Post,
                template: "/frame"@,
                body: Some(single("id"@, frame_id(index))),
            },
        ),
        CommandView::EnterParentFrame => Form::Wire(
            Wire { verb: Verb::Post, template: "/frame/parent"@, body: Some(empty_body()) },
        ),
        CommandView::SetRect { x, y, width, height } => Form::Wire(
            Wire {
                verb: Verb::Post,
                template: "/window/rect"@,
                body: Some(rect_body(x, y, width, height)),
            },
        ),
        CommandView::GetRect => Form::Wire(
            Wire { verb: Verb::Get, template: "/window/rect"@, body: None },
        ),
        CommandView::Find(locator) => Form::Wire(
            Wire { verb: Verb::Post, template: "/element"@, body: Some(locator_body(locator)) },
        ),
        CommandView::FindAll(locator) => Form::Wire(
            Wire { verb: Verb::Post, template: "/elements"@, body: Some(locator_body(locator)) },
        ),
        CommandView::ActiveElement => Form::Wire(
            Wire { verb: Verb::Get, template: "/element/active"@, body: None },
        ),
        CommandView::Source => Form::Wire(Wire { verb: Verb::Get, template: "/source"@, body: None }),
        CommandView::Execute { script, args } => Form::Wire(
            Wire {
                verb: Verb::Post,
                template: "/execute/sync"@,
                body: Some(script_body(script, args)),
            },
        ),
        CommandView::ExecuteAsync { script, args } => Form::Wire(
            Wire {
                verb: Verb::Post,
                template: "/execute/async"@,
                body: Some(script_body(script, args)),
            },
        ),
        CommandView::Screenshot => Form::Wire(
            Wire { verb: Verb::Get, template: "/screenshot"@, body: None },
        ),
        CommandView::ElementScreenshot(id) => Form::Wire(
            Wire { verb: Verb::Get, template: "/element/"@ + id + "/screenshot"@, body: None },
        ),
        CommandView::GetCookies => Form::Wire(Wire { verb: Verb::Get, template: "/cookie"@, body: None }),
        CommandView::Shutdown => Form::Wire(
            Wire { verb: Verb::Delete, template: Seq::empty(), body: None },
        ),
        CommandView::GetSessionId => Form::Control(ControlView::GetSessionId),
        CommandView::SetUa(ua) => Form::Control(ControlView::SetUa(ua)),
        CommandView::GetUa => Form::Control(ControlView::GetUa),
        CommandView::Persist => Form::Control(ControlView::Persist),
        CommandView::Raw(request) => Form::Control(ControlView::Raw(request)),
    }
}

/// The method, the path below the session and the body of each command. The commands
/// that the session sees to by itself have none.
pub open spec fn spec_wire(command: CommandView) -> Option<Wire> {
    match spec_form(command) {
        Form::Wire(wire) => Some(wire),
        Form::Control(_) => None,
    }
}

/// The path of a session's own resource: the endpoint, `/session/`, the session's id.
pub open spec fn session_path(endpoint: Seq<char>, session_id: Seq<char>) -> Seq<char> {
    endpoint + "/session/"@ + session_id
}

/// The request that a command is, for the session `session_id` of the server at
/// `endpoint`.
pub open spec fn spec_encode(
    command: CommandView,
    endpoint: Seq<char>,
    session_id: Seq<char>,
) -> Option<HttpRequestView> {
    match spec_wire(command) {
        Some(wire) => Some(request_of(wire, endpoint, session_id)),
        None => None,
    }
}

/// The request with the given wire form, for the session `session_id` of the server at
/// `endpoint`.
pub open spec fn request_of(wire: Wire, endpoint: Seq<char>, session_id: Seq<char>) -> HttpRequestView {
    HttpRequestView {
        verb: wire.verb,
        url: session_path(endpoint, session_id) + wire.template,
        body: wire.body,
    }
}

/// What a command is to the session `session_id` of the server at `endpoint`: a request
/// to send, or something that the session sees to by itself.
pub open spec fn spec_route(command: CommandView, endpoint: Seq<char>, session_id: Seq<char>) -> RoutedView {
    match spec_form(command) {
        Form::Wire(wire) => RoutedView::Wire(request_of(wire, endpoint, session_id)),
        Form::Control(control) => RoutedView::Control(control),
    }
}

/// The body of the request that creates a session: the capabilities as the W3C dialect
/// asks for them and as the legacy dialect does, side by side.
pub open spec fn handshake_body(capabilities: JsonValue) -> JsonValue {
    JsonValue::Object(
        seq![
            ("capabilities"@, single("alwaysMatch"@, capabilities)),
            ("desiredCapabilities"@, capabilities),
        ],
    )
}

/// The request that creates a session at `endpoint`.
pub open spec fn spec_new_session(endpoint: Seq<char>, capabilities: JsonValue) -> HttpRequestView {
    HttpRequestView {
        verb: Verb::Post,
        url: endpoint + "/session"@,
        body: Some(handshake_body(capabilities)),
    }
}

/// Whether the JSON values that a command carries are well-formed.
pub open spec fn command_well_formed(command: CommandView) -> bool {
    match command {
        CommandView::Execute { args, .. } => JsonValue::Array(args).well_formed(),
        CommandView::ExecuteAsync { args, .. } => JsonValue::Array(args).well_formed(),
        _ => true,
    }
}

/// An object with one member is well-formed where the member's value is.
pub proof fn lemma_single_well_formed(key: Seq<char>, value: JsonValue)
    requires
        value.well_formed(),
    ensures
        single(key, value).well_formed(),
{
    let members = seq![(key, value)];
    assert(distinct(members));
    assert(forall|i: int| 0 <= i < members.len() ==> (#[trigger] members[i]).1.well_formed());
}

/// An object with two members of different names is well-formed where their values
/// are.
pub proof fn lemma_pair_well_formed(first: Seq<char>, a: JsonValue, second: Seq<char>, b: JsonValue)
    requires
        first != second,
        a.well_formed(),
        b.well_formed(),
    ensures
        JsonValue::Object(seq![(first, a), (second, b)]).well_formed(),
{
    let members = seq![(first, a), (second, b)];
    assert(distinct(members));
    assert(forall|i: int| 0 <= i < members.len() ==> (#[trigger] members[i]).1.well_formed());
}

/// The body of every request is well-formed JSON, as long as what the command carries
/// is: no object that goes out has two members of the same name.
pub proof fn lemma_wire_well_formed(command: CommandView)
    requires
        command_well_formed(command),
    ensures
        spec_wire(command) matches Some(wire) ==> (wire.body matches Some(body)
            ==> body.well_formed()),
{
    match command {
        CommandView::Goto(url) => {
            lemma_single_well_formed("url"@, JsonValue::String(url));
        },
        CommandView::NewWindow { as_tab } => {
            lemma_single_well_formed("type"@, JsonValue::String("tab"@));
            lemma_single_well_formed("type"@, JsonValue::String("window"@));
        },
        CommandView::SwitchToWindow(handle) => {
            lemma_single_well_formed("handle"@, JsonValue::String(handle));
        },
        CommandView::EnterFrame { index } => {
            lemma_single_well_formed("id"@, frame_id(index));
        },
        CommandView::SetRect { x, y, width, height } => {
            reveal_strlit("x");
            reveal_strlit("y");
            reveal_strlit("width");
            reveal_strlit("height");
            assert("x"@[0] != "y"@[0]);
            assert("x"@.len() == 1 && "y"@.len() == 1);
            assert("width"@.len() == 5 && "height"@.len() == 6);
            let members = seq![
                ("x"@, optional_number(x)),
                ("y"@, optional_number(y)),
                ("width"@, optional_number(width)),
                ("height"@, optional_number(height)),
            ];
            assert(distinct(members));
            assert(forall|i: int|
                0 <= i < members.len() ==> (#[trigger] members[i]).1.well_formed());
        },
        CommandView::Find(locator) => {
            reveal_strlit("using");
            reveal_strlit("value");
            assert("using"@[0] != "value"@[0]);
            lemma_pair_well_formed(
                "using"@,
                JsonValue::String(strategy_name(locator.using)),
                "value"@,
                JsonValue::String(locator.value),
            );
        },
        CommandView::FindAll(locator) => {
            reveal_strlit("using");
            reveal_strlit("value");
            assert("using"@[0] != "value"@[0]);
            lemma_pair_well_formed(
                "using"@,
                JsonValue::String(strategy_name(locator.using)),
                "value"@,
                JsonValue::String(locator.value),
            );
        },
        CommandView::Execute { script, args } => {
            reveal_strlit("script");
            reveal_strlit("args");
            assert("script"@.len() != "args"@.len());
            lemma_pair_well_formed(
                "script"@,
                JsonValue::String(script),
                "args"@,
                JsonValue::Array(args),
            );
        },
        CommandView::ExecuteAsync { script, args } => {
            reveal_strlit("script");
            reveal_strlit("args");
            assert("script"@.len() != "args"@.len());
            lemma_pair_well_formed(
                "script"@,
                JsonValue::String(script),
                "args"@,
                JsonValue::Array(args),
            );
        },
        _ => {
            assert(distinct(Seq::<(Seq<char>, JsonValue)>::empty()));
        },
    }
}

/// The body of the request that creates a session is well-formed JSON, as long as the
/// capabilities are.
pub proof fn lemma_handshake_well_formed(capabilities: JsonValue)
    requires
        capabilities.well_formed(),
    ensures
        handshake_body(capabilities).well_formed(),
{
    reveal_strlit("capabilities");
    reveal_strlit("desiredCapabilities");
    assert("capabilities"@.len() != "desiredCapabilities"@.len());
    lemma_single_well_formed("alwaysMatch"@, capabilities);
    lemma_pair_well_formed(
        "capabilities"@,
        single("alwaysMatch"@, capabilities),
        "desiredCapabilities"@,
        capabilities,
    );
}

/// The object with the single member `key`.
fn object_of_one(key: &str, value: Json) -> (body: Json)
    ensures
        body@ == single(key@, value@),
{
    let mut members: Vec<(String, Json)> = Vec::new();
    members.push((key.to_owned(), value));
    assert(members_view(members@) =~= seq![(key@, value@)]);
    Json::object(members)
}

/// The object with the two members `first` and `second`.
fn object_of_two(first: &str, a: Json, second: &str, b: Json) -> (body: Json)
    ensures
        body@ == JsonValue::Object(seq![(first@, a@), (second@, b@)]),
{
    let mut members: Vec<(String, Json)> = Vec::new();
    members.push((first.to_owned(), a));
    members.push((second.to_owned(), b));
    assert(members_view(members@) =~= seq![(first@, a@), (second@, b@)]);
    Json::object(members)
}

/// The object with no members.
fn no_members() -> (body: Json)
    ensures
        body@ == empty_body(),
{
    let members: Vec<(String, Json)> = Vec::new();
    assert(members_view(members@) =~= Seq::empty());
    Json::object(members)
}

/// A number of the rectangle, or `null`.
fn number_or_null(n: Option<i32>) -> (value: Json)
    ensures
        value@ == optional_number(n),
{
    match n {
        Some(n) => Json::Number(Number::from_i64(n as i64)),
        None => Json::Null,
    }
}

/// The name that the wire gives to a locator strategy.
fn name_of(strategy: Strategy) -> (name: &'static str)
    ensures
        name@ == strategy_name(strategy),
{
    match strategy {
        Strategy::Css => "css selector",
        Strategy::LinkText => "link text",
        Strategy::PartialLinkText => "partial link text",
        Strategy::TagName => "tag name",
        Strategy::XPath => "xpath",
        Strategy::Id => "id",
        Strategy::Name => "name",
        Strategy::ClassName => "class name",
    }
}

/// The body of `Find` and `FindAll`.
fn body_of_locator(locator: Locator) -> (body: Json)
    ensures
        body@ == locator_body(locator@),
{
    object_of_two(
        "using",
        Json::text(name_of(locator.using)),
        "value",
        Json::String(locator.value),
    )
}

/// The body of `Execute` and `ExecuteAsync`.
fn body_of_script(script: String, args: Vec<Json>) -> (body: Json)
    ensures
        body@ == script_body(script@, items_view(args@)),
{
    object_of_two("script", Json::String(script), "args", Json::array(args))
}

/// The body of `SetRect`.
fn body_of_rect(x: Option<i32>, y: Option<i32>, width: Option<i32>, height: Option<i32>) -> (body:
    Json)
    ensures
        body@ == rect_body(x, y, width, height),
{
    let mut members: Vec<(String, Json)> = Vec::new();
    members.push(("x".to_owned(), number_or_null(x)));
    members.push(("y".to_owned(), number_or_null(y)));
    members.push(("width".to_owned(), number_or_null(width)));
    members.push(("height".to_owned(), number_or_null(height)));
    assert(members_view(members@) =~= seq![
        ("x"@, optional_number(x)),
        ("y"@, optional_number(y)),
        ("width"@, optional_number(width)),
        ("height"@, optional_number(height)),
    ]);
    Json::object(members)
}

/// The request to `base` followed by `template`.
fn request(verb: Verb, base: String, template: &str, body: Option<Json>) -> (made: HttpRequest)
    ensures
        made@ == (HttpRequestView { verb, url: base@ + template@, body: body_view(body) }),
{
    let mut url = base;
    url.append(template);
    HttpRequest { verb, url, body }
}

/// Tells what `command` is to the session `session_id` of the server at `endpoint`:
/// makes its request, or hands it on as something that the session sees to by itself.
pub fn route(command: Command, endpoint: &str, session_id: &str) -> (routed: Routed)
    ensures
        routed@ == spec_route(command@, endpoint@, session_id@),
{
    let mut base = endpoint.to_owned();
    base.append("/session/");
    base.append(session_id);
    match command {
        Command::Goto(url) => Routed::Wire(
            request(Verb::Post, base, "/url", Some(object_of_one("url", Json::String(url)))),
        ),
        Command::GetUrl => Routed::Wire(request(Verb::Get, base, "/url", None)),
        Command::Back => Routed::Wire(request(Verb::Post, base, "/back", Some(no_members()))),
        Command::Refresh => Routed::Wire(request(Verb::Post, base, "/refresh", Some(no_members()))),
        Command::GetWindow => Routed::Wire(request(Verb::Get, base, "/window", None)),
        Command::Windows => Routed::Wire(request(Verb::Get, base, "/window/handles", None)),
        Command::NewWindow { as_tab } => {
            let hint = if as_tab {
                "tab"
            } else {
                "window"
            };
            Routed::Wire(
                request(
                    Verb::Post,
                    base,
                    "/window/new",
                    Some(object_of_one("type", Json::text(hint))),
                ),
            )
        },
        Command::SwitchToWindow(window) => Routed::Wire(
            request(
                Verb::Post,
                base,
                "/window",
                Some(object_of_one("handle", Json::String(window.0))),
            ),
        ),
        Command::CloseWindow => Routed::Wire(request(Verb::Delete, base, "/window", None)),
        Command::EnterFrame { index } => {
            let id = match index {
                Some(i) => Json::Number(Number::Unsigned(i as u64)),
                None => Json::Null,
            };
            Routed::Wire(request(Verb::Post, base, "/frame", Some(object_of_one("id", id))))
        },
        Command::EnterParentFrame => Routed::Wire(
            request(Verb::Post, base, "/frame/parent", Some(no_members())),
        ),
        Command::SetRect { x, y, width, height } => Routed::Wire(
            request(Verb::Post, base, "/window/rect", Some(body_of_rect(x, y, width, height))),
        ),
        Command::GetRect => Routed::Wire(request(Verb::Get, base, "/window/rect", None)),
        Command::Find(locator) => Routed::Wire(
            request(Verb::Post, base, "/element", Some(body_of_locator(locator))),
        ),
        Command::FindAll(locator) => Routed::Wire(
            request(Verb::Post, base, "/elements", Some(body_of_locator(locator))),
        ),
        Command::ActiveElement => Routed::Wire(request(Verb::Get, base, "/element/active", None)),
        Command::Source => Routed::Wire(request(Verb::Get, base, "/source", None)),
        Command::Execute { script, args } => Routed::Wire(
            request(Verb::Post, base, "/execute/sync", Some(body_of_script(script, args))),
        ),
        Command::ExecuteAsync { script, args } => Routed::Wire(
            request(Verb::Post, base, "/execute/async", Some(body_of_script(script, args))),
        ),
        Command::Screenshot => Routed::Wire(request(Verb::Get, base, "/screenshot", None)),
        Command::ElementScreenshot(element) => {
            let mut template = "/element/".to_owned();
            template.append(element.0.as_str());
            template.append("/screenshot");
            let made = request(Verb::Get, base, template.as_str(), None);
            Routed::Wire(made)
        },
        Command::GetCookies => Routed::Wire(request(Verb::Get, base, "/cookie", None)),
        Command::Shutdown => {
            let made = request(Verb::Delete, base, "", None);
            proof {
                reveal_strlit("");
                assert(base@ + ""@ =~= base@ + Seq::<char>::empty());
            }
            Routed::Wire(made)
        },
        Command::GetSessionId => Routed::Control(Control::GetSessionId),
        Command::SetUa(ua) => Routed::Control(Control::SetUa(ua)),
        Command::GetUa => Routed::Control(Control::GetUa),
        Command::Persist => Routed::Control(Control::Persist),
        Command::Raw(request) => Routed::Control(Control::Raw(request)),
    }
}

/// Makes the request that `command` is, for the session `session_id` of the server at
/// `endpoint`; nothing for a command that the session sees to by itself.
pub fn encode(command: Command, endpoint: &str, session_id: &str) -> (made: Option<HttpRequest>)
    ensures
        match made {
            Some(r) => spec_encode(command@, endpoint@, session_id@) == Some(r@),
            None => spec_encode(command@, endpoint@, session_id@) is None,
        },
{
    match route(command, endpoint, session_id) {
        Routed::Wire(request) => Some(request),
        Routed::Control(_) => None,
    }
}

/// Makes the request that creates a session at `endpoint` with the given capabilities.
pub fn new_session(endpoint: &str, capabilities: &Json) -> (made: HttpRequest)
    ensures
        made@ == spec_new_session(endpoint@, capabilities@),
{
    let always = object_of_one("alwaysMatch", capabilities.duplicate());
    let body = object_of_two("capabilities", always, "desiredCapabilities", capabilities.duplicate());
    request(Verb::Post, endpoint.to_owned(), "/session", Some(body))
}

} // verus!
