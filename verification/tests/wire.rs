use fantoccini::command::{Command, Locator, Strategy};
use fantoccini::element::{w3c_element_key, WebElement, WebWindow};
use fantoccini::error::CmdError;
use fantoccini::handshake::classify;
use fantoccini::json::{Json, Number};
use fantoccini::reply::{decode, map_error};
use fantoccini::wire::{encode, new_session, route, Control, HttpRequest, Routed, Verb};

fn wire_object(members: Vec<(&str, Json)>) -> Json {
    Json::Object(members.into_iter().map(|(k, v)| (k.to_string(), v)).collect())
}

fn wire_text(s: &str) -> Json {
    Json::String(s.to_string())
}

fn wire_number(n: u64) -> Json {
    Json::Number(Number::Unsigned(n))
}

fn wire_request(command: Command) -> HttpRequest {
    encode(command, "http://localhost:4444", "7f3a").expect("the command has a wire form")
}

#[test]
fn handshake_w3c_gives_w3c_session() {
    let answer = wire_object(vec![(
        "value",
        wire_object(vec![("sessionId", wire_text("S1")), ("capabilities", wire_object(vec![]))]),
    )]);
    let settled = classify(answer).unwrap();
    assert!(!settled.is_legacy);
    assert_eq!(settled.session_id, "S1");
}

#[test]
fn handshake_legacy_gives_legacy_session() {
    let answer = wire_object(vec![
        ("sessionId", wire_text("S2")),
        ("value", wire_object(vec![])),
        ("status", wire_number(0)),
    ]);
    let settled = classify(answer).unwrap();
    assert!(settled.is_legacy);
    assert_eq!(settled.session_id, "S2");
}

#[test]
fn handshake_prefers_w3c_shape() {
    let answer = wire_object(vec![
        ("sessionId", wire_text("outer")),
        ("status", wire_number(0)),
        (
            "value",
            wire_object(vec![("sessionId", wire_text("inner")), ("capabilities", Json::Null)]),
        ),
    ]);
    let settled = classify(answer).unwrap();
    assert!(!settled.is_legacy);
    assert_eq!(settled.session_id, "inner");
}

#[test]
fn handshake_of_other_shape_is_refused() {
    let no_capabilities =
        wire_object(vec![("value", wire_object(vec![("sessionId", wire_text("7f3a"))]))]);
    assert_eq!(
        classify(no_capabilities.duplicate()),
        Err(CmdError::NotW3C(no_capabilities))
    );

    let bad_status = wire_object(vec![
        ("sessionId", wire_text("b41c")),
        ("value", wire_object(vec![])),
        ("status", wire_number(13)),
    ]);
    assert_eq!(classify(bad_status.duplicate()), Err(CmdError::NotW3C(bad_status)));

    let id_not_text = wire_object(vec![(
        "value",
        wire_object(vec![("sessionId", wire_number(7)), ("capabilities", wire_object(vec![]))]),
    )]);
    assert_eq!(classify(id_not_text.duplicate()), Err(CmdError::NotW3C(id_not_text)));

    assert_eq!(classify(Json::Null), Err(CmdError::NotW3C(Json::Null)));
}

#[test]
fn handshake_request_carries_both_forms() {
    let caps = wire_object(vec![("browserName", wire_text("firefox"))]);
    let request = new_session("http://localhost:4444", &caps);
    assert_eq!(request.verb, Verb::Post);
    assert_eq!(request.url, "http://localhost:4444/session");
    assert_eq!(
        request.body,
        Some(wire_object(vec![
            ("capabilities", wire_object(vec![("alwaysMatch", caps.duplicate())])),
            ("desiredCapabilities", caps.duplicate()),
        ]))
    );
}

#[test]
fn find_is_post_element_with_locator() {
    let request = wire_request(Command::Find(Locator {
        using: Strategy::Css,
        value: "#x".to_string(),
    }));
    assert_eq!(request.verb, Verb::Post);
    assert_eq!(request.url, "http://localhost:4444/session/7f3a/element");
    assert_eq!(
        request.body,
        Some(wire_object(vec![("using", wire_text("css selector")), ("value", wire_text("#x"))]))
    );
}

#[test]
fn find_all_names_each_strategy() {
    let names = vec![
        (Strategy::Css, "css selector"),
        (Strategy::LinkText, "link text"),
        (Strategy::PartialLinkText, "partial link text"),
        (Strategy::TagName, "tag name"),
        (Strategy::XPath, "xpath"),
        (Strategy::Id, "id"),
        (Strategy::Name, "name"),
        (Strategy::ClassName, "class name"),
    ];
    for (using, name) in names {
        let request = wire_request(Command::FindAll(Locator { using, value: "v".to_string() }));
        assert_eq!(request.verb, Verb::Post);
        assert_eq!(request.url, "http://localhost:4444/session/7f3a/elements");
        assert_eq!(
            request.body,
            Some(wire_object(vec![("using", wire_text(name)), ("value", wire_text("v"))]))
        );
    }
}

#[test]
fn commands_without_body_use_their_paths() {
    let table = vec![
        (Command::GetUrl, Verb::Get, "/url"),
        (Command::GetWindow, Verb::Get, "/window"),
        (Command::Windows, Verb::Get, "/window/handles"),
        (Command::CloseWindow, Verb::Delete, "/window"),
        (Command::GetRect, Verb::Get, "/window/rect"),
        (Command::ActiveElement, Verb::Get, "/element/active"),
        (Command::Source, Verb::Get, "/source"),
        (Command::Screenshot, Verb::Get, "/screenshot"),
        (Command::GetCookies, Verb::Get, "/cookie"),
        (Command::Shutdown, Verb::Delete, ""),
        (
            Command::ElementScreenshot(WebElement("E-9".to_string())),
            Verb::Get,
            "/element/E-9/screenshot",
        ),
    ];
    for (command, verb, path) in table {
        let request = wire_request(command);
        assert_eq!(request.verb, verb);
        assert_eq!(request.url, format!("http://localhost:4444/session/7f3a{}", path));
        assert_eq!(request.body, None);
    }
}

#[test]
fn commands_with_empty_body_send_empty_object() {
    let table = vec![
        (Command::Back, "/back"),
        (Command::Refresh, "/refresh"),
        (Command::EnterParentFrame, "/frame/parent"),
    ];
    for (command, path) in table {
        let request = wire_request(command);
        assert_eq!(request.verb, Verb::Post);
        assert_eq!(request.url, format!("http://localhost:4444/session/7f3a{}", path));
        assert_eq!(request.body, Some(wire_object(vec![])));
    }
}

#[test]
fn commands_with_body_send_their_parameters() {
    let goto = wire_request(Command::Goto("http://ex.com/".to_string()));
    assert_eq!(goto.verb, Verb::Post);
    assert_eq!(goto.url, "http://localhost:4444/session/7f3a/url");
    assert_eq!(goto.body, Some(wire_object(vec![("url", wire_text("http://ex.com/"))])));

    let tab = wire_request(Command::NewWindow { as_tab: true });
    assert_eq!(tab.url, "http://localhost:4444/session/7f3a/window/new");
    assert_eq!(tab.body, Some(wire_object(vec![("type", wire_text("tab"))])));
    let window = wire_request(Command::NewWindow { as_tab: false });
    assert_eq!(window.body, Some(wire_object(vec![("type", wire_text("window"))])));

    let switch = wire_request(Command::SwitchToWindow(WebWindow("W-1".to_string())));
    assert_eq!(switch.verb, Verb::Post);
    assert_eq!(switch.url, "http://localhost:4444/session/7f3a/window");
    assert_eq!(switch.body, Some(wire_object(vec![("handle", wire_text("W-1"))])));

    let frame = wire_request(Command::EnterFrame { index: Some(3) });
    assert_eq!(frame.url, "http://localhost:4444/session/7f3a/frame");
    assert_eq!(frame.body, Some(wire_object(vec![("id", wire_number(3))])));
    let top = wire_request(Command::EnterFrame { index: None });
    assert_eq!(top.body, Some(wire_object(vec![("id", Json::Null)])));

    let script = wire_request(Command::Execute {
        script: "return 1".to_string(),
        args: vec![wire_number(4)],
    });
    assert_eq!(script.verb, Verb::Post);
    assert_eq!(script.url, "http://localhost:4444/session/7f3a/execute/sync");
    assert_eq!(
        script.body,
        Some(wire_object(vec![
            ("script", wire_text("return 1")),
            ("args", Json::Array(vec![wire_number(4)])),
        ]))
    );
    let later = wire_request(Command::ExecuteAsync { script: "f()".to_string(), args: vec![] });
    assert_eq!(later.url, "http://localhost:4444/session/7f3a/execute/async");
    assert_eq!(
        later.body,
        Some(wire_object(vec![("script", wire_text("f()")), ("args", Json::Array(vec![]))]))
    );
}

#[test]
fn set_rect_sends_null_for_omitted_axes() {
    let request = wire_request(Command::SetRect {
        x: None,
        y: None,
        width: Some(800),
        height: Some(-1),
    });
    assert_eq!(request.verb, Verb::Post);
    assert_eq!(request.url, "http://localhost:4444/session/7f3a/window/rect");
    assert_eq!(
        request.body,
        Some(wire_object(vec![
            ("x", Json::Null),
            ("y", Json::Null),
            ("width", wire_number(800)),
            ("height", Json::Number(Number::Signed(-1))),
        ]))
    );
}

#[test]
fn control_commands_have_no_wire_form() {
    assert_eq!(encode(Command::GetSessionId, "http://h", "S"), None);
    assert_eq!(encode(Command::SetUa("ua".to_string()), "http://h", "S"), None);
    assert_eq!(encode(Command::GetUa, "http://h", "S"), None);
    assert_eq!(encode(Command::Persist, "http://h", "S"), None);
}

#[test]
fn w3c_success_is_unwrapped() {
    let body = wire_object(vec![("value", wire_object(vec![(w3c_element_key(), wire_text("E-1"))]))]);
    assert_eq!(decode(body, false), Ok(wire_object(vec![(w3c_element_key(), wire_text("E-1"))])));
    let null = wire_object(vec![("value", Json::Null)]);
    assert_eq!(decode(null, false), Ok(Json::Null));
}

#[test]
fn w3c_error_under_value_is_mapped() {
    let body = wire_object(vec![(
        "value",
        wire_object(vec![("error", wire_text("no such element")), ("message", wire_text("…"))]),
    )]);
    assert_eq!(decode(body, false), Err(CmdError::NoSuchElement("…".to_string())));
}

#[test]
fn w3c_error_at_top_level_is_mapped() {
    let body = wire_object(vec![
        ("error", wire_text("javascript error")),
        ("message", wire_text("boom")),
        ("stacktrace", wire_text("at line 1")),
    ]);
    assert_eq!(decode(body, false), Err(CmdError::JavascriptError("boom".to_string())));
}

#[test]
fn w3c_body_of_other_shape_is_kept() {
    let no_value = wire_object(vec![("status", wire_number(0))]);
    assert_eq!(decode(no_value.duplicate(), false), Err(CmdError::NotW3C(no_value)));
    let array = Json::Array(vec![wire_number(1)]);
    assert_eq!(decode(array.duplicate(), false), Err(CmdError::NotW3C(array)));
}

#[test]
fn w3c_value_with_error_but_no_message_is_a_result() {
    let value = wire_object(vec![("error", wire_text("no such element"))]);
    let body = wire_object(vec![("value", value.duplicate())]);
    assert_eq!(decode(body, false), Ok(value));
}

#[test]
fn legacy_success_is_unwrapped() {
    let body = wire_object(vec![("status", wire_number(0)), ("value", wire_text("ok"))]);
    assert_eq!(decode(body, true), Ok(wire_text("ok")));
}

#[test]
fn legacy_status_is_mapped() {
    let table: Vec<(u64, CmdError)> = vec![
        (7, CmdError::NoSuchElement("m".to_string())),
        (8, CmdError::NoSuchFrame),
        (10, CmdError::StaleElementReference),
        (11, CmdError::ElementNotInteractable),
        (17, CmdError::JavascriptError("m".to_string())),
        (19, CmdError::InvalidSelector),
        (32, CmdError::InvalidSelector),
        (21, CmdError::Timeout),
        (23, CmdError::NoSuchWindow),
        (26, CmdError::UnexpectedAlertOpen),
        (13, CmdError::UnknownError("unknown error".to_string(), "m".to_string())),
        (6, CmdError::UnknownError("session not created".to_string(), "m".to_string())),
        (33, CmdError::UnknownError("session not created".to_string(), "m".to_string())),
        (9, CmdError::UnknownError("unknown command".to_string(), "m".to_string())),
        (12, CmdError::UnknownError("invalid element state".to_string(), "m".to_string())),
        (15, CmdError::UnknownError("element not selectable".to_string(), "m".to_string())),
        (24, CmdError::UnknownError("invalid cookie domain".to_string(), "m".to_string())),
        (25, CmdError::UnknownError("unable to set cookie".to_string(), "m".to_string())),
        (27, CmdError::UnknownError("no such alert".to_string(), "m".to_string())),
        (28, CmdError::UnknownError("script timeout".to_string(), "m".to_string())),
        (29, CmdError::UnknownError("invalid element coordinates".to_string(), "m".to_string())),
        (34, CmdError::UnknownError("move target out of bounds".to_string(), "m".to_string())),
    ];
    for (status, expected) in table {
        let body = wire_object(vec![
            ("status", wire_number(status)),
            ("value", wire_object(vec![("message", wire_text("m"))])),
        ]);
        assert_eq!(decode(body, true), Err(expected));
    }
}

#[test]
fn legacy_body_of_other_shape_is_kept() {
    let unknown_status = wire_object(vec![
        ("status", wire_number(99)),
        ("value", wire_object(vec![("message", wire_text("m"))])),
    ]);
    assert_eq!(decode(unknown_status.duplicate(), true), Err(CmdError::NotW3C(unknown_status)));

    let no_message =
        wire_object(vec![("status", wire_number(7)), ("value", wire_object(vec![]))]);
    assert_eq!(decode(no_message.duplicate(), true), Err(CmdError::NotW3C(no_message)));

    let no_status = wire_object(vec![("value", wire_text("ok"))]);
    assert_eq!(decode(no_status.duplicate(), true), Err(CmdError::NotW3C(no_status)));

    let no_value = wire_object(vec![("status", wire_number(0))]);
    assert_eq!(decode(no_value.duplicate(), true), Err(CmdError::NotW3C(no_value)));

    assert_eq!(decode(wire_text("x"), true), Err(CmdError::NotW3C(wire_text("x"))));
}

#[test]
fn error_names_map_to_their_kinds() {
    let m = || "msg".to_string();
    assert_eq!(map_error("no such element".to_string(), m()), CmdError::NoSuchElement(m()));
    assert_eq!(map_error("no such window".to_string(), m()), CmdError::NoSuchWindow);
    assert_eq!(map_error("no such frame".to_string(), m()), CmdError::NoSuchFrame);
    assert_eq!(
        map_error("stale element reference".to_string(), m()),
        CmdError::StaleElementReference
    );
    assert_eq!(
        map_error("element not interactable".to_string(), m()),
        CmdError::ElementNotInteractable
    );
    assert_eq!(map_error("invalid selector".to_string(), m()), CmdError::InvalidSelector);
    assert_eq!(map_error("invalid argument".to_string(), m()), CmdError::InvalidArgument);
    assert_eq!(map_error("javascript error".to_string(), m()), CmdError::JavascriptError(m()));
    assert_eq!(map_error("timeout".to_string(), m()), CmdError::Timeout);
    assert_eq!(map_error("unexpected alert open".to_string(), m()), CmdError::UnexpectedAlertOpen);
    assert_eq!(
        map_error("detached shadow root".to_string(), m()),
        CmdError::UnknownError("detached shadow root".to_string(), m())
    );
}

#[test]
fn route_tells_requests_from_what_the_session_sees_to() {
    assert_eq!(
        route(Command::GetUrl, "http://h", "S"),
        Routed::Wire(HttpRequest { verb: Verb::Get, url: "http://h/session/S/url".to_string(), body: None })
    );
    assert_eq!(
        route(Command::Shutdown, "http://h", "S"),
        Routed::Wire(HttpRequest { verb: Verb::Delete, url: "http://h/session/S".to_string(), body: None })
    );
    assert_eq!(route(Command::GetSessionId, "http://h", "S"), Routed::Control(Control::GetSessionId));
    assert_eq!(
        route(Command::SetUa("ua".to_string()), "http://h", "S"),
        Routed::Control(Control::SetUa("ua".to_string()))
    );
    assert_eq!(route(Command::GetUa, "http://h", "S"), Routed::Control(Control::GetUa));
    assert_eq!(route(Command::Persist, "http://h", "S"), Routed::Control(Control::Persist));
}
