use fantoccini::client::Client;
use fantoccini::command::Command;
use fantoccini::element::{Element, Form, NewWindowResponse, w3c_element_key, WebElement, WebWindow};
use fantoccini::error::CmdError;
use fantoccini::json::{Json, Number};
use fantoccini::urls::{Url, UrlError};

fn reply_object(members: Vec<(&str, Json)>) -> Json {
    Json::Object(members.into_iter().map(|(k, v)| (k.to_string(), v)).collect())
}

fn reply_text(s: &str) -> Json {
    Json::String(s.to_string())
}

fn reply_number(n: u64) -> Json {
    Json::Number(Number::Unsigned(n))
}

fn w3c() -> Client {
    Client::for_dialect(false)
}

fn legacy() -> Client {
    Client::for_dialect(true)
}

#[test]
fn client_knows_its_dialect() {
    assert!(!w3c().is_legacy());
    assert!(legacy().is_legacy());
}

#[test]
fn find_reads_the_w3c_element() {
    let reply = reply_object(vec![(w3c_element_key(), reply_text("E-1"))]);
    let found = w3c().find(reply).unwrap();
    assert_eq!(found.element, WebElement("E-1".to_string()));
    assert_eq!(found.client, w3c());
}

#[test]
fn parse_lookup_uses_the_dialect_key() {
    let under_w3c = || reply_object(vec![(w3c_element_key(), reply_text("E-1"))]);
    let under_legacy = || reply_object(vec![("ELEMENT", reply_text("E-1"))]);
    assert_eq!(w3c().parse_lookup(under_w3c()), Ok(WebElement("E-1".to_string())));
    assert_eq!(legacy().parse_lookup(under_legacy()), Ok(WebElement("E-1".to_string())));
    assert_eq!(w3c().parse_lookup(under_legacy()), Err(CmdError::NotW3C(under_legacy())));
    assert_eq!(legacy().parse_lookup(under_w3c()), Err(CmdError::NotW3C(under_w3c())));
}

#[test]
fn parse_lookup_keeps_what_it_refuses() {
    let id_not_text = || {
        reply_object(vec![
            ("other", Json::Bool(true)),
            (w3c_element_key(), reply_number(5)),
            ("more", Json::Null),
        ])
    };
    assert_eq!(w3c().parse_lookup(id_not_text()), Err(CmdError::NotW3C(id_not_text())));
    assert_eq!(w3c().parse_lookup(Json::Null), Err(CmdError::NotW3C(Json::Null)));
    assert_eq!(
        w3c().parse_lookup(Json::Array(vec![])),
        Err(CmdError::NotW3C(Json::Array(vec![])))
    );
    assert_eq!(
        w3c().parse_lookup(reply_object(vec![])),
        Err(CmdError::NotW3C(reply_object(vec![])))
    );
}

#[test]
fn parse_lookup_all_reads_every_element_in_order() {
    let reply = Json::Array(vec![
        reply_object(vec![(w3c_element_key(), reply_text("E-1"))]),
        reply_object(vec![(w3c_element_key(), reply_text("E-2"))]),
        reply_object(vec![(w3c_element_key(), reply_text("E-3"))]),
    ]);
    assert_eq!(
        w3c().parse_lookup_all(reply),
        Ok(vec![
            WebElement("E-1".to_string()),
            WebElement("E-2".to_string()),
            WebElement("E-3".to_string()),
        ])
    );
    assert_eq!(w3c().parse_lookup_all(Json::Array(vec![])), Ok(vec![]));
}

#[test]
fn parse_lookup_all_fails_with_the_first_bad_item() {
    let reply = Json::Array(vec![
        reply_object(vec![(w3c_element_key(), reply_text("E-1"))]),
        reply_text("first bad"),
        reply_text("second bad"),
    ]);
    assert_eq!(
        w3c().parse_lookup_all(reply),
        Err(CmdError::NotW3C(reply_text("first bad")))
    );
    assert_eq!(
        w3c().parse_lookup_all(reply_object(vec![])),
        Err(CmdError::NotW3C(reply_object(vec![])))
    );
}

#[test]
fn find_all_wraps_each_element_with_the_handle() {
    let reply = Json::Array(vec![
        reply_object(vec![("ELEMENT", reply_text("E-1"))]),
        reply_object(vec![("ELEMENT", reply_text("E-2"))]),
    ]);
    assert_eq!(
        legacy().find_all(reply),
        Ok(vec![
            Element { client: legacy(), element: WebElement("E-1".to_string()) },
            Element { client: legacy(), element: WebElement("E-2".to_string()) },
        ])
    );
    assert_eq!(legacy().find_all(Json::Null), Err(CmdError::NotW3C(Json::Null)));
}

#[test]
fn active_element_and_form_read_like_find() {
    let reply = || reply_object(vec![(w3c_element_key(), reply_text("E-7"))]);
    assert_eq!(
        w3c().active_element(reply()),
        Ok(Element { client: w3c(), element: WebElement("E-7".to_string()) })
    );
    assert_eq!(
        w3c().form(reply()),
        Ok(Form { client: w3c(), form: WebElement("E-7".to_string()) })
    );
    assert_eq!(w3c().form(Json::Null), Err(CmdError::NotW3C(Json::Null)));
    assert_eq!(w3c().active_element(Json::Null), Err(CmdError::NotW3C(Json::Null)));
}

#[test]
fn execute_renames_element_key_for_legacy() {
    let element = WebElement("E-2".to_string());
    let command = legacy().execute("return arguments[0]", vec![element.to_json()]);
    assert_eq!(
        command,
        Command::Execute {
            script: "return arguments[0]".to_string(),
            args: vec![reply_object(vec![("ELEMENT", reply_text("E-2"))])],
        }
    );
}

#[test]
fn execute_keeps_element_key_for_w3c() {
    let element = WebElement("E-2".to_string());
    let command = w3c().execute_async("done()", vec![element.to_json(), reply_number(1)]);
    assert_eq!(
        command,
        Command::ExecuteAsync {
            script: "done()".to_string(),
            args: vec![reply_object(vec![(w3c_element_key(), reply_text("E-2"))]), reply_number(1)],
        }
    );
}

#[test]
fn fixup_elements_renames_the_key_in_every_object() {
    let mut args = vec![
        reply_text(w3c_element_key()),
        reply_object(vec![("a", Json::Null), (w3c_element_key(), reply_text("E-1")), ("b", Json::Null)]),
        reply_object(vec![("ELEMENT", reply_text("old")), (w3c_element_key(), reply_text("new"))]),
        reply_object(vec![("x", Json::Null)]),
        Json::Array(vec![reply_object(vec![(w3c_element_key(), reply_text("E-2"))])]),
        reply_object(vec![(
            "list",
            Json::Array(vec![
                reply_number(1),
                reply_object(vec![("inner", reply_object(vec![(w3c_element_key(), reply_text("E-3"))]))]),
            ]),
        )]),
    ];
    legacy().fixup_elements(&mut args);
    assert_eq!(
        args,
        vec![
            reply_text(w3c_element_key()),
            reply_object(vec![("a", Json::Null), ("b", Json::Null), ("ELEMENT", reply_text("E-1"))]),
            reply_object(vec![("ELEMENT", reply_text("new"))]),
            reply_object(vec![("x", Json::Null)]),
            Json::Array(vec![reply_object(vec![("ELEMENT", reply_text("E-2"))])]),
            reply_object(vec![(
                "list",
                Json::Array(vec![
                    reply_number(1),
                    reply_object(vec![("inner", reply_object(vec![("ELEMENT", reply_text("E-3"))]))]),
                ]),
            )]),
        ]
    );
}

#[test]
fn execute_renames_a_nested_element_for_legacy() {
    let nested = Json::Array(vec![WebElement("E-2".to_string()).to_json()]);
    assert_eq!(
        legacy().execute("f()", vec![nested.duplicate()]),
        Command::Execute {
            script: "f()".to_string(),
            args: vec![Json::Array(vec![reply_object(vec![("ELEMENT", reply_text("E-2"))])])],
        }
    );
    assert_eq!(
        w3c().execute("f()", vec![nested.duplicate()]),
        Command::Execute { script: "f()".to_string(), args: vec![nested] }
    );
}

#[test]
fn fixup_elements_leaves_w3c_arguments_alone() {
    let mut args = vec![reply_object(vec![(w3c_element_key(), reply_text("E-1"))]), Json::Null];
    w3c().fixup_elements(&mut args);
    assert_eq!(args, vec![reply_object(vec![(w3c_element_key(), reply_text("E-1"))]), Json::Null]);
}

#[test]
fn element_round_trip_keeps_the_id() {
    for client in [w3c(), legacy()] {
        for id in ["E-1", "", "élément 3", "a/b?c"] {
            let mut args = vec![WebElement(id.to_string()).to_json()];
            client.fixup_elements(&mut args);
            let back = client.parse_lookup(args.pop().unwrap());
            assert_eq!(back, Ok(WebElement(id.to_string())));
        }
    }
}

#[test]
fn window_reads_a_string() {
    assert_eq!(w3c().window(reply_text("W-1")), Ok(WebWindow("W-1".to_string())));
    assert_eq!(w3c().window(reply_number(1)), Err(CmdError::NotW3C(reply_number(1))));
}

#[test]
fn windows_reads_strings_in_order() {
    let reply = Json::Array(vec![reply_text("W-1"), reply_text("W-2")]);
    assert_eq!(
        w3c().windows(reply),
        Ok(vec![WebWindow("W-1".to_string()), WebWindow("W-2".to_string())])
    );
    let bad = Json::Array(vec![reply_text("W-1"), reply_number(2), Json::Null]);
    assert_eq!(w3c().windows(bad), Err(CmdError::NotW3C(reply_number(2))));
    assert_eq!(w3c().windows(reply_text("W-1")), Err(CmdError::NotW3C(reply_text("W-1"))));
}

#[test]
fn new_window_reads_handle_and_type() {
    let reply = reply_object(vec![("handle", reply_text("W-3")), ("type", reply_text("tab"))]);
    assert_eq!(
        w3c().new_window(reply),
        Ok(NewWindowResponse { handle: "W-3".to_string(), typ: "tab".to_string() })
    );
}

#[test]
fn new_window_failure_holds_the_whole_reply() {
    let replies = vec![
        reply_object(vec![("type", reply_text("tab"))]),
        reply_object(vec![("handle", reply_number(1)), ("type", reply_text("tab"))]),
        reply_object(vec![("handle", reply_text("W1")), ("type", reply_number(7))]),
        reply_object(vec![
            ("handle", reply_text("W-3")),
            ("type", Json::Null),
            ("extra", Json::Bool(true)),
        ]),
        reply_object(vec![]),
        Json::Null,
        reply_text("W1"),
    ];
    for reply in replies {
        assert_eq!(w3c().new_window(reply.duplicate()), Err(CmdError::NotW3C(reply)));
    }
}

#[test]
fn get_window_rect_reads_four_numbers() {
    let reply = reply_object(vec![
        ("height", reply_number(600)),
        ("width", reply_number(800)),
        ("y", reply_number(20)),
        ("x", reply_number(10)),
    ]);
    assert_eq!(w3c().get_window_rect(reply), Ok((10, 20, 800, 600)));
}

#[test]
fn get_window_size_and_position_pick_their_half() {
    let reply = || {
        reply_object(vec![
            ("x", reply_number(10)),
            ("y", reply_number(20)),
            ("width", reply_number(800)),
            ("height", reply_number(600)),
        ])
    };
    assert_eq!(w3c().get_window_size(reply()), Ok((800, 600)));
    assert_eq!(w3c().get_window_position(reply()), Ok((10, 20)));
    assert_eq!(w3c().get_window_size(Json::Null), Err(CmdError::NotW3C(Json::Null)));
    assert_eq!(w3c().get_window_position(Json::Null), Err(CmdError::NotW3C(Json::Null)));
}

#[test]
fn get_window_rect_failure_holds_the_whole_reply() {
    let replies = vec![
        reply_object(vec![
            ("x", reply_number(1)),
            ("y", reply_text("a")),
            ("width", reply_number(3)),
            ("height", reply_number(4)),
        ]),
        reply_object(vec![
            ("x", reply_number(10)),
            ("y", Json::Number(Number::Signed(-5))),
            ("width", reply_number(800)),
            ("height", reply_number(600)),
        ]),
        reply_object(vec![("y", reply_number(1))]),
        reply_object(vec![
            ("x", reply_number(1)),
            ("y", reply_number(2)),
            ("width", reply_number(3)),
            ("height", Json::Number(Number::Float(0x4010000000000000))),
        ]),
        reply_object(vec![("x", reply_number(1)), ("y", reply_number(2)), ("height", reply_number(4))]),
        Json::Array(vec![]),
        Json::Null,
    ];
    for reply in replies {
        assert_eq!(w3c().get_window_rect(reply.duplicate()), Err(CmdError::NotW3C(reply.duplicate())));
        assert_eq!(w3c().get_window_size(reply.duplicate()), Err(CmdError::NotW3C(reply.duplicate())));
        assert_eq!(w3c().get_window_position(reply.duplicate()), Err(CmdError::NotW3C(reply)));
    }
}

#[test]
fn set_window_commands_cast_to_i32() {
    assert_eq!(
        w3c().set_window_rect(1, 2, 3, 4),
        Command::SetRect { x: Some(1), y: Some(2), width: Some(3), height: Some(4) }
    );
    assert_eq!(
        w3c().set_window_rect(u32::MAX, 2_147_483_648, 2_147_483_647, 0),
        Command::SetRect {
            x: Some(-1),
            y: Some(i32::MIN),
            width: Some(i32::MAX),
            height: Some(0),
        }
    );
    assert_eq!(
        w3c().set_window_size(800, 600),
        Command::SetRect { x: None, y: None, width: Some(800), height: Some(600) }
    );
    assert_eq!(
        w3c().set_window_position(10, 20),
        Command::SetRect { x: Some(10), y: Some(20), width: None, height: None }
    );
}

#[test]
fn plain_commands_are_built() {
    assert_eq!(w3c().set_ua("agent".to_string()), Command::SetUa("agent".to_string()));
    assert_eq!(w3c().close(), Command::Shutdown);
    assert_eq!(w3c().persist(), Command::Persist);
    assert_eq!(w3c().back(), Command::Back);
    assert_eq!(w3c().refresh(), Command::Refresh);
    assert_eq!(w3c().close_window(), Command::CloseWindow);
    assert_eq!(
        w3c().switch_to_window(WebWindow("W-1".to_string())),
        Command::SwitchToWindow(WebWindow("W-1".to_string()))
    );
}

#[test]
fn enter_frame_hands_the_handle_back() {
    assert_eq!(
        legacy().enter_frame(Some(2)),
        (legacy(), Command::EnterFrame { index: Some(2) })
    );
    assert_eq!(w3c().enter_frame(None), (w3c(), Command::EnterFrame { index: None }));
    assert_eq!(legacy().enter_parent_frame(), (legacy(), Command::EnterParentFrame));
}

#[test]
fn session_id_and_ua_read_string_or_null() {
    assert_eq!(w3c().session_id(reply_text("7f3a")), Ok(Some("7f3a".to_string())));
    assert_eq!(w3c().session_id(Json::Null), Ok(None));
    assert_eq!(w3c().session_id(reply_number(1)), Err(CmdError::NotW3C(reply_number(1))));
    assert_eq!(w3c().get_ua(reply_text("agent")), Ok(Some("agent".to_string())));
    assert_eq!(w3c().get_ua(Json::Null), Ok(None));
    assert_eq!(w3c().get_ua(Json::Bool(false)), Err(CmdError::NotW3C(Json::Bool(false))));
}

#[test]
fn source_reads_a_string() {
    assert_eq!(w3c().source(reply_text("<html></html>")), Ok("<html></html>".to_string()));
    assert_eq!(w3c().source(Json::Null), Err(CmdError::NotW3C(Json::Null)));
}

#[test]
fn current_url_parses_the_reply() {
    let url = w3c().current_url(reply_text("http://ex.com/a")).unwrap();
    assert_eq!(url.as_str(), "http://ex.com/a");
    let normalized = w3c().current_url(reply_text("HTTP://EX.com")).unwrap();
    assert_eq!(normalized.as_str(), "http://ex.com/");
    assert_eq!(
        w3c().current_url(Json::Bool(true)),
        Err(CmdError::NotW3C(Json::Bool(true)))
    );
    assert!(matches!(
        w3c().current_url(reply_text("not a url")),
        Err(CmdError::InvalidUrl(_))
    ));
}

#[test]
fn empty_current_url_is_about_blank() {
    let url = w3c().current_url(reply_text("")).unwrap();
    assert_eq!(url.as_str(), "about:blank");
}

#[test]
fn goto_resolves_against_the_current_url() {
    assert_eq!(
        w3c().goto(Ok(reply_text("http://ex.com/a/b")), "c?d=1"),
        Ok(Command::Goto("http://ex.com/a/c?d=1".to_string()))
    );
    assert_eq!(
        w3c().goto(Ok(reply_text("http://ex.com/a/b")), "/root"),
        Ok(Command::Goto("http://ex.com/root".to_string()))
    );
    assert_eq!(
        w3c().goto(Ok(reply_text("http://ex.com/a/b")), "https://other.org/x"),
        Ok(Command::Goto("https://other.org/x".to_string()))
    );
    assert_eq!(
        w3c().goto(Ok(reply_text("http://ex.com/a/b#frag")), ""),
        Ok(Command::Goto("http://ex.com/a/b".to_string()))
    );
    assert_eq!(
        w3c().goto(Ok(reply_text("")), "http://ex.com/"),
        Ok(Command::Goto("http://ex.com/".to_string()))
    );
    assert_eq!(
        w3c().goto(Ok(reply_text("")), "about:blank"),
        Ok(Command::Goto("about:blank".to_string()))
    );
}

#[test]
fn goto_fails_where_the_url_cannot_be_resolved() {
    assert!(matches!(w3c().goto(Ok(reply_text("")), "relative"), Err(CmdError::InvalidUrl(_))));
    assert!(matches!(w3c().goto(Ok(reply_text("")), ""), Err(CmdError::InvalidUrl(_))));
    assert!(matches!(
        w3c().goto(Ok(reply_text("http://ex.com/")), "http://[bad"),
        Err(CmdError::InvalidUrl(_))
    ));
    assert!(matches!(w3c().goto(Ok(reply_text("nonsense")), "x"), Err(CmdError::InvalidUrl(_))));
    assert_eq!(w3c().goto(Ok(Json::Null), "x"), Err(CmdError::NotW3C(Json::Null)));
    assert_eq!(w3c().goto(Err(CmdError::Lost), "x"), Err(CmdError::Lost));
}

#[test]
fn url_parse_and_join_follow_the_url_crate() {
    let base = Url::parse("https://example.net/a/b.html").unwrap();
    assert_eq!(base.join("c.png").unwrap().as_str(), "https://example.net/a/c.png");
    assert_eq!(base.join("//eve.com/b").unwrap().as_str(), "https://eve.com/b");
    assert_eq!(base.join("/v1/meta").unwrap().into_string(), "https://example.net/v1/meta");
    assert!(matches!(Url::parse("/no/scheme"), Err(CmdError::InvalidUrl(_))));
    assert!(base.same_as(&base.duplicate()));
    assert!(base.is_text("https://example.net/a/b.html"));
    assert!(!base.is_text("https://example.net/a/b.htm"));
    assert!(!base.same_as(&Url::parse("https://example.net/a/b.htm").unwrap()));
}

#[test]
fn screenshot_decodes_base64() {
    assert_eq!(w3c().screenshot(reply_text("aGVsbG8gd29ybGQ=")), Ok(b"hello world".to_vec()));
    assert_eq!(w3c().screenshot(reply_text("")), Ok(vec![]));
    assert_eq!(w3c().screenshot_element(reply_text("iVBORw==")), Ok(vec![0x89, 0x50, 0x4e, 0x47]));
}

#[test]
fn screenshot_refuses_what_is_no_base64() {
    assert!(matches!(
        w3c().screenshot(reply_text("not base64!")),
        Err(CmdError::ImageDecodeError(_))
    ));
    assert!(matches!(
        w3c().screenshot_element(reply_text("a")),
        Err(CmdError::ImageDecodeError(_))
    ));
    assert_eq!(w3c().screenshot(Json::Null), Err(CmdError::NotW3C(Json::Null)));
    assert_eq!(
        w3c().screenshot_element(reply_number(1)),
        Err(CmdError::NotW3C(reply_number(1)))
    );
}

#[test]
fn wait_for_goes_on_until_true() {
    assert_eq!(w3c().wait_for(Ok(false)), None);
    assert_eq!(w3c().wait_for(Ok(true)), Some(Ok(())));
    assert_eq!(w3c().wait_for(Err(CmdError::Timeout)), Some(Err(CmdError::Timeout)));
}

#[test]
fn wait_for_find_retries_on_no_such_element() {
    let client = w3c();
    let answers = vec![
        Err(CmdError::NoSuchElement("not yet".to_string())),
        Err(CmdError::NoSuchElement("still not".to_string())),
        Ok(reply_object(vec![(w3c_element_key(), reply_text("E-3"))])),
    ];
    let mut rounds = 0;
    let mut over = None;
    for answer in answers {
        rounds += 1;
        over = client.wait_for_find(answer);
        if over.is_some() {
            break;
        }
    }
    assert_eq!(rounds, 3);
    assert_eq!(
        over,
        Some(Ok(Element { client: w3c(), element: WebElement("E-3".to_string()) }))
    );
}

#[test]
fn wait_for_find_gives_up_on_other_failures() {
    assert_eq!(
        w3c().wait_for_find(Err(CmdError::NoSuchWindow)),
        Some(Err(CmdError::NoSuchWindow))
    );
    assert_eq!(w3c().wait_for_find(Err(CmdError::Lost)), Some(Err(CmdError::Lost)));
    assert_eq!(
        w3c().wait_for_find(Ok(Json::Null)),
        Some(Err(CmdError::NotW3C(Json::Null)))
    );
}

#[test]
fn wait_for_navigation_compares_urls() {
    let current = "http://ex.com/a";
    assert_eq!(w3c().wait_for_navigation(current, Ok(reply_text("http://ex.com/a"))), None);
    assert_eq!(w3c().wait_for_navigation(current, Ok(reply_text("HTTP://ex.com/a"))), None);
    assert_eq!(
        w3c().wait_for_navigation(current, Ok(reply_text("http://ex.com/b"))),
        Some(Ok(()))
    );
    assert_eq!(w3c().wait_for_navigation(current, Ok(reply_text(""))), Some(Ok(())));
    assert_eq!(w3c().wait_for_navigation("about:blank", Ok(reply_text(""))), None);
    assert_eq!(
        w3c().wait_for_navigation(current, Ok(Json::Null)),
        Some(Err(CmdError::NotW3C(Json::Null)))
    );
    assert!(matches!(
        w3c().wait_for_navigation(current, Ok(reply_text("::"))),
        Some(Err(CmdError::InvalidUrl(_)))
    ));
    assert_eq!(
        w3c().wait_for_navigation(current, Err(CmdError::NoSuchWindow)),
        Some(Err(CmdError::NoSuchWindow))
    );
}

#[test]
fn request_targets_are_what_http_takes() {
    assert!(Url::parse("http://ex.com/download?x=1").unwrap().is_request_target());
    assert!(Url::parse("https://ex.com/a%20b").unwrap().is_request_target());
    let long = format!("http://ex.com/{}", "a".repeat(70_000));
    assert!(!Url::parse(&long).unwrap().is_request_target());
}

#[test]
fn url_failures_tell_their_kind() {
    assert_eq!(
        Url::parse("/no/scheme"),
        Err(CmdError::InvalidUrl(UrlError::Parse(url::ParseError::RelativeUrlWithoutBase)))
    );
}

#[test]
fn script_result_comes_back_under_the_w3c_key() {
    let sent = || {
        reply_object(vec![(
            "found",
            Json::Array(vec![
                reply_object(vec![("ELEMENT", reply_text("E-4"))]),
                reply_object(vec![("n", reply_number(1)), ("ELEMENT", reply_text("E-5"))]),
            ]),
        )])
    };
    assert_eq!(
        legacy().script_result(sent()),
        reply_object(vec![(
            "found",
            Json::Array(vec![
                reply_object(vec![(w3c_element_key(), reply_text("E-4"))]),
                reply_object(vec![("n", reply_number(1)), (w3c_element_key(), reply_text("E-5"))]),
            ]),
        )])
    );
    assert_eq!(w3c().script_result(sent()), sent());
    assert_eq!(legacy().script_result(reply_text("ELEMENT")), reply_text("ELEMENT"));
}

#[test]
fn element_comes_back_from_a_script_as_it_went_in() {
    for client in [w3c(), legacy()] {
        let element = WebElement("E-6".to_string());
        let command = client.execute("return arguments[0]", vec![element.to_json()]);
        let echoed = match command {
            Command::Execute { mut args, .. } => args.pop().unwrap(),
            other => panic!("unexpected {:?}", other),
        };
        assert_eq!(client.script_result(echoed), element.to_json());
    }
}

#[test]
fn element_keys_are_those_of_the_dialects() {
    assert_eq!(w3c_element_key(), "element-6066-11e4-a52e-4f735466cecf");
    assert_eq!(fantoccini::element::LEGACY_ELEMENT_KEY, "ELEMENT");
}

#[test]
fn fixup_elements_leaves_no_w3c_key_where_it_stood_twice() {
    let mut args = vec![reply_object(vec![
        (w3c_element_key(), reply_text("first")),
        ("a", Json::Null),
        (w3c_element_key(), reply_text("second")),
    ])];
    legacy().fixup_elements(&mut args);
    assert_eq!(
        args,
        vec![reply_object(vec![("a", Json::Null), ("ELEMENT", reply_text("first"))])]
    );
}
