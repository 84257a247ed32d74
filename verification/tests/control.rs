use harness_desktop::control_server::{
    acknowledge, advertise, body_text, decoded, dispatch, dsh_home, fullscreen, report_panel,
    report_window, route, serve, withdraw, AdvertiseFailure, BodyKind, Dispatch, Endpoint,
    Environment, FullscreenRequest, PanelRequest, Reply, StartFailure, BODY_LIMIT,
    BIND_ADDRESS, DESCRIPTOR_NAME, PRODUCT,
};
use harness_desktop::native_browser::{
    Action, BoundsRequest, CommandRequest, Coordinate, NativeBrowser, OpenRequest, PanelState,
    Progress,
};
use harness_desktop::panel_bridge::Relay;
use harness_desktop::window_guard::WindowGuard;

#[test]
fn routes() {
    assert_eq!(route("/health"), Endpoint::Health);
    assert_eq!(route("/panel/state"), Endpoint::PanelState);
    assert_eq!(route("/panel/open"), Endpoint::PanelOpen);
    assert_eq!(route("/panel/bounds"), Endpoint::PanelBounds);
    assert_eq!(route("/panel/command"), Endpoint::PanelCommand);
    assert_eq!(route("/window/state"), Endpoint::WindowState);
    assert_eq!(route("/window/fullscreen"), Endpoint::WindowFullscreen);
    assert_eq!(route("/health/"), Endpoint::Unknown);
    assert_eq!(route("/Health"), Endpoint::Unknown);
    assert_eq!(route(""), Endpoint::Unknown);
}

#[test]
fn a_query_is_ignored() {
    assert_eq!(route("/health?"), Endpoint::Health);
    assert_eq!(route("/panel/open?a=/health?b"), Endpoint::PanelOpen);
    assert_eq!(route("?/health"), Endpoint::Unknown);
}

#[test]
fn what_a_request_takes() {
    match dispatch("/health?x", "1.2.3") {
        Dispatch::Answer(reply) => {
            assert_eq!(reply.status(), 200);
            match reply {
                Reply::Health(health) => {
                    assert!(health.ok);
                    assert_eq!(health.product, "deepseek-harness-desktop");
                    assert_eq!(health.version, "1.2.3");
                }
                other => panic!("{other:?}"),
            }
        }
        other => panic!("{other:?}"),
    }
    assert!(matches!(dispatch("/panel/state", ""), Dispatch::ReportPanel));
    assert!(matches!(dispatch("/window/state", ""), Dispatch::ReportWindow));
    assert!(matches!(dispatch("/panel/open", ""), Dispatch::ReadBody(BodyKind::Open)));
    assert!(matches!(dispatch("/panel/bounds", ""), Dispatch::ReadBody(BodyKind::Bounds)));
    assert!(matches!(dispatch("/panel/command", ""), Dispatch::ReadBody(BodyKind::Command)));
    assert!(matches!(
        dispatch("/window/fullscreen", ""),
        Dispatch::ReadBody(BodyKind::Fullscreen)
    ));
    match dispatch("/nowhere", "") {
        Dispatch::Answer(reply) => {
            assert_eq!(reply.status(), 404);
            assert_eq!(reply.plain_body(), "{\"ok\":false,\"error\":\"unknown endpoint\"}");
        }
        other => panic!("{other:?}"),
    }
}

#[test]
fn bodies() {
    assert_eq!(body_text(b"{}".to_vec()), "{}");
    assert_eq!(body_text("中".as_bytes().to_vec()), "中");
    assert_eq!(body_text(vec![0x7b, 0xff]), "");
    assert_eq!(BODY_LIMIT, 1024 * 1024);
    let long = vec![b'a'; BODY_LIMIT + 5];
    assert_eq!(body_text(long).len(), BODY_LIMIT);
    let mut cut = vec![b'a'; BODY_LIMIT - 1];
    cut.extend_from_slice("é".as_bytes());
    assert_eq!(body_text(cut), "");
}

#[test]
fn unreadable_bodies_are_refused() {
    for (kind, message) in [
        (BodyKind::Open, "invalid open request: why"),
        (BodyKind::Bounds, "invalid bounds request: why"),
        (BodyKind::Command, "invalid command request: why"),
        (BodyKind::Fullscreen, "invalid fullscreen request: why"),
    ] {
        assert_eq!(decoded::<u8>(kind, Err("why".to_string())), Err(message.to_string()));
        assert_eq!(decoded::<u8>(kind, Ok(3)), Ok(3));
    }
    let mut browser = NativeBrowser::new();
    let mut relay = Relay::new();
    let progress =
        serve(&mut browser, &mut relay, BodyKind::Open, Err("expected value".to_string()));
    assert_eq!(
        progress,
        Progress::Finished(Err("invalid open request: expected value".to_string()))
    );
    assert!(browser.is_idle());
}

#[test]
fn readable_bodies_are_served() {
    let one = Coordinate { bits: 1.0f64.to_bits() };
    let mut browser = NativeBrowser::new();
    let mut relay = Relay::new();
    let bounds = BoundsRequest { x: one, y: one, width: one, height: one, visible: None };
    assert_eq!(
        serve(&mut browser, &mut relay, BodyKind::Bounds, Ok(PanelRequest::Bounds(bounds))),
        Progress::Finished(Err("no browser panel is open".to_string()))
    );
    let close = CommandRequest { kind: "close".to_string(), url: None, script: None };
    assert_eq!(
        serve(&mut browser, &mut relay, BodyKind::Command, Ok(PanelRequest::Command(close))),
        Progress::Finished(Ok(()))
    );
    let open = OpenRequest {
        session: "s".to_string(),
        url: "http://example.com/".to_string(),
        x: one,
        y: one,
        width: one,
        height: one,
        bootstrap: String::new(),
        endpoint: None,
    };
    assert_eq!(
        serve(&mut browser, &mut relay, BodyKind::Open, Ok(PanelRequest::Open(open))),
        Progress::Act(Action::FindWindow)
    );
}

#[test]
fn fullscreen_requests() {
    let parsed = |value: bool| Ok(FullscreenRequest { value });
    assert_eq!(fullscreen(parsed(true), true), Ok(true));
    assert_eq!(fullscreen(parsed(false), true), Ok(false));
    assert_eq!(
        fullscreen(parsed(true), false),
        Err("the main window is not available".to_string())
    );
    assert_eq!(
        fullscreen(Err("why".to_string()), false),
        Err("invalid fullscreen request: why".to_string())
    );
}

#[test]
fn answers() {
    match acknowledge(Ok(())) {
        Reply::Ack(ack) => assert!(ack.ok && ack.error.is_none()),
        other => panic!("{other:?}"),
    }
    let refused = acknowledge(Err("why".to_string()));
    assert_eq!(refused.status(), 200);
    assert_eq!(refused.plain_body(), "");
    match refused {
        Reply::Ack(ack) => {
            assert!(!ack.ok);
            assert_eq!(ack.error.as_deref(), Some("why"));
        }
        other => panic!("{other:?}"),
    }
    let told = report_panel(PanelState {
        open: true,
        session: Some("s".to_string()),
        url: Some("https://example.com/".to_string()),
        bounds: None,
        relay: true,
    });
    assert_eq!(told.status(), 200);
    assert_eq!(told.plain_body(), "");
    match told {
        Reply::Panel(state) => {
            assert!(state.open && state.relay && state.bounds.is_none());
            assert_eq!(state.session.as_deref(), Some("s"));
            assert_eq!(state.url.as_deref(), Some("https://example.com/"));
        }
        other => panic!("{other:?}"),
    }
    match report_panel(PanelState::closed()) {
        Reply::Panel(state) => {
            assert!(!state.open && !state.relay && state.bounds.is_none());
            assert!(state.session.is_none() && state.url.is_none());
        }
        other => panic!("{other:?}"),
    }
    let guard = WindowGuard { swallowed: 3 };
    for (known, told) in [(Some(true), true), (Some(false), false), (None, false)] {
        match report_window(known, &guard) {
            Reply::Window(window) => {
                assert_eq!(window.fullscreen, told);
                assert_eq!(window.escapes_swallowed, 3);
            }
            other => panic!("{other:?}"),
        }
    }
}

#[test]
fn a_health_answer_that_cannot_be_written() {
    match dispatch("/health", "1") {
        Dispatch::Answer(reply) => assert_eq!(reply.plain_body(), "{\"ok\":false}"),
        other => panic!("{other:?}"),
    }
}

#[test]
fn where_the_service_keeps_its_files() {
    let environment = |dsh_home: Option<&str>, home: Option<&str>| Environment {
        dsh_home: dsh_home.map(str::to_string),
        home: home.map(str::to_string),
    };
    let path = dsh_home(&environment(Some("/custom"), Some("/home/me")));
    assert_eq!(path.base, "/custom");
    assert!(path.segments.is_empty());
    for blank in [None, Some(""), Some(" \t\u{3000}")] {
        let path = dsh_home(&environment(blank, Some("/home/me")));
        assert_eq!(path.base, "/home/me");
        assert_eq!(path.segments, vec![".dsh"]);
    }
    let path = dsh_home(&environment(None, None));
    assert_eq!(path.base, ".");
    assert_eq!(path.segments, vec![".dsh"]);
}

#[test]
fn the_descriptor() {
    let environment = Environment { dsh_home: None, home: Some("/h".to_string()) };
    let advertisement = advertise(4567, 89, "0.2.0 \"x\"", &environment);
    assert_eq!(advertisement.dir.base, "/h");
    assert_eq!(advertisement.dir.segments, vec![".dsh", "web-review"]);
    assert_eq!(advertisement.file.base, "/h");
    assert_eq!(advertisement.file.segments, vec![".dsh", "web-review", DESCRIPTOR_NAME]);
    assert!(advertisement.payload.ends_with("}\n"));
    let said: serde_json::Value = serde_json::from_str(&advertisement.payload).unwrap();
    assert_eq!(said["schema"], 1);
    assert_eq!(said["port"], 4567);
    assert_eq!(said["pid"], 89);
    assert_eq!(said["product"], PRODUCT);
    assert_eq!(said["version"], "0.2.0 \"x\"");
    assert_eq!(said["capabilities"][0], "browser-panel");
    assert_eq!(said["capabilities"].as_array().unwrap().len(), 1);
    assert_eq!(said.as_object().unwrap().len(), 6);
    let removed = withdraw(&environment);
    assert_eq!(removed.base, advertisement.file.base);
    assert_eq!(removed.segments, advertisement.file.segments);
    assert_eq!(DESCRIPTOR_NAME, "native-browser.json");
}

#[test]
fn the_api_listens_on_loopback() {
    assert_eq!(BIND_ADDRESS, "127.0.0.1:0");
}

#[test]
fn failures_say_why() {
    let why = || "why".to_string();
    assert_eq!(StartFailure::Bind(why()).message(), "cannot bind the control API: why");
    assert_eq!(StartFailure::NoAddress.message(), "the control API has no TCP address");
    let dir = AdvertiseFailure::Dir { dir: "/d".to_string(), error: why() };
    assert_eq!(dir.message(), "cannot create /d: why");
    let file = AdvertiseFailure::File { file: "/f".to_string(), error: why() };
    assert_eq!(file.message(), "cannot write /f: why");
}
