use harness_desktop::native_browser::{
    below_one, panel_label, Action, BoundsRequest, Capture, CaptureFailure, CommandRequest,
    Coordinate, Creation, Event, NativeBrowser, OpenRequest, PanelBounds, PanelState, Progress,
};
use harness_desktop::panel_bridge::Relay;

fn at(value: f64) -> Coordinate {
    Coordinate { bits: value.to_bits() }
}

fn request(session: &str, url: &str) -> OpenRequest {
    OpenRequest {
        session: session.to_string(),
        url: url.to_string(),
        x: at(10.0),
        y: at(20.0),
        width: at(300.0),
        height: at(400.0),
        bootstrap: "boot()".to_string(),
        endpoint: Some("http://127.0.0.1:1/e".to_string()),
    }
}

fn command(kind: &str) -> CommandRequest {
    CommandRequest { kind: kind.to_string(), url: None, script: None }
}

fn refused(reason: &str) -> Progress<String> {
    Progress::Finished(Err(reason.to_string()))
}

/// Opens a panel, with every action going well.
fn opened(session: &str) -> (NativeBrowser, Relay) {
    let mut browser = NativeBrowser::new();
    let mut relay = Relay::new();
    let first = browser.open(&mut relay, &request(session, "https://example.com"));
    assert_eq!(first, Progress::Act(Action::FindWindow));
    finish_creation(&mut browser, &mut relay, session);
    (browser, relay)
}

/// Carries a creation from the lookup of the window to its end.
fn finish_creation(browser: &mut NativeBrowser, relay: &mut Relay, session: &str) {
    assert_eq!(
        browser.resume(relay, Event::Done),
        Progress::Act(Action::PrepareDataDir { name: "浏览器面板".to_string() })
    );
    assert_eq!(
        browser.resume(relay, Event::Done),
        Progress::Act(Action::Create(Creation {
            label: format!("web-review-browser-{session}"),
            url: "https://example.com/".to_string(),
            data_dir: "浏览器面板".to_string(),
            script: Some("boot()".to_string()),
            x: at(10.0),
            y: at(20.0),
            width: at(300.0),
            height: at(400.0),
        }))
    );
    assert_eq!(browser.resume(relay, Event::Done), Progress::Act(Action::InstallHandler));
    assert!(!relay.armed);
    assert_eq!(browser.resume(relay, Event::HandlerInstalled(true)), Progress::Finished(Ok(())));
    assert!(browser.is_idle());
}

#[test]
fn labels_keep_only_safe_characters() {
    assert_eq!(panel_label("abc-XYZ_0 9/é中"), "web-review-browser-abc-XYZ09");
    assert_eq!(panel_label(""), "web-review-browser-");
    assert_eq!(panel_label("___"), "web-review-browser-");
    let long = "a_".repeat(60);
    assert_eq!(panel_label(&long), format!("web-review-browser-{}", "a".repeat(48)));
}

#[test]
fn below_one_is_that_of_doubles() {
    let mut values = vec![
        0.0,
        -0.0,
        0.5,
        1.0,
        1.0 - f64::EPSILON,
        1.0 + f64::EPSILON,
        -1.0,
        300.0,
        f64::MAX,
        f64::MIN,
        f64::MIN_POSITIVE,
        f64::INFINITY,
        f64::NEG_INFINITY,
        f64::NAN,
        -f64::NAN,
    ];
    values.push(f64::from_bits(1));
    values.push(f64::from_bits(0x7ff0_0000_0000_0001));
    values.push(f64::from_bits(0xfff0_0000_0000_0001));
    for value in values {
        assert_eq!(below_one(at(value)), value < 1.0, "{value}");
    }
}

#[test]
fn a_panel_is_created() {
    let (browser, relay) = opened("s1");
    assert!(relay.armed);
    assert_eq!(relay.endpoint.as_deref(), Some("http://127.0.0.1:1/e"));
    let bounds = PanelBounds { x: at(1.0), y: at(2.0), width: at(3.0), height: at(4.0) };
    let state = browser.state(&relay, Some("https://example.com/".to_string()), Some(bounds));
    assert!(state.open && state.relay);
    assert_eq!(state.session.as_deref(), Some("s1"));
    assert_eq!(state.url.as_deref(), Some("https://example.com/"));
    assert_eq!(state.bounds, Some(bounds));
}

#[test]
fn a_panel_without_a_bootstrap_has_no_script() {
    let mut browser = NativeBrowser::new();
    let mut relay = Relay::new();
    let mut open = request("s", "http://example.com/a b");
    open.bootstrap = String::new();
    open.endpoint = None;
    browser.open(&mut relay, &open);
    browser.resume(&mut relay, Event::Done);
    match browser.resume(&mut relay, Event::Done) {
        Progress::Act(Action::Create(creation)) => {
            assert_eq!(creation.script, None);
            assert_eq!(creation.url, "http://example.com/a%20b");
        }
        other => panic!("{other:?}"),
    }
    browser.resume(&mut relay, Event::Done);
    browser.resume(&mut relay, Event::HandlerInstalled(true));
    assert_eq!(relay.endpoint, None);
    assert!(relay.armed);
    let state = browser.state(&relay, None, None);
    assert!(state.open && state.relay);
}

#[test]
fn a_panel_without_a_handler_is_not_armed() {
    let mut browser = NativeBrowser::new();
    let mut relay = Relay::new();
    browser.open(&mut relay, &request("s", "https://example.com"));
    browser.resume(&mut relay, Event::Done);
    browser.resume(&mut relay, Event::Done);
    browser.resume(&mut relay, Event::Done);
    let end = browser.resume(&mut relay, Event::Failed("no handler".to_string()));
    assert_eq!(end, Progress::Finished(Ok(())));
    assert!(!relay.armed);
    assert!(!browser.state(&relay, None, None).relay);
}

#[test]
fn bad_requests_are_refused_and_change_nothing() {
    let (mut browser, mut relay) = opened("s1");
    let mut small = request("s2", "https://example.com");
    small.width = at(0.5);
    assert_eq!(browser.open(&mut relay, &small), refused("panel needs a positive size"));
    small.width = at(1.0);
    small.height = at(-3.0);
    assert_eq!(browser.open(&mut relay, &small), refused("panel needs a positive size"));
    assert_eq!(
        browser.open(&mut relay, &request("s2", "example")),
        refused("invalid panel url: relative URL without a base")
    );
    assert_eq!(
        browser.open(&mut relay, &request("s2", "file:///etc/hosts")),
        refused("panel url must be http(s)")
    );
    assert!(browser.is_idle());
    assert!(relay.armed);
    assert_eq!(browser.state(&relay, None, None).session.as_deref(), Some("s1"));
}

#[test]
fn the_same_session_reuses_its_panel() {
    let (mut browser, mut relay) = opened("s1");
    let mut again = request("s1", "HTTPS://EXAMPLE.com/next");
    again.endpoint = Some("http://127.0.0.1:2/f".to_string());
    assert_eq!(
        browser.open(&mut relay, &again),
        Progress::Act(Action::SetPosition { x: at(10.0), y: at(20.0) })
    );
    assert_eq!(relay.endpoint.as_deref(), Some("http://127.0.0.1:2/f"));
    assert!(relay.armed);
    assert_eq!(
        browser.resume(&mut relay, Event::Done),
        Progress::Act(Action::SetSize { width: at(300.0), height: at(400.0) })
    );
    assert_eq!(browser.resume(&mut relay, Event::Done), Progress::Act(Action::Show));
    assert_eq!(browser.resume(&mut relay, Event::Done), Progress::Act(Action::ReadUrl));
    assert_eq!(
        browser.resume(&mut relay, Event::CurrentUrl(Some("https://example.com/".to_string()))),
        Progress::Act(Action::Navigate { url: "https://example.com/next".to_string() })
    );
    assert_eq!(browser.resume(&mut relay, Event::Done), Progress::Finished(Ok(())));

    browser.open(&mut relay, &again);
    browser.resume(&mut relay, Event::Done);
    browser.resume(&mut relay, Event::Done);
    browser.resume(&mut relay, Event::Done);
    let there = Event::CurrentUrl(Some("https://example.com/next".to_string()));
    assert_eq!(browser.resume(&mut relay, there), Progress::Finished(Ok(())));

    browser.open(&mut relay, &again);
    browser.resume(&mut relay, Event::Done);
    browser.resume(&mut relay, Event::Done);
    browser.resume(&mut relay, Event::Done);
    let unknown = browser.resume(&mut relay, Event::CurrentUrl(None));
    assert_eq!(
        unknown,
        Progress::Act(Action::Navigate { url: "https://example.com/next".to_string() })
    );
}

#[test]
fn a_failed_move_ends_the_open() {
    let (mut browser, mut relay) = opened("s1");
    browser.open(&mut relay, &request("s1", "https://example.com"));
    assert_eq!(browser.resume(&mut relay, Event::Failed("gone".to_string())), refused("gone"));
    assert!(browser.is_idle());
    assert!(browser.state(&relay, None, None).open);
}

#[test]
fn another_session_replaces_the_panel() {
    let (mut browser, mut relay) = opened("s1");
    let first = browser.open(&mut relay, &request("s2", "https://example.com"));
    assert_eq!(first, Progress::Act(Action::Close));
    assert!(relay.endpoint.is_none() && !relay.armed);
    let failed = browser.resume(&mut relay, Event::Failed("ignored".to_string()));
    assert_eq!(failed, Progress::Act(Action::FindWindow));
    finish_creation(&mut browser, &mut relay, "s2");
    assert_eq!(browser.state(&relay, None, None).session.as_deref(), Some("s2"));
}

#[test]
fn another_bootstrap_replaces_the_panel() {
    let (mut browser, mut relay) = opened("s1");
    let mut other = request("s1", "https://example.com");
    other.bootstrap = "other()".to_string();
    assert_eq!(browser.open(&mut relay, &other), Progress::Act(Action::Close));
}

#[test]
fn a_failed_creation_leaves_no_panel() {
    let why = || "why".to_string();
    let steps: Vec<(usize, Event<String>, &str)> = vec![
        (0, Event::Failed(why()), "the main window is not available"),
        (1, Event::Failed(why()), "why"),
        (1, Event::DataDirUnresolved(why()), "cannot resolve the app data directory: why"),
        (
            1,
            Event::DataDirNotCreated { dir: "/d".to_string(), error: why() },
            "cannot create /d: why",
        ),
        (2, Event::Failed(why()), "cannot create the browser panel: why"),
    ];
    for (before, event, message) in steps {
        let mut browser = NativeBrowser::new();
        let mut relay = Relay::new();
        browser.open(&mut relay, &request("s", "https://example.com"));
        for _ in 0..before {
            browser.resume(&mut relay, Event::Done);
        }
        assert_eq!(browser.resume(&mut relay, event), refused(message));
        assert!(browser.is_idle());
        assert!(!browser.state(&relay, None, None).open);
        assert!(relay.endpoint.is_none() && !relay.armed);
    }
}

#[test]
fn bounds_move_resize_and_hide() {
    let mut bounds = BoundsRequest {
        x: at(1.0),
        y: at(2.0),
        width: at(3.0),
        height: at(4.0),
        visible: None,
    };
    let mut closed = NativeBrowser::new();
    assert_eq!(closed.bounds(&bounds), refused("no browser panel is open"));
    let (mut browser, mut relay) = opened("s");
    for visible in [None, Some(true)] {
        bounds.visible = visible;
        assert_eq!(
            browser.bounds(&bounds),
            Progress::Act(Action::SetPosition { x: at(1.0), y: at(2.0) })
        );
        assert_eq!(
            browser.resume(&mut relay, Event::Done),
            Progress::Act(Action::SetSize { width: at(3.0), height: at(4.0) })
        );
        assert_eq!(browser.resume(&mut relay, Event::Done), Progress::Act(Action::Show));
        assert_eq!(browser.resume(&mut relay, Event::Done), Progress::Finished(Ok(())));
    }
    bounds.visible = Some(false);
    assert_eq!(browser.bounds(&bounds), Progress::Act(Action::Hide));
    assert_eq!(browser.resume(&mut relay, Event::Failed("stuck".to_string())), refused("stuck"));
}

#[test]
fn commands() {
    let (mut browser, mut relay) = opened("s");
    assert_eq!(browser.command(&mut relay, &command("reload")), Progress::Act(Action::Reload));
    assert_eq!(browser.resume(&mut relay, Event::Done), Progress::Finished(Ok(())));
    let mut navigate = command("navigate");
    assert_eq!(browser.command(&mut relay, &navigate), refused("navigate needs a url"));
    navigate.url = Some("//".to_string());
    assert_eq!(
        browser.command(&mut relay, &navigate),
        refused("invalid url: relative URL without a base")
    );
    navigate.url = Some("Data:text/plain,x".to_string());
    assert_eq!(
        browser.command(&mut relay, &navigate),
        Progress::Act(Action::Navigate { url: "data:text/plain,x".to_string() })
    );
    assert_eq!(browser.resume(&mut relay, Event::Failed("no".to_string())), refused("no"));
    let mut eval = command("eval");
    assert_eq!(browser.command(&mut relay, &eval), refused("eval needs a script"));
    eval.script = Some("1 + 1".to_string());
    assert_eq!(
        browser.command(&mut relay, &eval),
        Progress::Act(Action::Eval { script: "1 + 1".to_string() })
    );
    assert_eq!(browser.resume(&mut relay, Event::Done), Progress::Finished(Ok(())));
    for kind in ["dance", "Back", "forward ", ""] {
        assert_eq!(
            browser.command(&mut relay, &command(kind)),
            refused(&format!("unsupported panel command: {kind}"))
        );
    }
}

#[test]
fn back_goes_back_in_history() {
    let (mut browser, mut relay) = opened("s");
    let step = Progress::Act(Action::Eval { script: "history.back()".to_string() });
    assert_eq!(browser.command(&mut relay, &command("back")), step);
    assert_eq!(browser.resume(&mut relay, Event::Done), Progress::Finished(Ok(())));
    assert!(browser.is_idle() && relay.armed);
}

#[test]
fn forward_goes_forward_in_history() {
    let (mut browser, mut relay) = opened("s");
    let step = Progress::Act(Action::Eval { script: "history.forward()".to_string() });
    assert_eq!(browser.command(&mut relay, &command("forward")), step);
    assert_eq!(browser.resume(&mut relay, Event::Failed("no".to_string())), refused("no"));
    assert!(browser.is_idle() && relay.armed);
}

#[test]
fn commands_need_a_panel_except_close() {
    let mut browser = NativeBrowser::new();
    let mut relay = Relay::new();
    for kind in ["reload", "back", "forward", "navigate", "eval", "dance"] {
        assert_eq!(
            browser.command(&mut relay, &command(kind)),
            refused("no browser panel is open")
        );
    }
    assert_eq!(browser.command(&mut relay, &command("close")), Progress::Finished(Ok(())));
}

#[test]
fn close_closes_once() {
    let (mut browser, mut relay) = opened("s");
    assert_eq!(browser.command(&mut relay, &command("close")), Progress::Act(Action::Close));
    let end = browser.resume(&mut relay, Event::Failed("ignored".to_string()));
    assert_eq!(end, Progress::Finished(Ok(())));
    assert!(relay.endpoint.is_none() && !relay.armed);
    let state = browser.state(&relay, Some("x".to_string()), None);
    assert!(!state.open && state.session.is_none() && state.url.is_none() && !state.relay);
    assert_eq!(browser.command(&mut relay, &command("close")), Progress::Finished(Ok(())));
}

#[test]
fn a_closed_state_says_nothing() {
    let state = PanelState::closed();
    assert!(!state.open && !state.relay);
    assert!(state.session.is_none() && state.url.is_none() && state.bounds.is_none());
}

#[test]
fn snapshots() {
    let closed = NativeBrowser::new();
    assert_eq!(closed.can_snapshot(), Err("no browser panel is open".to_string()));
    assert_eq!(
        closed.snapshot(Capture::Png(vec![1])),
        Err("no browser panel is open".to_string())
    );
    let (browser, _) = opened("s");
    assert_eq!(browser.can_snapshot(), Ok(()));
    let image = |bytes: &[u8]| browser.snapshot(Capture::Png(bytes.to_vec())).unwrap();
    assert_eq!(image(b""), "");
    assert_eq!(image(b"f"), "Zg==");
    assert_eq!(image(b"fo"), "Zm8=");
    assert_eq!(image(b"foo"), "Zm9v");
    assert_eq!(image(b"foobar"), "Zm9vYmFy");
    assert_eq!(image(&[0xfb, 0xff, 0xbf, 0x00]), "+/+/AA==");
    assert_eq!(image(b"\x89PNG\r\n\x1a\n"), "iVBORw0KGgo=");
    let error = |capture: Capture| browser.snapshot(capture).unwrap_err();
    assert_eq!(error(Capture::Unreachable("why".to_string())), "cannot reach the panel: why");
    assert_eq!(error(Capture::TimedOut), "panel snapshot timed out");
    assert_eq!(
        error(Capture::Failed(CaptureFailure::Reported("why".to_string()))),
        "panel snapshot failed: why"
    );
    assert_eq!(
        error(Capture::Failed(CaptureFailure::NoImage)),
        "panel snapshot returned no image"
    );
    assert_eq!(
        error(Capture::Failed(CaptureFailure::NoBitmap)),
        "panel snapshot has no bitmap representation"
    );
    assert_eq!(
        error(Capture::Failed(CaptureFailure::NotDecodable)),
        "panel snapshot is not decodable"
    );
    assert_eq!(
        error(Capture::Failed(CaptureFailure::NotEncodable)),
        "panel snapshot could not be encoded as PNG"
    );
    assert_eq!(error(Capture::Failed(CaptureFailure::Empty)), "empty snapshot");
    assert_eq!(error(Capture::Failed(CaptureFailure::Unsupported)), "panel snapshots need macOS");
}
