use harness_desktop::panel_bridge::{
    arm, armed, post, relay, set_endpoint, Relay, HANDLER_NAME, MAX_PAYLOAD_BYTES,
};

/// The relay must write one well-formed POST carrying the page payload.
#[test]
fn posts_the_payload_to_the_endpoint() {
    let endpoint = "http://127.0.0.1:45693/native-event?sessionId=abc&channel=def";
    let sent = post(endpoint, br#"{"type":"state"}"#).expect("relay");
    assert_eq!(sent.authority, "127.0.0.1:45693");
    let request = String::from_utf8_lossy(&sent.bytes).to_string();
    assert!(
        request.starts_with("POST /native-event?sessionId=abc&channel=def HTTP/1.1\r\n"),
        "{request}"
    );
    assert!(request.contains("Content-Length: 16\r\n"), "{request}");
    assert!(request.ends_with(r#"{"type":"state"}"#), "{request}");
}

/// Only a loopback endpoint may be relayed to, and only over http.
#[test]
fn refuses_a_foreign_endpoint() {
    assert!(post("http://example.com/native-event", b"{}").is_err());
    assert!(post("https://127.0.0.1:1/native-event", b"{}").is_err());
}

/// The arming flag follows the endpoint the panel was opened with.
#[test]
fn arming_tracks_the_panel() {
    let mut bridge = Relay::new();
    set_endpoint(&mut bridge, None);
    assert!(!armed(&bridge));
    set_endpoint(&mut bridge, Some("http://127.0.0.1:1/native-event".to_string()));
    assert!(!armed(&bridge), "a target alone is not an installed handler");
    set_endpoint(&mut bridge, None);
    assert!(!armed(&bridge));
}

#[test]
fn a_new_target_disarms() {
    let mut bridge = Relay::new();
    assert!(bridge.endpoint.is_none());
    arm(&mut bridge);
    assert!(armed(&bridge));
    set_endpoint(&mut bridge, Some("http://127.0.0.1:2/".to_string()));
    assert!(!armed(&bridge));
    arm(&mut bridge);
    assert!(armed(&bridge));
    assert_eq!(bridge.endpoint.as_deref(), Some("http://127.0.0.1:2/"));
}

#[test]
fn the_whole_request() {
    let sent = post("http://127.0.0.1:80", b"{}").unwrap();
    assert_eq!(sent.authority, "127.0.0.1:80");
    assert_eq!(
        sent.bytes,
        b"POST / HTTP/1.1\r\nHost: 127.0.0.1:80\r\nContent-Type: application/json\r\nContent-Length: 2\r\nConnection: close\r\n\r\n{}"
            .to_vec()
    );
    let sent = post("http://127.0.0.1:9/p\u{e9}/q", b"").unwrap();
    assert_eq!(
        sent.bytes,
        "POST /p\u{e9}/q HTTP/1.1\r\nHost: 127.0.0.1:9\r\nContent-Type: application/json\r\nContent-Length: 0\r\nConnection: close\r\n\r\n"
            .as_bytes()
            .to_vec()
    );
}

#[test]
fn refusals_say_why() {
    let reason = |endpoint: &str| post(endpoint, b"{}").err().unwrap();
    assert_eq!(reason("https://127.0.0.1:1/"), "relay endpoint must be loopback http");
    assert_eq!(reason(""), "relay endpoint must be loopback http");
    assert_eq!(reason("http:/127.0.0.1:1/"), "relay endpoint must be loopback http");
    assert_eq!(reason("http://127.0.0.1/x:1"), "relay endpoint must be loopback");
    assert_eq!(reason("http://localhost:1/"), "relay endpoint must be loopback");
    assert_eq!(reason("http://"), "relay endpoint must be loopback");
    assert!(post("http://127.0.0.1:", b"").is_ok());
}

#[test]
fn relays_only_what_fits_and_has_a_target() {
    let mut bridge = Relay::new();
    assert!(relay(&bridge, "{}".to_string()).is_none());
    set_endpoint(&mut bridge, Some("http://127.0.0.1:1/e".to_string()));
    assert!(relay(&bridge, String::new()).is_none());
    let job = relay(&bridge, "{}".to_string()).unwrap();
    assert_eq!(job.endpoint, "http://127.0.0.1:1/e");
    assert_eq!(job.payload, "{}");
    assert!(relay(&bridge, "a".repeat(MAX_PAYLOAD_BYTES)).is_some());
    assert!(relay(&bridge, "a".repeat(MAX_PAYLOAD_BYTES + 1)).is_none());
    assert!(relay(&bridge, "\u{e9}".repeat(MAX_PAYLOAD_BYTES / 2)).is_some());
    assert!(relay(&bridge, "\u{e9}".repeat(MAX_PAYLOAD_BYTES / 2 + 1)).is_none());
}

#[test]
fn the_handler_has_its_name() {
    assert_eq!(HANDLER_NAME, "dshWebReview");
    assert_eq!(MAX_PAYLOAD_BYTES, 4 * 1024 * 1024);
}

#[test]
fn a_request_reads_back_line_by_line() {
    let body = b"\r\n\r\nbody\r\n\r\n";
    let sent = post("http://127.0.0.1:7/a/b?c=d", body).unwrap();
    let text = String::from_utf8(sent.bytes).unwrap();
    let (head, rest) = text.split_once("\r\n\r\n").unwrap();
    let lines: Vec<&str> = head.split("\r\n").collect();
    assert_eq!(
        lines,
        vec![
            "POST /a/b?c=d HTTP/1.1",
            "Host: 127.0.0.1:7",
            "Content-Type: application/json",
            "Content-Length: 12",
            "Connection: close",
        ]
    );
    assert_eq!(rest.as_bytes(), body);
}
