use signet::commands::{
    daemon_port, daemon_url, is_success, recall_outcome, recall_request, remember_outcome, remember_request,
    should_ingest_shared_text, CaptureSource, Reply, DEFAULT_PORT, RESTART_PAUSE_MS,
};
use serde_json::Value;

#[test]
fn port_defaults_when_unset() {
    assert_eq!(daemon_port(None), 3850);
    assert_eq!(DEFAULT_PORT, 3850);
}

#[test]
fn port_from_environment() {
    assert_eq!(daemon_port(Some("8080")), 8080);
    assert_eq!(daemon_port(Some("+9000")), 9000);
    assert_eq!(daemon_port(Some("65535")), 65535);
}

#[test]
fn port_falls_back_on_bad_values() {
    assert_eq!(daemon_port(Some("65536")), 3850);
    assert_eq!(daemon_port(Some(" 8080")), 3850);
    assert_eq!(daemon_port(Some("")), 3850);
    assert_eq!(daemon_port(Some("port")), 3850);
}

#[test]
fn port_round_trip() {
    for p in [0u16, 1, 80, 3850, 8081, 65535] {
        assert_eq!(daemon_port(Some(&p.to_string())), p);
    }
}

#[test]
fn url_names_port() {
    assert_eq!(daemon_url(None), "http://localhost:3850");
    assert_eq!(daemon_url(Some("4000")), "http://localhost:4000");
    assert_eq!(daemon_url(Some("nope")), "http://localhost:3850");
}

#[test]
fn remember_request_quick_capture() {
    let r = remember_request("http://localhost:3850", "buy milk", CaptureSource::QuickCapture);
    assert_eq!(r.url, "http://localhost:3850/api/memory/remember");
    assert_eq!(r.body, "{\"content\":\"buy milk\",\"importance\":0.7,\"who\":\"android-capture\"}");
    assert_eq!(r.timeout_secs, 5);
}

#[test]
fn remember_request_escapes_content() {
    let content = "he said \"hi\"\n\\ done";
    let r = remember_request("http://h", content, CaptureSource::SharedText);
    let v: Value = serde_json::from_str(&r.body).unwrap();
    assert_eq!(v.get("content").and_then(|c| c.as_str()), Some(content));
    assert_eq!(v.get("who").and_then(|c| c.as_str()), Some("android-share"));
    assert_eq!(v.get("importance").and_then(|c| c.as_f64()), Some(0.7));
    assert!(r.body.contains("\\\"hi\\\""));
}

#[test]
fn remember_request_escapes_like_serde_json() {
    let content = "a\u{1}\u{1f}\"\\\u{8}\u{c}\t\r\n/é\u{7f}";
    let r = remember_request("b", content, CaptureSource::SharedText);
    assert_eq!(
        r.body,
        "{\"content\":\"a\\u0001\\u001f\\\"\\\\\\b\\f\\t\\r\\n/é\u{7f}\",\"importance\":0.7,\"who\":\"android-share\"}"
    );
    assert_eq!(r.url, "b/api/memory/remember");
    let literal = serde_json::to_string(content).unwrap();
    assert!(r.body.contains(&literal));
}

#[test]
fn recall_request_default_limit() {
    let r = recall_request("http://localhost:3850", "milk", None);
    assert_eq!(r.url, "http://localhost:3850/api/memory/recall");
    assert_eq!(r.body, "{\"limit\":10,\"query\":\"milk\"}");
    assert_eq!(r.timeout_secs, 10);
}

#[test]
fn recall_request_given_limit() {
    let r = recall_request("u", "a\tb", Some(3));
    let v: Value = serde_json::from_str(&r.body).unwrap();
    assert_eq!(v.get("limit").and_then(|c| c.as_u64()), Some(3));
    assert_eq!(v.get("query").and_then(|c| c.as_str()), Some("a\tb"));
    let e = recall_request("u", "q", Some(0));
    assert_eq!(e.body, "{\"limit\":0,\"query\":\"q\"}");
}

#[test]
fn success_statuses() {
    assert!(is_success(200));
    assert!(is_success(299));
    assert!(!is_success(199));
    assert!(!is_success(300));
    assert!(!is_success(404));
}

#[test]
fn remember_unsent_messages() {
    let e = Reply::Unsent("connection refused".to_string());
    assert_eq!(remember_outcome(&e, CaptureSource::QuickCapture), Err("Failed to send: connection refused".to_string()));
    assert_eq!(
        remember_outcome(&e, CaptureSource::SharedText),
        Err("Failed to ingest shared text: connection refused".to_string())
    );
}

#[test]
fn remember_http_error() {
    let r = Reply::Received { status: 404, status_text: "404 Not Found".to_string(), body: Ok("nope".to_string()) };
    assert_eq!(remember_outcome(&r, CaptureSource::QuickCapture), Err("HTTP 404 Not Found: nope".to_string()));
    let r = Reply::Received { status: 500, status_text: "500 Internal Server Error".to_string(), body: Err("eof".to_string()) };
    assert_eq!(remember_outcome(&r, CaptureSource::SharedText), Err("HTTP 500 Internal Server Error: ".to_string()));
}

#[test]
fn remember_success() {
    let r = Reply::Received { status: 201, status_text: "201 Created".to_string(), body: Err("x".to_string()) };
    assert_eq!(remember_outcome(&r, CaptureSource::QuickCapture), Ok(()));
}

#[test]
fn recall_outcomes() {
    let ok = Reply::Received { status: 200, status_text: "200 OK".to_string(), body: Ok("[]".to_string()) };
    assert_eq!(recall_outcome(&ok), Ok("[]".to_string()));
    let unread = Reply::Received { status: 200, status_text: "200 OK".to_string(), body: Err("reset".to_string()) };
    assert_eq!(recall_outcome(&unread), Err("Failed to read body: reset".to_string()));
    let bad = Reply::Received { status: 503, status_text: "503 Service Unavailable".to_string(), body: Ok("busy".to_string()) };
    assert_eq!(recall_outcome(&bad), Err("HTTP 503 Service Unavailable: busy".to_string()));
    assert_eq!(recall_outcome(&Reply::Unsent("timeout".to_string())), Err("Failed to send: timeout".to_string()));
}

#[test]
fn shared_text_filter() {
    assert!(!should_ingest_shared_text(""));
    assert!(should_ingest_shared_text(" "));
}

#[test]
fn restart_pause() {
    assert_eq!(RESTART_PAUSE_MS, 500);
}
