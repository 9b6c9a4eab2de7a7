use termai_bridge::bridge::{
    cli_port, cli_program, is_trigger_line, ready_url, send_line, web_remote_args, BridgeDrain,
    BridgeEvent, CliReadyEvent,
};

fn output(line: &str) -> BridgeEvent {
    BridgeEvent::Output { line: line.to_string() }
}

#[test]
fn ready_follows_token_line() {
    let mut drain = BridgeDrain::new("41242", "/work");
    assert!(!drain.wants_token("starting"));
    assert_eq!(drain.on_line("starting", None), vec![output("starting")]);
    assert!(drain.wants_token("Token stored at /x"));
    let events = drain.on_line("Token stored at /x", Some("{\"token\":\"abc123\"}"));
    assert_eq!(
        events,
        vec![
            output("Token stored at /x"),
            BridgeEvent::Ready {
                event: CliReadyEvent {
                    url: "http://127.0.0.1:41242".to_string(),
                    token: "abc123".to_string(),
                    workspace: "/work".to_string(),
                },
            },
        ]
    );
    assert!(drain.is_ready());
}

#[test]
fn ready_announced_once() {
    let mut drain = BridgeDrain::new("41242", "/work");
    let first = drain.on_line("Server listening", Some("{\"token\":\"t1\"}"));
    assert_eq!(first.len(), 2);
    assert!(!drain.wants_token("Token again"));
    let again = drain.on_line("Token again", Some("{\"token\":\"t2\"}"));
    assert_eq!(again, vec![output("Token again")]);
}

#[test]
fn failed_token_read_is_retried() {
    let mut drain = BridgeDrain::new("7000", "/w");
    assert_eq!(drain.on_line("Token pending", None), vec![output("Token pending")]);
    assert_eq!(drain.on_line("Token pending", Some("{}")), vec![output("Token pending")]);
    assert!(!drain.is_ready());
    let events = drain.on_line("now listening", Some("{\"token\": \"late\"}"));
    assert_eq!(events.len(), 2);
    match &events[1] {
        BridgeEvent::Ready { event } => {
            assert_eq!(event.token, "late");
            assert_eq!(event.url, "http://127.0.0.1:7000");
        }
        other => panic!("unexpected event {:?}", other),
    }
}

#[test]
fn non_trigger_line_ignores_auth() {
    let mut drain = BridgeDrain::new("41242", "/work");
    assert_eq!(drain.on_line("hello", Some("{\"token\":\"x\"}")), vec![output("hello")]);
    assert!(!drain.is_ready());
}

#[test]
fn lines_emitted_in_order() {
    let mut drain = BridgeDrain::new("41242", "/work");
    let mut seen = Vec::new();
    for line in ["a", "b", "c"] {
        for event in drain.on_line(line, None) {
            if let BridgeEvent::Output { line } = event {
                seen.push(line);
            }
        }
    }
    assert_eq!(seen, vec!["a".to_string(), "b".to_string(), "c".to_string()]);
}

#[test]
fn stopped_drain_emits_nothing() {
    let mut drain = BridgeDrain::new("41242", "/work");
    assert!(drain.observe_running(true));
    assert!(!drain.is_stopped());
    assert!(!drain.observe_running(false));
    assert!(drain.is_stopped());
    assert!(!drain.wants_token("Token"));
    assert_eq!(drain.on_line("Token", Some("{\"token\":\"x\"}")), Vec::new());
    assert!(!drain.observe_running(true));
}

#[test]
fn trigger_lines() {
    assert!(is_trigger_line("Token stored at /x"));
    assert!(is_trigger_line("Server listening on 41242"));
    assert!(!is_trigger_line("token lower case"));
    assert!(!is_trigger_line(""));
}

#[test]
fn launch_settings() {
    assert_eq!(cli_program(None), "terminai");
    assert_eq!(cli_program(Some("/opt/cli".to_string())), "/opt/cli");
    assert_eq!(cli_port(None), "41242");
    assert_eq!(cli_port(Some("5000".to_string())), "5000");
    assert_eq!(
        web_remote_args("41242"),
        vec!["--web-remote", "--web-remote-port", "41242", "--output-format", "stream-json"]
    );
    assert_eq!(ready_url("1"), "http://127.0.0.1:1");
}

#[test]
fn send_appends_line_break() {
    assert_eq!(send_line("hi"), "hi\n");
    assert_eq!(send_line(""), "\n");
}
