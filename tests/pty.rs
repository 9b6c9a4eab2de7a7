use std::sync::atomic::Ordering;
use termai_bridge::pty::{
    build_command, exit_event_name, output_event_name, terminal_size, PtyDrain, PtyEvent,
    PtySession, ReadOutcome,
};

#[test]
fn immediate_exit_gives_one_exit_event() {
    let mut drain = PtyDrain::new();
    let mut events = Vec::new();
    while !drain.is_finished() {
        if let Some(e) = drain.observe_running(true) {
            events.push(e);
            continue;
        }
        events.push(drain.on_read(ReadOutcome::Bytes(Vec::new())));
    }
    assert_eq!(events, vec![PtyEvent::Exit]);
}

#[test]
fn chunks_relayed_then_exit() {
    let mut drain = PtyDrain::new();
    assert_eq!(drain.observe_running(true), None);
    assert_eq!(drain.on_read(ReadOutcome::Bytes(vec![104, 105])), PtyEvent::Output(vec![104, 105]));
    assert!(!drain.is_finished());
    assert_eq!(drain.on_read(ReadOutcome::Failed), PtyEvent::Exit);
    assert!(drain.is_finished());
}

#[test]
fn cleared_flag_ends_loop() {
    let mut drain = PtyDrain::new();
    assert_eq!(drain.observe_running(false), Some(PtyEvent::Exit));
    assert!(drain.is_finished());
}

#[test]
fn writes_reach_writer_in_order() {
    let mut session = PtySession::new(Vec::new());
    assert_eq!(session.write(b"ls"), Ok(()));
    assert_eq!(session.write(&[b' ', 0, 255]), Ok(()));
    assert_eq!(session.write(b"\r"), Ok(()));
    assert_eq!(session.write(&[]), Ok(()));
    assert_eq!(session.get_writer(), &vec![b'l', b's', b' ', 0, 255, b'\r']);
}

#[test]
fn stop_clears_running_flag() {
    let session = PtySession::new(Vec::new());
    let flag = session.running_flag().clone();
    assert!(flag.load(Ordering::SeqCst));
    session.stop();
    assert!(!flag.load(Ordering::SeqCst));
}

#[test]
fn write_leaves_running_flag_alone() {
    let mut session = PtySession::new(Vec::new());
    assert_eq!(session.write(b"abc"), Ok(()));
    assert_eq!(session.write(&[]), Ok(()));
    assert!(session.running_flag().load(Ordering::SeqCst));
    assert_eq!(session.get_writer(), &b"abc".to_vec());
}

#[test]
fn resize_always_succeeds() {
    let session = PtySession::new(Vec::new());
    assert_eq!(session.resize(40, 120), Ok(()));
    assert_eq!(session.resize(0, 0), Ok(()));
}

#[test]
fn command_line_is_program_then_args() {
    let cmd = build_command("bash", &["-l", "-c", "echo hi"]);
    let argv: Vec<String> = cmd
        .get_argv()
        .iter()
        .map(|a| a.to_str().unwrap().to_string())
        .collect();
    assert_eq!(argv, vec!["bash", "-l", "-c", "echo hi"]);
    let bare = build_command("sh", &[]);
    assert_eq!(bare.get_argv().len(), 1);
}

#[test]
fn terminal_geometry() {
    let size = terminal_size();
    assert_eq!((size.rows, size.cols, size.pixel_width, size.pixel_height), (24, 80, 0, 0));
}

#[test]
fn event_names_carry_session_id() {
    assert_eq!(output_event_name("s1"), "terminal-output-s1");
    assert_eq!(exit_event_name("s1"), "terminal-exit-s1");
}
