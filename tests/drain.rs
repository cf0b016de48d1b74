use kernel_conformance::driver::{
    accept_kernel_info, assign_ports, connection_file_name, settle, CommWatch, DrainKind, HarnessError, IopubDrain, Read, Wait,
};
use kernel_conformance::message::{
    Content, ExecutionState, KernelInfo, Message, ReplyStatus, StreamName,
};

fn msg(msg_type: &str, parent: Option<&str>, content: Content) -> Message {
    Message { msg_type: msg_type.to_string(), parent_id: parent.map(|p| p.to_string()), content }
}

fn status(parent: &str, state: ExecutionState) -> Message {
    msg("status", Some(parent), Content::Status { state })
}

fn stream(parent: &str, text: &str) -> Message {
    msg("stream", Some(parent), Content::Stream { name: StreamName::Stdout, text: text.to_string() })
}

fn drain(kind: DrainKind) -> IopubDrain {
    IopubDrain::new("req-1".to_string(), kind, 1000, "test_input_42".to_string())
}

#[test]
fn idle_ends_drain_with_all_messages_in_order() {
    let mut d = drain(DrainKind::Execute);
    assert!(!d.on_iopub(status("req-1", ExecutionState::Busy)));
    assert!(!d.on_iopub(stream("req-1", "hello\n")));
    assert!(d.on_iopub(status("req-1", ExecutionState::Idle)));
    assert!(d.finished());
    let kept = d.into_messages();
    assert_eq!(kept.len(), 3);
    assert_eq!(kept[0].msg_type, "status");
    assert_eq!(kept[1].msg_type, "stream");
    assert!(matches!(kept[2].content, Content::Status { state: ExecutionState::Idle }));
}

#[test]
fn stray_messages_are_dropped() {
    let mut d = drain(DrainKind::Execute);
    d.on_iopub(status("req-1", ExecutionState::Busy));
    d.on_iopub(stream("other", "leak"));
    d.on_iopub(msg("status", None, Content::Status { state: ExecutionState::Idle }));
    assert!(!d.finished());
    d.on_iopub(status("other", ExecutionState::Idle));
    assert!(!d.finished());
    d.on_iopub(status("req-1", ExecutionState::Idle));
    let kept = d.into_messages();
    assert_eq!(kept.len(), 2);
    assert!(kept.iter().all(|m| m.parent_id.as_deref() == Some("req-1")));
}

#[test]
fn nothing_kept_after_idle() {
    let mut d = drain(DrainKind::ShellRequest);
    d.on_iopub(status("req-1", ExecutionState::Idle));
    assert!(d.on_iopub(stream("req-1", "late")));
    assert_eq!(d.into_messages().len(), 1);
}

#[test]
fn deadline_expiry() {
    let d = drain(DrainKind::Execute);
    assert!(d.expired(999).is_none());
    assert!(d.expired(1000).is_none());
    match d.expired(1001) {
        Some(HarnessError::Timeout(s)) => assert_eq!(s, "iopub idle"),
        other => panic!("unexpected {:?}", other),
    }
    let s = drain(DrainKind::ExecuteWithStdin);
    match s.expired(5000) {
        Some(e) => assert_eq!(e.message(), "Timeout waiting for iopub idle (stdin test)"),
        None => panic!("expected a timeout"),
    }
}

#[test]
fn input_request_is_answered() {
    let mut d = drain(DrainKind::ExecuteWithStdin);
    assert!(!d.saw_input_request());
    let other = msg("status", Some("req-1"), Content::Status { state: ExecutionState::Busy });
    assert_eq!(d.on_stdin(&other), None);
    let req = msg("input_request", Some("req-1"), Content::InputRequest { prompt: "Enter: ".to_string() });
    assert_eq!(d.on_stdin(&req), Some("test_input_42".to_string()));
    assert!(d.saw_input_request());
    d.on_iopub(status("req-1", ExecutionState::Idle));
    assert!(d.finished());
    assert!(d.saw_input_request());
}

#[test]
fn reply_waits_by_kind() {
    assert_eq!(drain(DrainKind::Execute).reply_wait(), Wait::ExecuteReply);
    assert_eq!(drain(DrainKind::ExecuteWithStdin).reply_wait(), Wait::StdinExecuteReply);
    assert_eq!(drain(DrainKind::ShellRequest).reply_wait(), Wait::ShellReply);
}

#[test]
fn settling_reads() {
    let ok: Result<u8, HarnessError> = settle(Wait::ShellReply, Read::Received(3));
    assert!(matches!(ok, Ok(3)));
    match settle::<u8>(Wait::ControlReply, Read::TimedOut) {
        Err(e) => assert_eq!(e.message(), "Timeout waiting for control reply"),
        Ok(_) => panic!("expected a timeout"),
    }
    match settle::<u8>(Wait::ShellReply, Read::Failed("socket closed".to_string())) {
        Err(e) => assert_eq!(e.message(), "Protocol error: socket closed"),
        Ok(_) => panic!("expected an error"),
    }
}

#[test]
fn kernel_info_acceptance() {
    let info = KernelInfo {
        status: ReplyStatus::Success,
        language: "python".to_string(),
        implementation: "ipykernel".to_string(),
        protocol_version: "5.3".to_string(),
    };
    let good = msg("kernel_info_reply", Some("k"), Content::KernelInfoReply { info });
    match accept_kernel_info(good) {
        Ok(i) => assert_eq!(i.language, "python"),
        Err(e) => panic!("unexpected {:?}", e),
    }
    let bad = msg("status", Some("k"), Content::Status { state: ExecutionState::Busy });
    match accept_kernel_info(bad) {
        Err(e) => assert_eq!(e.message(), "Protocol error: Expected kernel_info_reply, got \"status\""),
        Ok(_) => panic!("expected an error"),
    }
}

#[test]
fn comm_rejection_watch() {
    let w = CommWatch::new("test-comm-1".to_string());
    assert!(w.watching(0));
    assert!(w.watching(499));
    assert!(!w.watching(500));
    let close = msg("comm_close", Some("x"), Content::CommClose { comm_id: "test-comm-1".to_string() });
    let other = msg("comm_close", Some("x"), Content::CommClose { comm_id: "test-comm-2".to_string() });
    assert!(w.rejects(&close));
    assert!(!w.rejects(&other));
    assert!(!w.rejects(&stream("x", "test-comm-1")));
}

#[test]
fn error_texts() {
    assert_eq!(HarnessError::LaunchFailed("spawn".to_string()).message(), "Kernel launch failed: spawn");
    assert_eq!(HarnessError::ConnectionFailed("c".to_string()).message(), "Connection failed: c");
    assert_eq!(HarnessError::IoError("e".to_string()).message(), "IO error: e");
    assert_eq!(HarnessError::RuntimeError("r".to_string()).message(), "Runtime error: r");
}

#[test]
fn port_assignment() {
    let p = assign_ports(&vec![9001, 9002, 9003, 9004, 9005]).expect("five distinct ports");
    assert_eq!((p.stdin, p.control, p.hb, p.shell, p.iopub), (9001, 9002, 9003, 9004, 9005));
    match assign_ports(&vec![9001, 9002, 9003, 9002, 9005]) {
        Err(e) => assert_eq!(e.message(), "Kernel launch failed: expected five distinct free ports"),
        Ok(_) => panic!("duplicate ports accepted"),
    }
    assert!(assign_ports(&vec![9001, 9002]).is_err());
}

#[test]
fn connection_file_naming() {
    assert_eq!(connection_file_name("abc-123"), "kernel-test-abc-123.json");
}

#[test]
fn stdin_failure_does_not_end_drain() {
    let mut d = drain(DrainKind::ExecuteWithStdin);
    assert!(d.on_stdin_failure("socket closed").is_none());
    assert!(!d.finished());
    assert!(d.on_iopub(status("req-1", ExecutionState::Idle)));
}
