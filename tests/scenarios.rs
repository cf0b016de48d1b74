use kernel_conformance::catalog::{all_tests, plan_suite, tier_selected};
use kernel_conformance::checks::{Action, Check, CheckRun, Outcome, Request, MOCK_INPUT, TEST_COMM_TARGET};
use kernel_conformance::driver::{CommWatch, DrainKind, HarnessError, IopubDrain};
use kernel_conformance::message::{
    Content, ExecutionState, IsCompleteStatus, KernelInfo, Message, ReplyStatus, StreamName,
};
use kernel_conformance::snippets::{LanguageSnippets, Snippet};
use kernel_conformance::types::{FailureKind, TestCategory, TestResult};
use kernel_conformance::verdict::{Execution, StdinExecution};

const REQ: &str = "msg-1";

fn msg(msg_type: &str, content: Content) -> Message {
    Message { msg_type: msg_type.to_string(), parent_id: Some(REQ.to_string()), content }
}

fn busy() -> Message {
    msg("status", Content::Status { state: ExecutionState::Busy })
}

fn idle() -> Message {
    msg("status", Content::Status { state: ExecutionState::Idle })
}

fn execute_reply(status: ReplyStatus, count: u64) -> Message {
    msg("execute_reply", Content::ExecuteReply { status, execution_count: count })
}

/// Runs the iopub trace through a drain, as the driver does.
fn collect(trace: Vec<Message>) -> Vec<Message> {
    let mut d = IopubDrain::new(REQ.to_string(), DrainKind::Execute, 1000, String::new());
    for m in trace {
        if d.on_iopub(m) {
            break;
        }
    }
    assert!(d.finished());
    d.into_messages()
}

fn python() -> LanguageSnippets {
    LanguageSnippets::for_language("python")
}

fn info() -> KernelInfo {
    KernelInfo {
        status: ReplyStatus::Success,
        language: "python".to_string(),
        implementation: "ipykernel".to_string(),
        protocol_version: "5.3".to_string(),
    }
}

/// Drives one check with the given outcomes, in order, until it finishes.
fn run(check: Check, sn: &LanguageSnippets, outcomes: Vec<Outcome>) -> TestResult {
    let i = info();
    let mut r = CheckRun::new(check);
    let mut action = r.start(sn, Some(&i));
    for o in outcomes {
        if let Action::Finish(t) = action {
            return t;
        }
        action = r.resume(o);
    }
    match action {
        Action::Finish(t) => t,
        other => panic!("check did not finish: {:?}", other),
    }
}

fn executed(reply: Message, iopub: Vec<Message>) -> Outcome {
    Outcome::Executed(Ok(Execution { reply, iopub }))
}

fn hello_trace() -> Vec<Message> {
    collect(vec![
        busy(),
        msg("stream", Content::Stream { name: StreamName::Stdout, text: "hello\n".to_string() }),
        idle(),
    ])
}

fn fail_of(t: TestResult) -> (String, Option<FailureKind>) {
    match t {
        TestResult::Fail { reason, kind } => (reason, kind),
        other => panic!("expected a failure, got {:?}", other),
    }
}

#[test]
fn hello_stdout_scenario() {
    let sn = python();
    assert_eq!(sn.print_hello, "print('hello')");
    let ok = || execute_reply(ReplyStatus::Success, 1);
    let r = run(Check::ExecuteStdout, &sn, vec![executed(ok(), hello_trace())]);
    assert!(matches!(r, TestResult::Pass));
    let r = run(Check::StatusBusyIdleLifecycle, &sn, vec![executed(ok(), hello_trace())]);
    assert!(matches!(r, TestResult::Pass));
    let r = run(Check::ExecuteInputBroadcast, &sn, vec![executed(ok(), hello_trace())]);
    assert_eq!(fail_of(r).0, "No execute_input broadcast");
    let r = run(Check::ParentHeaderCorrelation, &sn, vec![executed(ok(), hello_trace())]);
    assert!(matches!(r, TestResult::Pass));
}

#[test]
fn syntax_error_scenario() {
    let sn = python();
    assert_eq!(sn.syntax_error, "def class");
    let trace = || collect(vec![busy(), msg("error", Content::ErrorOutput), idle()]);
    let r = run(Check::ErrorHandling, &sn, vec![executed(execute_reply(ReplyStatus::Error, 1), trace())]);
    assert!(matches!(r, TestResult::Pass));
    let r = run(Check::ExecuteReplyOk, &sn, vec![executed(execute_reply(ReplyStatus::Error, 1), trace())]);
    let (reason, kind) = fail_of(r);
    assert_eq!(reason, "execute_reply status: Error");
    assert_eq!(kind, Some(FailureKind::KernelError));
}

#[test]
fn stdin_round_trip_scenario() {
    let sn = python();
    let i = info();
    let mut run = CheckRun::new(Check::StdinInputRequest);
    match run.start(&sn, Some(&i)) {
        Action::ExecuteWithStdin { code, input } => {
            assert_eq!(sn.code(code), "input('Enter: ')");
            assert_eq!(input, MOCK_INPUT);
        }
        other => panic!("unexpected {:?}", other),
    }
    let mut d = IopubDrain::new(REQ.to_string(), DrainKind::ExecuteWithStdin, 1000, MOCK_INPUT.to_string());
    d.on_iopub(busy());
    let answer = d.on_stdin(&msg("input_request", Content::InputRequest { prompt: "Enter: ".to_string() }));
    assert_eq!(answer, Some("test_input_42".to_string()));
    d.on_iopub(msg("execute_result", Content::ExecuteResult));
    assert!(d.on_iopub(idle()));
    let saw = d.saw_input_request();
    assert!(saw);
    let x = StdinExecution { reply: execute_reply(ReplyStatus::Success, 2), iopub: d.into_messages(), saw_input_request: saw };
    match run.resume(Outcome::ExecutedWithStdin(Ok(x))) {
        Action::Finish(TestResult::Pass) => {}
        other => panic!("unexpected {:?}", other),
    }
}

#[test]
fn stdin_without_input_request_fails() {
    let x = StdinExecution { reply: execute_reply(ReplyStatus::Success, 2), iopub: vec![], saw_input_request: false };
    let r = run(Check::StdinInputRequest, &python(), vec![Outcome::ExecutedWithStdin(Ok(x))]);
    let (reason, kind) = fail_of(r);
    assert_eq!(reason, "No input_request received on stdin channel");
    assert_eq!(kind, Some(FailureKind::UnexpectedContent));
}

#[test]
fn count_increments_scenario() {
    let sn = python();
    let r = run(
        Check::ExecutionCountIncrements,
        &sn,
        vec![
            executed(execute_reply(ReplyStatus::Success, 7), vec![]),
            executed(execute_reply(ReplyStatus::Success, 8), vec![]),
        ],
    );
    assert!(matches!(r, TestResult::Pass));
    let r = run(
        Check::ExecutionCountIncrements,
        &sn,
        vec![
            executed(execute_reply(ReplyStatus::Success, 8), vec![]),
            executed(execute_reply(ReplyStatus::Success, 8), vec![]),
        ],
    );
    assert_eq!(fail_of(r).0, "Counts didn't increment: 8 -> 8");
}

#[test]
fn count_check_reports_first_error() {
    let r = run(
        Check::ExecutionCountIncrements,
        &python(),
        vec![
            Outcome::Executed(Err(HarnessError::Timeout("iopub idle".to_string()))),
            Outcome::Executed(Err(HarnessError::ProtocolError("gone".to_string()))),
        ],
    );
    let (reason, kind) = fail_of(r);
    assert_eq!(reason, "Timeout waiting for iopub idle");
    assert_eq!(kind, Some(FailureKind::Timeout));
}

#[test]
fn comm_rejection_scenario() {
    let sn = python();
    let i = info();
    let mut run = CheckRun::new(Check::CommsLifecycle);
    let comm_id = match run.start(&sn, Some(&i)) {
        Action::OpenComm { comm_id, target_name } => {
            assert_eq!(target_name, TEST_COMM_TARGET);
            assert!(comm_id.starts_with("test-comm-"));
            assert!(comm_id.len() > "test-comm-".len());
            comm_id
        }
        other => panic!("unexpected {:?}", other),
    };
    let watch = CommWatch::new(comm_id.clone());
    let close = Message {
        msg_type: "comm_close".to_string(),
        parent_id: None,
        content: Content::CommClose { comm_id },
    };
    assert!(watch.watching(300));
    let rejected = watch.rejects(&close);
    assert!(rejected);
    match run.resume(Outcome::CommOpened(Ok(rejected))) {
        Action::Finish(TestResult::Pass) => {}
        other => panic!("unexpected {:?}", other),
    }
}

#[test]
fn comm_accepted_then_kernel_responsive() {
    let sn = python();
    let i = info();
    let mut run = CheckRun::new(Check::CommsLifecycle);
    let opened = match run.start(&sn, Some(&i)) {
        Action::OpenComm { comm_id, .. } => comm_id,
        other => panic!("unexpected {:?}", other),
    };
    match run.resume(Outcome::CommOpened(Ok(false))) {
        Action::CloseComm { comm_id } => assert_eq!(comm_id, opened),
        other => panic!("unexpected {:?}", other),
    }
    assert!(matches!(run.resume(Outcome::CommClosed(Ok(()))), Action::Execute(Snippet::CompleteCode)));
    match run.resume(Outcome::Executed(Err(HarnessError::Timeout("iopub idle".to_string())))) {
        Action::Finish(t) => {
            let (reason, kind) = fail_of(t);
            assert_eq!(reason, "Kernel unresponsive after comm: Timeout waiting for iopub idle");
            assert_eq!(kind, Some(FailureKind::Timeout));
        }
        other => panic!("unexpected {:?}", other),
    }
}

#[test]
fn timeout_scenario() {
    let mut d = IopubDrain::new(REQ.to_string(), DrainKind::Execute, 1000, String::new());
    d.on_iopub(busy());
    assert!(d.expired(900).is_none());
    let err = d.expired(1100).expect("deadline passed");
    let r = run(Check::ExecuteReplyOk, &python(), vec![Outcome::Executed(Err(err))]);
    let (reason, kind) = fail_of(r);
    assert_eq!(reason, "Timeout waiting for iopub idle");
    assert_eq!(kind, Some(FailureKind::Timeout));
}

#[test]
fn idle_before_busy_fails_lifecycle() {
    let trace = vec![idle(), busy()];
    let r = run(Check::StatusBusyIdleLifecycle, &python(), vec![executed(execute_reply(ReplyStatus::Success, 1), trace)]);
    assert_eq!(fail_of(r).0, "idle came before busy");
    let r = run(Check::StatusBusyIdleLifecycle, &python(), vec![executed(execute_reply(ReplyStatus::Success, 1), vec![idle()])]);
    assert_eq!(fail_of(r).0, "Missing status: busy=false, idle=true");
}

#[test]
fn unsupported_snippet_skips_kernel() {
    let rust = LanguageSnippets::for_language("rust");
    let i = info();
    let mut run = CheckRun::new(Check::StdinInputRequest);
    assert!(matches!(run.start(&rust, Some(&i)), Action::Finish(TestResult::Unsupported)));
    let julia = LanguageSnippets::for_language("julia");
    let mut run = CheckRun::new(Check::UpdateDisplayData);
    assert!(matches!(run.start(&julia, Some(&i)), Action::Finish(TestResult::Unsupported)));
    let mut run = CheckRun::new(Check::DisplayData);
    assert!(matches!(run.start(&julia, Some(&i)), Action::Execute(Snippet::DisplayData)));
}

#[test]
fn kernel_info_checks() {
    let sn = python();
    let mut run = CheckRun::new(Check::KernelInfoHasLanguageInfo);
    assert!(matches!(run.start(&sn, Some(&info())), Action::Finish(TestResult::Pass)));
    let mut run = CheckRun::new(Check::KernelInfoReplyValid);
    match run.start(&sn, None) {
        Action::Finish(t) => {
            let (reason, kind) = fail_of(t);
            assert_eq!(reason, "No kernel_info received");
            assert_eq!(kind, Some(FailureKind::Timeout));
        }
        other => panic!("unexpected {:?}", other),
    }
    let mut empty = info();
    empty.protocol_version = String::new();
    let mut run = CheckRun::new(Check::KernelInfoHasProtocolVersion);
    match run.start(&sn, Some(&empty)) {
        Action::Finish(t) => assert_eq!(fail_of(t).0, "protocol_version is empty"),
        other => panic!("unexpected {:?}", other),
    }
}

#[test]
fn completion_check_sets_up_then_requests() {
    let sn = python();
    let i = info();
    let mut run = CheckRun::new(Check::CompleteRequest);
    assert!(matches!(run.start(&sn, Some(&i)), Action::Execute(Snippet::CompletionSetup)));
    let next = run.resume(Outcome::Executed(Err(HarnessError::Timeout("iopub idle".to_string()))));
    assert!(matches!(next, Action::Shell(Request::Complete { code: Snippet::CompletionPrefix })));
    let reply = msg("complete_reply", Content::CompleteReply { status: ReplyStatus::Error, error: "None".to_string() });
    match run.resume(Outcome::Replied(Ok(reply))) {
        Action::Finish(t) => assert_eq!(fail_of(t).0, "complete_reply error: None"),
        other => panic!("unexpected {:?}", other),
    }
}

#[test]
fn is_complete_partial_credit() {
    let reply = msg("is_complete_reply", Content::IsCompleteReply { status: IsCompleteStatus::Invalid });
    let r = run(Check::IsCompleteIncomplete, &python(), vec![Outcome::Replied(Ok(reply))]);
    match r {
        TestResult::PartialPass { score_percent, notes } => {
            assert_eq!(score_percent, 50);
            assert_eq!(notes, "Expected 'incomplete', got Invalid");
        }
        other => panic!("unexpected {:?}", other),
    }
}

#[test]
fn wrong_reply_type() {
    let r = run(Check::InterruptRequest, &python(), vec![Outcome::Replied(Ok(busy()))]);
    let (reason, kind) = fail_of(r);
    assert_eq!(reason, "Expected interrupt_reply, got \"status\"");
    assert_eq!(kind, Some(FailureKind::UnexpectedMessageType));
}

#[test]
fn update_display_partial() {
    let trace = vec![busy(), msg("display_data", Content::DisplayData), idle()];
    let r = run(Check::UpdateDisplayData, &python(), vec![executed(execute_reply(ReplyStatus::Success, 1), trace)]);
    match r {
        TestResult::PartialPass { score_percent, notes } => {
            assert_eq!(score_percent, 50);
            assert_eq!(notes, "display_data received but no update_display_data");
        }
        other => panic!("unexpected {:?}", other),
    }
    let r = run(Check::DisplayData, &python(), vec![executed(execute_reply(ReplyStatus::Success, 1), vec![idle()])]);
    assert!(matches!(r, TestResult::Unsupported));
}

#[test]
fn outcome_out_of_turn() {
    let r = run(Check::HeartbeatResponds, &python(), vec![Outcome::CommClosed(Ok(()))]);
    assert_eq!(fail_of(r).1, Some(FailureKind::HarnessError));
    let r = run(Check::HeartbeatResponds, &python(), vec![Outcome::Heartbeat(Ok(()))]);
    assert!(matches!(r, TestResult::Pass));
}

#[test]
fn catalog_order_and_plan() {
    let tests = all_tests();
    assert_eq!(tests.len(), 25);
    assert_eq!(tests[0].name, "heartbeat_responds");
    assert_eq!(tests[24].name, "shutdown_reply");
    assert_eq!(tests[24].category, TestCategory::Tier1Basic);
    let everything = vec![
        TestCategory::Tier1Basic,
        TestCategory::Tier2Interactive,
        TestCategory::Tier3RichOutput,
        TestCategory::Tier4Advanced,
    ];
    let plan = plan_suite(&everything, &tests);
    assert_eq!(plan, (0..25).collect::<Vec<usize>>());
    let t3 = plan_suite(&vec![TestCategory::Tier3RichOutput], &tests);
    let names: Vec<&str> = t3.iter().map(|&i| tests[i].name).collect();
    assert_eq!(names, vec!["display_data", "update_display_data", "execute_result"]);
    let t14 = plan_suite(&vec![TestCategory::Tier4Advanced, TestCategory::Tier1Basic], &tests);
    assert_eq!(tests[*t14.last().unwrap()].name, "shutdown_reply");
    assert_eq!(t14.len(), 10 + 5);
    assert!(tier_selected(&everything, TestCategory::Tier2Interactive));
    assert!(!tier_selected(&vec![], TestCategory::Tier2Interactive));
}

#[test]
fn record_of_a_run() {
    let tests = all_tests();
    let rec = tests[4].record(TestResult::Pass, 12);
    assert_eq!(rec.name, "execute_stdout");
    assert_eq!(rec.message_type, "execute_request");
    assert_eq!(rec.duration_ms, 12);
}
