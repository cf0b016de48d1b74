use kernel_conformance::types::{
    ConformanceMatrix, FailureKind, KernelReport, TestCategory, TestRecord, TestResult,
};

fn record(name: &str, category: TestCategory, result: TestResult) -> TestRecord {
    TestRecord {
        name: name.to_string(),
        category,
        description: String::new(),
        message_type: String::new(),
        result,
        duration_ms: 5,
    }
}

fn report(name: &str, results: Vec<TestRecord>) -> KernelReport {
    KernelReport {
        kernel_name: name.to_string(),
        language: "python".to_string(),
        implementation: "ipykernel".to_string(),
        protocol_version: "5.3".to_string(),
        results,
        timestamp_ms: 0,
        total_duration_ms: 10,
        startup_error: None,
    }
}

#[test]
fn failure_kind_hints_and_sources() {
    assert_eq!(
        FailureKind::Timeout.actionable_hint(),
        "Kernel may be slow to start or not responding. Try increasing timeout."
    );
    assert_eq!(FailureKind::Timeout.likely_source(), "kernel");
    assert_eq!(FailureKind::ProtocolError.likely_source(), "runtimed");
    assert_eq!(FailureKind::HarnessError.likely_source(), "testbed");
    assert_eq!(FailureKind::KernelError.likely_source(), "kernel");
    assert_eq!(
        FailureKind::HarnessError.actionable_hint(),
        "Test harness issue. Check test setup and dependencies."
    );
}

#[test]
fn tier_numbers_and_descriptions() {
    assert_eq!(TestCategory::Tier1Basic.tier_number(), 1);
    assert_eq!(TestCategory::Tier2Interactive.tier_number(), 2);
    assert_eq!(TestCategory::Tier3RichOutput.tier_number(), 3);
    assert_eq!(TestCategory::Tier4Advanced.tier_number(), 4);
    assert_eq!(TestCategory::Tier1Basic.description(), "Basic Protocol");
    assert_eq!(TestCategory::Tier3RichOutput.description(), "Rich Output");
}

#[test]
fn result_classification() {
    assert!(TestResult::Pass.is_pass());
    assert!(TestResult::PartialPass { score_percent: 50, notes: String::new() }.is_pass());
    assert!(!TestResult::Unsupported.is_pass());
    assert!(!TestResult::Timeout.is_pass());
    assert!(!TestResult::fail_simple("x").is_pass());
    assert_eq!(TestResult::Timeout.failure_kind(), Some(FailureKind::Timeout));
    assert_eq!(TestResult::fail("x", FailureKind::KernelError).failure_kind(), Some(FailureKind::KernelError));
    assert_eq!(TestResult::fail_simple("x").failure_kind(), None);
    assert_eq!(TestResult::Pass.failure_kind(), None);
    assert_eq!(TestResult::Pass.symbol(), "PASS");
    assert_eq!(TestResult::Unsupported.symbol(), "SKIP");
    assert_eq!(TestResult::Timeout.symbol(), "TIME");
    assert_eq!(TestResult::fail_simple("x").emoji(), "\u{274c}");
    assert_eq!(TestResult::Pass.emoji(), "\u{2705}");
}

#[test]
fn report_counts_and_tiers() {
    let r = report(
        "k",
        vec![
            record("a", TestCategory::Tier1Basic, TestResult::Pass),
            record("b", TestCategory::Tier2Interactive, TestResult::fail_simple("no")),
            record("c", TestCategory::Tier1Basic, TestResult::PartialPass { score_percent: 50, notes: String::new() }),
            record("d", TestCategory::Tier1Basic, TestResult::Unsupported),
        ],
    );
    assert_eq!(r.passed(), 2);
    assert_eq!(r.total(), 4);
    let t1: Vec<&str> = r.tier_results(TestCategory::Tier1Basic).iter().map(|t| t.name.as_str()).collect();
    assert_eq!(t1, vec!["a", "c", "d"]);
    assert_eq!(r.tier_score(TestCategory::Tier1Basic), (2, 3));
    assert_eq!(r.tier_score(TestCategory::Tier2Interactive), (0, 1));
    assert_eq!(r.tier_score(TestCategory::Tier4Advanced), (0, 0));
    assert!(!r.has_startup_error());
}

#[test]
fn empty_report_counts_zero() {
    let r = report("k", vec![]);
    assert_eq!(r.passed(), 0);
    assert_eq!(r.total(), 0);
}

#[test]
fn startup_failure_report() {
    let r = KernelReport::new_failed_at_startup(
        "python3".to_string(),
        "python".to_string(),
        "Timeout waiting for kernel_info_reply".to_string(),
        1500,
    );
    assert!(r.has_startup_error());
    assert_eq!(r.implementation, "unknown");
    assert_eq!(r.protocol_version, "unknown");
    assert_eq!(r.results.len(), 1);
    assert_eq!(r.results[0].name, "kernel_startup");
    assert_eq!(r.results[0].category, TestCategory::Tier1Basic);
    assert_eq!(r.results[0].message_type, "kernel_info_request");
    assert_eq!(r.results[0].duration_ms, 1500);
    match &r.results[0].result {
        TestResult::Fail { reason, kind } => {
            assert_eq!(reason, "Timeout waiting for kernel_info_reply");
            assert_eq!(*kind, Some(FailureKind::ProtocolError));
        }
        other => panic!("unexpected {:?}", other),
    }
    assert_eq!(r.passed(), 0);
}

#[test]
fn matrix_names_sorted_and_deduplicated() {
    let a = report(
        "python3",
        vec![
            record("execute_stdout", TestCategory::Tier1Basic, TestResult::Pass),
            record("heartbeat_responds", TestCategory::Tier1Basic, TestResult::Pass),
        ],
    );
    let b = report(
        "ir",
        vec![
            record("heartbeat_responds", TestCategory::Tier1Basic, TestResult::Pass),
            record("comms_lifecycle", TestCategory::Tier4Advanced, TestResult::Pass),
            record("execute_stdout", TestCategory::Tier1Basic, TestResult::Pass),
        ],
    );
    let m = ConformanceMatrix::new(vec![a, b]);
    assert_eq!(m.all_test_names(), vec!["comms_lifecycle", "execute_stdout", "heartbeat_responds"]);
}

#[test]
fn matrix_of_no_reports_has_no_names() {
    let m = ConformanceMatrix::new(vec![]);
    assert!(m.all_test_names().is_empty());
}

#[test]
fn matrix_orders_by_code_point() {
    let a = report(
        "k",
        vec![
            record("b", TestCategory::Tier1Basic, TestResult::Pass),
            record("B", TestCategory::Tier1Basic, TestResult::Pass),
            record("ab", TestCategory::Tier1Basic, TestResult::Pass),
            record("a", TestCategory::Tier1Basic, TestResult::Pass),
            record("b", TestCategory::Tier1Basic, TestResult::Pass),
        ],
    );
    let m = ConformanceMatrix::new(vec![a]);
    assert_eq!(m.all_test_names(), vec!["B", "a", "ab", "b"]);
}
