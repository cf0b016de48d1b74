//! Result and report model of a conformance run.

use vstd::prelude::*;

use crate::clock;
use crate::text::{insert_sorted, strictly_sorted, texts_of};

verus! {

/// Classification of why a check failed, to help locate the root cause.
#[derive(Debug, Clone, Copy, PartialEq, Eq, Structural)]
pub enum FailureKind {
    /// The kernel did not respond within the deadline.
    Timeout,
    /// A response could not be read or decoded.
    ProtocolError,
    /// The kernel answered with a message of another type.
    UnexpectedMessageType,
    /// The kernel answered with the right type but unexpected content.
    UnexpectedContent,
    /// The kernel reported an error status.
    KernelError,
    /// The harness itself could not carry the check out.
    HarnessError,
}

impl FailureKind {
    /// Fixed advice shown next to a failure of this kind.
    pub open spec fn hint_spec(self) -> Seq<char> {
        match self {
            FailureKind::Timeout => "Kernel may be slow to start or not responding. Try increasing timeout."@,
            FailureKind::ProtocolError => "Message parsing failed. Check runtimed protocol crate for compatibility."@,
            FailureKind::UnexpectedMessageType => "Kernel sent wrong message type. Check kernel implementation."@,
            FailureKind::UnexpectedContent => "Response format differs from spec. Check kernel implementation."@,
            FailureKind::KernelError => "Kernel reported an error. Check kernel logs for details."@,
            FailureKind::HarnessError => "Test harness issue. Check test setup and dependencies."@,
        }
    }

    /// The component most likely at fault for a failure of this kind.
    pub open spec fn source_spec(self) -> Seq<char> {
        match self {
            FailureKind::ProtocolError => "runtimed"@,
            FailureKind::HarnessError => "testbed"@,
            _ => "kernel"@,
        }
    }

    pub fn actionable_hint(&self) -> (r: &'static str)
        ensures
            r@ == self.hint_spec(),
    {
        proof {
            reveal_strlit("Kernel may be slow to start or not responding. Try increasing timeout.");
            reveal_strlit("Message parsing failed. Check runtimed protocol crate for compatibility.");
            reveal_strlit("Kernel sent wrong message type. Check kernel implementation.");
            reveal_strlit("Response format differs from spec. Check kernel implementation.");
            reveal_strlit("Kernel reported an error. Check kernel logs for details.");
            reveal_strlit("Test harness issue. Check test setup and dependencies.");
        }
        match self {
            FailureKind::Timeout => "Kernel may be slow to start or not responding. Try increasing timeout.",
            FailureKind::ProtocolError => "Message parsing failed. Check runtimed protocol crate for compatibility.",
            FailureKind::UnexpectedMessageType => "Kernel sent wrong message type. Check kernel implementation.",
            FailureKind::UnexpectedContent => "Response format differs from spec. Check kernel implementation.",
            FailureKind::KernelError => "Kernel reported an error. Check kernel logs for details.",
            FailureKind::HarnessError => "Test harness issue. Check test setup and dependencies.",
        }
    }

    pub fn likely_source(&self) -> (r: &'static str)
        ensures
            r@ == self.source_spec(),
    {
        proof {
            reveal_strlit("kernel");
            reveal_strlit("runtimed");
            reveal_strlit("testbed");
        }
        match self {
            FailureKind::Timeout => "kernel",
            FailureKind::ProtocolError => "runtimed",
            FailureKind::UnexpectedMessageType => "kernel",
            FailureKind::UnexpectedContent => "kernel",
            FailureKind::KernelError => "kernel",
            FailureKind::HarnessError => "testbed",
        }
    }
}

/// Tiers of conformance checks, ordered by protocol complexity.
#[derive(Debug, Clone, Copy, PartialEq, Eq, Hash, Structural)]
pub enum TestCategory {
    /// Operations every kernel must support.
    Tier1Basic,
    /// Completion, inspection and other interactive requests.
    Tier2Interactive,
    /// display_data, update_display_data and execute_result.
    Tier3RichOutput,
    /// stdin, comms, interrupts and message correlation.
    Tier4Advanced,
}

impl TestCategory {
    pub open spec fn tier_spec(self) -> u8 {
        match self {
            TestCategory::Tier1Basic => 1,
            TestCategory::Tier2Interactive => 2,
            TestCategory::Tier3RichOutput => 3,
            TestCategory::Tier4Advanced => 4,
        }
    }

    pub open spec fn description_spec(self) -> Seq<char> {
        match self {
            TestCategory::Tier1Basic => "Basic Protocol"@,
            TestCategory::Tier2Interactive => "Interactive Features"@,
            TestCategory::Tier3RichOutput => "Rich Output"@,
            TestCategory::Tier4Advanced => "Advanced Features"@,
        }
    }

    pub fn tier_number(&self) -> (r: u8)
        ensures
            r == self.tier_spec(),
            1 <= r <= 4,
    {
        match self {
            TestCategory::Tier1Basic => 1,
            TestCategory::Tier2Interactive => 2,
            TestCategory::Tier3RichOutput => 3,
            TestCategory::Tier4Advanced => 4,
        }
    }

    pub fn description(&self) -> (r: &'static str)
        ensures
            r@ == self.description_spec(),
    {
        proof {
            reveal_strlit("Basic Protocol");
            reveal_strlit("Interactive Features");
            reveal_strlit("Rich Output");
            reveal_strlit("Advanced Features");
        }
        match self {
            TestCategory::Tier1Basic => "Basic Protocol",
            TestCategory::Tier2Interactive => "Interactive Features",
            TestCategory::Tier3RichOutput => "Rich Output",
            TestCategory::Tier4Advanced => "Advanced Features",
        }
    }
}


/// Result of one conformance check.
#[derive(Debug, Clone)]
pub enum TestResult {
    /// The check passed completely.
    Pass,
    /// The check failed, with a reason and, where known, a diagnostic kind.
    Fail { reason: String, kind: Option<FailureKind> },
    /// The kernel does not offer the feature under check.
    Unsupported,
    /// The kernel did not respond in time.
    Timeout,
    /// Partial success: a score in percent (at most 100) and notes.
    PartialPass { score_percent: u8, notes: String },
}

/// What a [`TestResult`] holds, with its text as character sequences.
pub enum ResultView {
    Pass,
    Fail { reason: Seq<char>, kind: Option<FailureKind> },
    Unsupported,
    Timeout,
    PartialPass { score_percent: u8, notes: Seq<char> },
}

impl View for TestResult {
    type V = ResultView;

    open spec fn view(&self) -> ResultView {
        match self {
            TestResult::Pass => ResultView::Pass,
            TestResult::Fail { reason, kind } => ResultView::Fail { reason: reason@, kind: *kind },
            TestResult::Unsupported => ResultView::Unsupported,
            TestResult::Timeout => ResultView::Timeout,
            TestResult::PartialPass { score_percent, notes } => ResultView::PartialPass {
                score_percent: *score_percent,
                notes: notes@,
            },
        }
    }
}

impl TestResult {
    /// Counts toward the passed tally: `Pass` and `PartialPass`.
    pub open spec fn passes(self) -> bool {
        self is Pass || self is PartialPass
    }

    pub open spec fn kind_spec(self) -> Option<FailureKind> {
        match self {
            TestResult::Fail { kind, .. } => kind,
            TestResult::Timeout => Some(FailureKind::Timeout),
            _ => None,
        }
    }

    /// A partial score never exceeds one hundred percent.
    pub open spec fn wf(self) -> bool {
        self matches TestResult::PartialPass { score_percent, .. } ==> score_percent <= 100
    }

    /// A failure with a diagnostic kind.
    pub fn fail(reason: &str, kind: FailureKind) -> (r: Self)
        ensures
            r@ == (ResultView::Fail { reason: reason@, kind: Some(kind) }),
    {
        TestResult::Fail { reason: reason.to_string(), kind: Some(kind) }
    }

    /// A failure without a diagnostic kind.
    pub fn fail_simple(reason: &str) -> (r: Self)
        ensures
            r@ == (ResultView::Fail { reason: reason@, kind: None }),
    {
        TestResult::Fail { reason: reason.to_string(), kind: None }
    }

    /// The failure kind of a failure; `Timeout` counts as one of kind timeout.
    pub fn failure_kind(&self) -> (r: Option<FailureKind>)
        ensures
            r == self.kind_spec(),
    {
        match self {
            TestResult::Fail { kind, .. } => *kind,
            TestResult::Timeout => Some(FailureKind::Timeout),
            _ => None,
        }
    }

    pub fn is_pass(&self) -> (r: bool)
        ensures
            r == self.passes(),
    {
        match self {
            TestResult::Pass => true,
            TestResult::PartialPass { .. } => true,
            _ => false,
        }
    }

    pub open spec fn symbol_spec(self) -> Seq<char> {
        match self {
            TestResult::Pass => "PASS"@,
            TestResult::Fail { .. } => "FAIL"@,
            TestResult::Unsupported => "SKIP"@,
            TestResult::Timeout => "TIME"@,
            TestResult::PartialPass { .. } => "PART"@,
        }
    }

    pub fn symbol(&self) -> (r: &'static str)
        ensures
            r@ == self.symbol_spec(),
    {
        proof {
            reveal_strlit("PASS");
            reveal_strlit("FAIL");
            reveal_strlit("SKIP");
            reveal_strlit("TIME");
            reveal_strlit("PART");
        }
        match self {
            TestResult::Pass => "PASS",
            TestResult::Fail { .. } => "FAIL",
            TestResult::Unsupported => "SKIP",
            TestResult::Timeout => "TIME",
            TestResult::PartialPass { .. } => "PART",
        }
    }

    pub open spec fn emoji_spec(self) -> Seq<char> {
        match self {
            TestResult::Pass => "\u{2705}"@,
            TestResult::Fail { .. } => "\u{274c}"@,
            TestResult::Unsupported => "\u{23ed}\u{fe0f}"@,
            TestResult::Timeout => "\u{23f1}\u{fe0f}"@,
            TestResult::PartialPass { .. } => "\u{26a0}\u{fe0f}"@,
        }
    }

    pub fn emoji(&self) -> (r: &'static str)
        ensures
            r@ == self.emoji_spec(),
    {
        proof {
            reveal_strlit("\u{2705}");
            reveal_strlit("\u{274c}");
            reveal_strlit("\u{23ed}\u{fe0f}");
            reveal_strlit("\u{23f1}\u{fe0f}");
            reveal_strlit("\u{26a0}\u{fe0f}");
        }
        match self {
            TestResult::Pass => "\u{2705}",
            TestResult::Fail { .. } => "\u{274c}",
            TestResult::Unsupported => "\u{23ed}\u{fe0f}",
            TestResult::Timeout => "\u{23f1}\u{fe0f}",
            TestResult::PartialPass { .. } => "\u{26a0}\u{fe0f}",
        }
    }
}

/// Record of one executed check.
#[derive(Debug, Clone)]
pub struct TestRecord {
    /// Name of the check.
    pub name: String,
    /// Tier of the check.
    pub category: TestCategory,
    /// What the check validates.
    pub description: String,
    /// The protocol message type the check is about.
    pub message_type: String,
    /// Outcome of the check.
    pub result: TestResult,
    /// Wall-clock time the check took, in milliseconds.
    pub duration_ms: u64,
}

/// The records of `s` that pass.
pub open spec fn passing(s: Seq<TestRecord>) -> Seq<TestRecord> {
    s.filter(|r: TestRecord| r.result.passes())
}

/// The records of `s` in tier `tier`, in their order.
pub open spec fn of_tier(s: Seq<TestRecord>, tier: TestCategory) -> Seq<TestRecord> {
    s.filter(|r: TestRecord| r.category == tier)
}

/// Report of one kernel's conformance run.
#[derive(Debug, Clone)]
pub struct KernelReport {
    /// Name of the kernel specification (`python3`, `ir`, ...).
    pub kernel_name: String,
    /// Language the kernel evaluates.
    pub language: String,
    /// Implementation name (`ipykernel`, ...).
    pub implementation: String,
    /// Protocol version the kernel reports.
    pub protocol_version: String,
    /// One record per attempted check, in order.
    pub results: Vec<TestRecord>,
    /// Start of the run, in milliseconds since the Unix epoch (UTC).
    pub timestamp_ms: i64,
    /// Duration of the whole run, in milliseconds.
    pub total_duration_ms: u64,
    /// What kept the checks from running, if anything did.
    pub startup_error: Option<String>,
}

/// Number of records of `s` that pass, counted by a loop.
fn count_passing(s: &Vec<TestRecord>) -> (r: usize)
    ensures
        r == passing(s@).len(),
{
    let mut n: usize = 0;
    let mut i: usize = 0;
    while i < s.len()
        invariant
            i <= s@.len(),
            n == passing(s@.subrange(0, i as int)).len(),
            n <= i,
        decreases s@.len() - i,
    {
        proof {
            reveal(Seq::filter);
        }
        assert(s@.subrange(0, i + 1).drop_last() =~= s@.subrange(0, i as int));
        if s[i].result.is_pass() {
            n = n + 1;
        }
        i = i + 1;
    }
    assert(s@.subrange(0, i as int) =~= s@);
    n
}

impl KernelReport {
    /// Report for a kernel that failed before any check could run: one
    /// synthetic `kernel_startup` record in tier 1 that fails with kind
    /// `ProtocolError` and the error as reason.
    pub fn new_failed_at_startup(
        kernel_name: String,
        language: String,
        error: String,
        total_duration_ms: u64,
    ) -> (r: Self)
        ensures
            r.kernel_name == kernel_name,
            r.language == language,
            r.implementation@ == "unknown"@,
            r.protocol_version@ == "unknown"@,
            r.results@.len() == 1,
            r.results@[0].name@ == "kernel_startup"@,
            r.results@[0].category == TestCategory::Tier1Basic,
            r.results@[0].description@ == "Kernel starts and responds to kernel_info_request"@,
            r.results@[0].message_type@ == "kernel_info_request"@,
            r.results@[0].result@ == (ResultView::Fail { reason: error@, kind: Some(FailureKind::ProtocolError) }),
            r.results@[0].duration_ms == total_duration_ms,
            r.total_duration_ms == total_duration_ms,
            r.startup_error == Some(error),
    {
        let record = TestRecord {
            name: "kernel_startup".to_string(),
            category: TestCategory::Tier1Basic,
            description: "Kernel starts and responds to kernel_info_request".to_string(),
            message_type: "kernel_info_request".to_string(),
            result: TestResult::fail(error.as_str(), FailureKind::ProtocolError),
            duration_ms: total_duration_ms,
        };
        KernelReport {
            kernel_name,
            language,
            implementation: "unknown".to_string(),
            protocol_version: "unknown".to_string(),
            results: vec![record],
            timestamp_ms: clock::now_millis(),
            total_duration_ms,
            startup_error: Some(error),
        }
    }

    /// Whether the kernel failed before any check could run.
    pub fn has_startup_error(&self) -> (r: bool)
        ensures
            r == self.startup_error is Some,
    {
        self.startup_error.is_some()
    }

    /// Number of checks that passed, `PartialPass` included.
    pub fn passed(&self) -> (r: usize)
        ensures
            r == passing(self.results@).len(),
    {
        count_passing(&self.results)
    }

    /// Number of checks run.
    pub fn total(&self) -> (r: usize)
        ensures
            r == self.results@.len(),
    {
        self.results.len()
    }

    /// The records of one tier, in report order.
    pub fn tier_results(&self, tier: TestCategory) -> (r: Vec<&TestRecord>)
        ensures
            r@.len() == of_tier(self.results@, tier).len(),
            forall|i: int| 0 <= i < r@.len() ==> *r@[i] == of_tier(self.results@, tier)[i],
    {
        let mut r: Vec<&TestRecord> = Vec::new();
        let mut i: usize = 0;
        while i < self.results.len()
            invariant
                i <= self.results@.len(),
                r@.len() == of_tier(self.results@.subrange(0, i as int), tier).len(),
                forall|k: int| 0 <= k < r@.len() ==> *r@[k] == of_tier(self.results@.subrange(0, i as int), tier)[k],
            decreases self.results@.len() - i,
        {
            proof {
                reveal(Seq::filter);
            }
            assert(self.results@.subrange(0, i + 1).drop_last() =~= self.results@.subrange(0, i as int));
            let rec = &self.results[i];
            if rec.category == tier {
                r.push(rec);
            }
            i = i + 1;
        }
        assert(self.results@.subrange(0, i as int) =~= self.results@);
        r
    }

    /// `(passed, total)` over the records of one tier.
    pub fn tier_score(&self, tier: TestCategory) -> (r: (usize, usize))
        ensures
            r.0 == passing(of_tier(self.results@, tier)).len(),
            r.1 == of_tier(self.results@, tier).len(),
    {
        let records = self.tier_results(tier);
        let mut passed: usize = 0;
        let mut i: usize = 0;
        let ghost t = of_tier(self.results@, tier);
        while i < records.len()
            invariant
                records@.len() == t.len(),
                forall|k: int| 0 <= k < records@.len() ==> *records@[k] == t[k],
                i <= t.len(),
                passed == passing(t.subrange(0, i as int)).len(),
                passed <= i,
            decreases t.len() - i,
        {
            proof {
                reveal(Seq::filter);
            }
            assert(t.subrange(0, i + 1).drop_last() =~= t.subrange(0, i as int));
            if records[i].result.is_pass() {
                passed = passed + 1;
            }
            i = i + 1;
        }
        assert(t.subrange(0, i as int) =~= t);
        (passed, records.len())
    }
}


/// Results of several kernels, side by side.
#[derive(Debug, Clone)]
pub struct ConformanceMatrix {
    /// One report per kernel, in the order they ran.
    pub reports: Vec<KernelReport>,
    /// When the matrix was put together, in milliseconds since the Unix epoch.
    pub generated_at_ms: i64,
}

/// Every check name that occurs in some report of `reports`.
pub open spec fn test_names(reports: Seq<KernelReport>) -> Set<Seq<char>> {
    Set::new(|t: Seq<char>| exists|a: int, b: int| #[trigger] name_at(reports, a, b, t))
}

/// Record `b` of report `a` is named `t`.
pub open spec fn name_at(reports: Seq<KernelReport>, a: int, b: int, t: Seq<char>) -> bool {
    0 <= a < reports.len() && 0 <= b < reports[a].results@.len() && reports[a].results@[b].name@ == t
}

impl ConformanceMatrix {
    pub fn new(reports: Vec<KernelReport>) -> (r: Self)
        ensures
            r.reports == reports,
    {
        ConformanceMatrix { reports, generated_at_ms: clock::now_millis() }
    }

    /// The names of all checks across the reports, sorted, each once.
    pub fn all_test_names(&self) -> (r: Vec<&str>)
        ensures
            strictly_sorted(texts_of(r@)),
            forall|t: Seq<char>| texts_of(r@).contains(t) <==> test_names(self.reports@).contains(t),
    {
        let mut names: Vec<&str> = Vec::new();
        let ghost reports = self.reports@;
        let mut i: usize = 0;
        while i < self.reports.len()
            invariant
                reports == self.reports@,
                i <= reports.len(),
                strictly_sorted(texts_of(names@)),
                forall|t: Seq<char>| texts_of(names@).contains(t) <==> exists|a: int, b: int| a < i && #[trigger] name_at(reports, a, b, t),
            decreases reports.len() - i,
        {
            let results = &self.reports[i].results;
            let mut j: usize = 0;
            while j < results.len()
                invariant
                    reports == self.reports@,
                    i < reports.len(),
                    results@ == reports[i as int].results@,
                    j <= results@.len(),
                    strictly_sorted(texts_of(names@)),
                    forall|t: Seq<char>| texts_of(names@).contains(t) <==> exists|a: int, b: int|
                        (a < i || (a == i && b < j)) && #[trigger] name_at(reports, a, b, t),
                decreases results@.len() - j,
            {
                let ghost before = texts_of(names@);
                insert_sorted(&mut names, results[j].name.as_str());
                proof {
                    let x = results@[j as int].name@;
                    assert(name_at(reports, i as int, j as int, x));
                    assert forall|t: Seq<char>| texts_of(names@).contains(t) <==> exists|a: int, b: int|
                        (a < i || (a == i && b < j + 1)) && #[trigger] name_at(reports, a, b, t) by {
                        if exists|a: int, b: int| (a < i || (a == i && b < j + 1)) && #[trigger] name_at(reports, a, b, t) {
                            let (a, b) = choose|a: int, b: int| (a < i || (a == i && b < j + 1)) && #[trigger] name_at(reports, a, b, t);
                            if !(a == i && b == j) {
                                assert(before.contains(t));
                            }
                        }
                    }
                }
                j = j + 1;
            }
            proof {
                assert forall|t: Seq<char>| texts_of(names@).contains(t) <==> exists|a: int, b: int| a < i + 1 && #[trigger] name_at(reports, a, b, t) by {
                    if exists|a: int, b: int| a < i + 1 && #[trigger] name_at(reports, a, b, t) {
                        let (a, b) = choose|a: int, b: int| a < i + 1 && #[trigger] name_at(reports, a, b, t);
                        assert((a < i || (a == i && b < j)) && name_at(reports, a, b, t));
                    }
                }
            }
            i = i + 1;
        }
        proof {
            assert forall|t: Seq<char>| texts_of(names@).contains(t) <==> test_names(reports).contains(t) by {
                if test_names(reports).contains(t) {
                    let (a, b) = choose|a: int, b: int| #[trigger] name_at(reports, a, b, t);
                    assert(a < i && name_at(reports, a, b, t));
                }
            }
        }
        names
    }
}

} // verus!
