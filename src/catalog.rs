//! The static list of conformance checks, and the planning of a suite run.

use vstd::prelude::*;

use crate::checks::Check;
use crate::message::KernelInfo;
use crate::types::{KernelReport, TestCategory, TestRecord, TestResult};

verus! {

/// One entry of the check catalog.
#[derive(Debug, Clone, Copy)]
pub struct ConformanceTest {
    pub name: &'static str,
    pub category: TestCategory,
    /// What the check validates.
    pub description: &'static str,
    /// The protocol message type the check is about.
    pub message_type: &'static str,
    pub check: Check,
}

impl Check {
    pub open spec fn name_spec(self) -> Seq<char> {
        match self {
            Check::HeartbeatResponds => "heartbeat_responds"@,
            Check::KernelInfoReplyValid => "kernel_info_reply_valid"@,
            Check::KernelInfoHasLanguageInfo => "kernel_info_has_language_info"@,
            Check::KernelInfoHasProtocolVersion => "kernel_info_has_protocol_version"@,
            Check::ExecuteStdout => "execute_stdout"@,
            Check::ExecuteStderr => "execute_stderr"@,
            Check::ExecuteReplyOk => "execute_reply_ok"@,
            Check::StatusBusyIdleLifecycle => "status_busy_idle_lifecycle"@,
            Check::ExecuteInputBroadcast => "execute_input_broadcast"@,
            Check::CompleteRequest => "complete_request"@,
            Check::InspectRequest => "inspect_request"@,
            Check::IsCompleteComplete => "is_complete_complete"@,
            Check::IsCompleteIncomplete => "is_complete_incomplete"@,
            Check::HistoryRequest => "history_request"@,
            Check::CommInfoRequest => "comm_info_request"@,
            Check::ErrorHandling => "error_handling"@,
            Check::DisplayData => "display_data"@,
            Check::UpdateDisplayData => "update_display_data"@,
            Check::ExecuteResult => "execute_result"@,
            Check::StdinInputRequest => "stdin_input_request"@,
            Check::CommsLifecycle => "comms_lifecycle"@,
            Check::InterruptRequest => "interrupt_request"@,
            Check::ExecutionCountIncrements => "execution_count_increments"@,
            Check::ParentHeaderCorrelation => "parent_header_correlation"@,
            Check::ShutdownReply => "shutdown_reply"@,
        }
    }

    pub open spec fn tier_spec(self) -> TestCategory {
        match self {
            Check::HeartbeatResponds => TestCategory::Tier1Basic,
            Check::KernelInfoReplyValid => TestCategory::Tier1Basic,
            Check::KernelInfoHasLanguageInfo => TestCategory::Tier1Basic,
            Check::KernelInfoHasProtocolVersion => TestCategory::Tier1Basic,
            Check::ExecuteStdout => TestCategory::Tier1Basic,
            Check::ExecuteStderr => TestCategory::Tier1Basic,
            Check::ExecuteReplyOk => TestCategory::Tier1Basic,
            Check::StatusBusyIdleLifecycle => TestCategory::Tier1Basic,
            Check::ExecuteInputBroadcast => TestCategory::Tier1Basic,
            Check::CompleteRequest => TestCategory::Tier2Interactive,
            Check::InspectRequest => TestCategory::Tier2Interactive,
            Check::IsCompleteComplete => TestCategory::Tier2Interactive,
            Check::IsCompleteIncomplete => TestCategory::Tier2Interactive,
            Check::HistoryRequest => TestCategory::Tier2Interactive,
            Check::CommInfoRequest => TestCategory::Tier2Interactive,
            Check::ErrorHandling => TestCategory::Tier2Interactive,
            Check::DisplayData => TestCategory::Tier3RichOutput,
            Check::UpdateDisplayData => TestCategory::Tier3RichOutput,
            Check::ExecuteResult => TestCategory::Tier3RichOutput,
            Check::StdinInputRequest => TestCategory::Tier4Advanced,
            Check::CommsLifecycle => TestCategory::Tier4Advanced,
            Check::InterruptRequest => TestCategory::Tier4Advanced,
            Check::ExecutionCountIncrements => TestCategory::Tier4Advanced,
            Check::ParentHeaderCorrelation => TestCategory::Tier4Advanced,
            Check::ShutdownReply => TestCategory::Tier1Basic,
        }
    }

    pub open spec fn description_spec(self) -> Seq<char> {
        match self {
            Check::HeartbeatResponds => "Kernel responds to heartbeat ping within timeout"@,
            Check::KernelInfoReplyValid => "Kernel returns valid kernel_info_reply with status ok"@,
            Check::KernelInfoHasLanguageInfo => "kernel_info_reply contains non-empty language_info.name"@,
            Check::KernelInfoHasProtocolVersion => "kernel_info_reply contains non-empty protocol_version"@,
            Check::ExecuteStdout => "Execute code that prints produces stream message on stdout"@,
            Check::ExecuteStderr => "Execute code that prints to stderr produces stream message"@,
            Check::ExecuteReplyOk => "Execute valid code returns execute_reply with status ok"@,
            Check::StatusBusyIdleLifecycle => "Kernel broadcasts busy then idle status on iopub during execution"@,
            Check::ExecuteInputBroadcast => "Kernel broadcasts execute_input on iopub when executing"@,
            Check::CompleteRequest => "Kernel responds to completion request with complete_reply"@,
            Check::InspectRequest => "Kernel responds to inspection request with inspect_reply"@,
            Check::IsCompleteComplete => "Kernel correctly identifies complete code as 'complete'"@,
            Check::IsCompleteIncomplete => "Kernel correctly identifies incomplete code as 'incomplete'"@,
            Check::HistoryRequest => "Kernel responds to history request with history_reply"@,
            Check::CommInfoRequest => "Kernel responds to comm_info request with comm_info_reply"@,
            Check::ErrorHandling => "Kernel properly reports errors for invalid syntax"@,
            Check::DisplayData => "Kernel can produce display_data messages for rich output"@,
            Check::UpdateDisplayData => "Kernel can update existing displays via update_display_data"@,
            Check::ExecuteResult => "Expression evaluation produces execute_result on iopub"@,
            Check::StdinInputRequest => "Kernel can request input from frontend via stdin channel"@,
            Check::CommsLifecycle => "Kernel supports comm open/msg/close lifecycle"@,
            Check::InterruptRequest => "Kernel responds to interrupt request on control channel"@,
            Check::ExecutionCountIncrements => "Execution count increments with each execute_request"@,
            Check::ParentHeaderCorrelation => "All response messages contain correct parent_header"@,
            Check::ShutdownReply => "Kernel responds to shutdown request and terminates cleanly"@,
        }
    }

    pub open spec fn message_type_spec(self) -> Seq<char> {
        match self {
            Check::HeartbeatResponds => "heartbeat"@,
            Check::KernelInfoReplyValid => "kernel_info_request"@,
            Check::KernelInfoHasLanguageInfo => "kernel_info_request"@,
            Check::KernelInfoHasProtocolVersion => "kernel_info_request"@,
            Check::ExecuteStdout => "execute_request"@,
            Check::ExecuteStderr => "stream"@,
            Check::ExecuteReplyOk => "execute_request"@,
            Check::StatusBusyIdleLifecycle => "status"@,
            Check::ExecuteInputBroadcast => "execute_input"@,
            Check::CompleteRequest => "complete_request"@,
            Check::InspectRequest => "inspect_request"@,
            Check::IsCompleteComplete => "is_complete_request"@,
            Check::IsCompleteIncomplete => "is_complete_request"@,
            Check::HistoryRequest => "history_request"@,
            Check::CommInfoRequest => "comm_info_request"@,
            Check::ErrorHandling => "execute_request"@,
            Check::DisplayData => "display_data"@,
            Check::UpdateDisplayData => "update_display_data"@,
            Check::ExecuteResult => "execute_result"@,
            Check::StdinInputRequest => "input_request"@,
            Check::CommsLifecycle => "comm_open"@,
            Check::InterruptRequest => "interrupt_request"@,
            Check::ExecutionCountIncrements => "execute_request"@,
            Check::ParentHeaderCorrelation => "parent_header"@,
            Check::ShutdownReply => "shutdown_request"@,
        }
    }

    /// The catalog entry of the check.
    pub fn entry(self) -> (r: ConformanceTest)
        ensures
            r.check == self,
            r.name@ == self.name_spec(),
            r.category == self.tier_spec(),
            r.description@ == self.description_spec(),
            r.message_type@ == self.message_type_spec(),
    {
        match self {
            Check::HeartbeatResponds => ConformanceTest {
                name: "heartbeat_responds",
                category: TestCategory::Tier1Basic,
                description: "Kernel responds to heartbeat ping within timeout",
                message_type: "heartbeat",
                check: self,
            },
            Check::KernelInfoReplyValid => ConformanceTest {
                name: "kernel_info_reply_valid",
                category: TestCategory::Tier1Basic,
                description: "Kernel returns valid kernel_info_reply with status ok",
                message_type: "kernel_info_request",
                check: self,
            },
            Check::KernelInfoHasLanguageInfo => ConformanceTest {
                name: "kernel_info_has_language_info",
                category: TestCategory::Tier1Basic,
                description: "kernel_info_reply contains non-empty language_info.name",
                message_type: "kernel_info_request",
                check: self,
            },
            Check::KernelInfoHasProtocolVersion => ConformanceTest {
                name: "kernel_info_has_protocol_version",
                category: TestCategory::Tier1Basic,
                description: "kernel_info_reply contains non-empty protocol_version",
                message_type: "kernel_info_request",
                check: self,
            },
            Check::ExecuteStdout => ConformanceTest {
                name: "execute_stdout",
                category: TestCategory::Tier1Basic,
                description: "Execute code that prints produces stream message on stdout",
                message_type: "execute_request",
                check: self,
            },
            Check::ExecuteStderr => ConformanceTest {
                name: "execute_stderr",
                category: TestCategory::Tier1Basic,
                description: "Execute code that prints to stderr produces stream message",
                message_type: "stream",
                check: self,
            },
            Check::ExecuteReplyOk => ConformanceTest {
                name: "execute_reply_ok",
                category: TestCategory::Tier1Basic,
                description: "Execute valid code returns execute_reply with status ok",
                message_type: "execute_request",
                check: self,
            },
            Check::StatusBusyIdleLifecycle => ConformanceTest {
                name: "status_busy_idle_lifecycle",
                category: TestCategory::Tier1Basic,
                description: "Kernel broadcasts busy then idle status on iopub during execution",
                message_type: "status",
                check: self,
            },
            Check::ExecuteInputBroadcast => ConformanceTest {
                name: "execute_input_broadcast",
                category: TestCategory::Tier1Basic,
                description: "Kernel broadcasts execute_input on iopub when executing",
                message_type: "execute_input",
                check: self,
            },
            Check::CompleteRequest => ConformanceTest {
                name: "complete_request",
                category: TestCategory::Tier2Interactive,
                description: "Kernel responds to completion request with complete_reply",
                message_type: "complete_request",
                check: self,
            },
            Check::InspectRequest => ConformanceTest {
                name: "inspect_request",
                category: TestCategory::Tier2Interactive,
                description: "Kernel responds to inspection request with inspect_reply",
                message_type: "inspect_request",
                check: self,
            },
            Check::IsCompleteComplete => ConformanceTest {
                name: "is_complete_complete",
                category: TestCategory::Tier2Interactive,
                description: "Kernel correctly identifies complete code as 'complete'",
                message_type: "is_complete_request",
                check: self,
            },
            Check::IsCompleteIncomplete => ConformanceTest {
                name: "is_complete_incomplete",
                category: TestCategory::Tier2Interactive,
                description: "Kernel correctly identifies incomplete code as 'incomplete'",
                message_type: "is_complete_request",
                check: self,
            },
            Check::HistoryRequest => ConformanceTest {
                name: "history_request",
                category: TestCategory::Tier2Interactive,
                description: "Kernel responds to history request with history_reply",
                message_type: "history_request",
                check: self,
            },
            Check::CommInfoRequest => ConformanceTest {
                name: "comm_info_request",
                category: TestCategory::Tier2Interactive,
                description: "Kernel responds to comm_info request with comm_info_reply",
                message_type: "comm_info_request",
                check: self,
            },
            Check::ErrorHandling => ConformanceTest {
                name: "error_handling",
                category: TestCategory::Tier2Interactive,
                description: "Kernel properly reports errors for invalid syntax",
                message_type: "execute_request",
                check: self,
            },
            Check::DisplayData => ConformanceTest {
                name: "display_data",
                category: TestCategory::Tier3RichOutput,
                description: "Kernel can produce display_data messages for rich output",
                message_type: "display_data",
                check: self,
            },
            Check::UpdateDisplayData => ConformanceTest {
                name: "update_display_data",
                category: TestCategory::Tier3RichOutput,
                description: "Kernel can update existing displays via update_display_data",
                message_type: "update_display_data",
                check: self,
            },
            Check::ExecuteResult => ConformanceTest {
                name: "execute_result",
                category: TestCategory::Tier3RichOutput,
                description: "Expression evaluation produces execute_result on iopub",
                message_type: "execute_result",
                check: self,
            },
            Check::StdinInputRequest => ConformanceTest {
                name: "stdin_input_request",
                category: TestCategory::Tier4Advanced,
                description: "Kernel can request input from frontend via stdin channel",
                message_type: "input_request",
                check: self,
            },
            Check::CommsLifecycle => ConformanceTest {
                name: "comms_lifecycle",
                category: TestCategory::Tier4Advanced,
                description: "Kernel supports comm open/msg/close lifecycle",
                message_type: "comm_open",
                check: self,
            },
            Check::InterruptRequest => ConformanceTest {
                name: "interrupt_request",
                category: TestCategory::Tier4Advanced,
                description: "Kernel responds to interrupt request on control channel",
                message_type: "interrupt_request",
                check: self,
            },
            Check::ExecutionCountIncrements => ConformanceTest {
                name: "execution_count_increments",
                category: TestCategory::Tier4Advanced,
                description: "Execution count increments with each execute_request",
                message_type: "execute_request",
                check: self,
            },
            Check::ParentHeaderCorrelation => ConformanceTest {
                name: "parent_header_correlation",
                category: TestCategory::Tier4Advanced,
                description: "All response messages contain correct parent_header",
                message_type: "parent_header",
                check: self,
            },
            Check::ShutdownReply => ConformanceTest {
                name: "shutdown_reply",
                category: TestCategory::Tier1Basic,
                description: "Kernel responds to shutdown request and terminates cleanly",
                message_type: "shutdown_request",
                check: self,
            },
        }
    }
}

/// The checks in catalog order; the shutdown check, which ends the kernel,
/// comes last.
pub open spec fn catalog() -> Seq<Check> {
    seq![
            Check::HeartbeatResponds,
            Check::KernelInfoReplyValid,
            Check::KernelInfoHasLanguageInfo,
            Check::KernelInfoHasProtocolVersion,
            Check::ExecuteStdout,
            Check::ExecuteStderr,
            Check::ExecuteReplyOk,
            Check::StatusBusyIdleLifecycle,
            Check::ExecuteInputBroadcast,
            Check::CompleteRequest,
            Check::InspectRequest,
            Check::IsCompleteComplete,
            Check::IsCompleteIncomplete,
            Check::HistoryRequest,
            Check::CommInfoRequest,
            Check::ErrorHandling,
            Check::DisplayData,
            Check::UpdateDisplayData,
            Check::ExecuteResult,
            Check::StdinInputRequest,
            Check::CommsLifecycle,
            Check::InterruptRequest,
            Check::ExecutionCountIncrements,
            Check::ParentHeaderCorrelation,
            Check::ShutdownReply
    ]
}

/// The catalog of all conformance checks, in order.
pub fn all_tests() -> (r: Vec<ConformanceTest>)
    ensures
        r@.len() == catalog().len(),
        forall|i: int| 0 <= i < r@.len() ==> (#[trigger] r@[i]).check == catalog()[i]
            && r@[i].name@ == catalog()[i].name_spec() && r@[i].category == catalog()[i].tier_spec()
            && r@[i].description@ == catalog()[i].description_spec()
            && r@[i].message_type@ == catalog()[i].message_type_spec(),
{
    let order = vec![
            Check::HeartbeatResponds,
            Check::KernelInfoReplyValid,
            Check::KernelInfoHasLanguageInfo,
            Check::KernelInfoHasProtocolVersion,
            Check::ExecuteStdout,
            Check::ExecuteStderr,
            Check::ExecuteReplyOk,
            Check::StatusBusyIdleLifecycle,
            Check::ExecuteInputBroadcast,
            Check::CompleteRequest,
            Check::InspectRequest,
            Check::IsCompleteComplete,
            Check::IsCompleteIncomplete,
            Check::HistoryRequest,
            Check::CommInfoRequest,
            Check::ErrorHandling,
            Check::DisplayData,
            Check::UpdateDisplayData,
            Check::ExecuteResult,
            Check::StdinInputRequest,
            Check::CommsLifecycle,
            Check::InterruptRequest,
            Check::ExecutionCountIncrements,
            Check::ParentHeaderCorrelation,
            Check::ShutdownReply
    ];
    let mut r: Vec<ConformanceTest> = Vec::new();
    let mut i: usize = 0;
    while i < order.len()
        invariant
            order@ == catalog(),
            i <= order@.len(),
            r@.len() == i,
            forall|k: int| 0 <= k < i ==> (#[trigger] r@[k]).check == catalog()[k]
                && r@[k].name@ == catalog()[k].name_spec() && r@[k].category == catalog()[k].tier_spec()
                && r@[k].description@ == catalog()[k].description_spec()
                && r@[k].message_type@ == catalog()[k].message_type_spec(),
        decreases order@.len() - i,
    {
        r.push(order[i].entry());
        i = i + 1;
    }
    r
}


/// The check runs under the requested tiers.
pub open spec fn runs(t: ConformanceTest, tiers: Seq<TestCategory>) -> bool {
    tiers.contains(t.category)
}

/// The check shuts the kernel down.
pub open spec fn ends_kernel(t: ConformanceTest) -> bool {
    t.check is ShutdownReply
}

/// Positions of the checks of `tests` that run under `tiers` and shut the
/// kernel down (`terminal`) or not, in order.
pub open spec fn picks(tests: Seq<ConformanceTest>, tiers: Seq<TestCategory>, terminal: bool) -> Seq<int>
    decreases tests.len(),
{
    if tests.len() == 0 {
        Seq::empty()
    } else {
        let rest = picks(tests.drop_last(), tiers, terminal);
        if runs(tests.last(), tiers) && ends_kernel(tests.last()) == terminal {
            rest.push(tests.len() - 1)
        } else {
            rest
        }
    }
}

/// The order of a suite run: the selected checks in listed order, except
/// that the shutdown check, which ends the kernel, comes after all others.
pub open spec fn suite_plan(tests: Seq<ConformanceTest>, tiers: Seq<TestCategory>) -> Seq<int> {
    picks(tests, tiers, false) + picks(tests, tiers, true)
}

/// Whether `tier` is among the requested tiers.
pub fn tier_selected(tiers: &Vec<TestCategory>, tier: TestCategory) -> (r: bool)
    ensures
        r == tiers@.contains(tier),
{
    let mut i: usize = 0;
    while i < tiers.len()
        invariant
            i <= tiers@.len(),
            forall|k: int| 0 <= k < i ==> tiers@[k] != tier,
        decreases tiers@.len() - i,
    {
        if tiers[i] == tier {
            return true;
        }
        i = i + 1;
    }
    false
}

fn push_picks(out: &mut Vec<usize>, tests: &Vec<ConformanceTest>, tiers: &Vec<TestCategory>, terminal: bool)
    ensures
        final(out)@.map_values(|i: usize| i as int) == old(out)@.map_values(|i: usize| i as int) + picks(tests@, tiers@, terminal),
{
    let ghost start = out@.map_values(|i: usize| i as int);
    let mut i: usize = 0;
    while i < tests.len()
        invariant
            i <= tests@.len(),
            out@.map_values(|i: usize| i as int) == start + picks(tests@.subrange(0, i as int), tiers@, terminal),
        decreases tests@.len() - i,
    {
        let ghost before = out@;
        assert(tests@.subrange(0, i + 1).drop_last() =~= tests@.subrange(0, i as int));
        let t = tests[i];
        let ends = t.check == Check::ShutdownReply;
        if tier_selected(tiers, t.category) && ends == terminal {
            out.push(i);
            assert(out@.map_values(|i: usize| i as int) =~= before.map_values(|i: usize| i as int).push(i as int));
        }
        i = i + 1;
    }
    assert(tests@.subrange(0, i as int) =~= tests@);
}

/// The positions in `tests` of the checks to run under `tiers`, in the order
/// to run them.
pub fn plan_suite(tiers: &Vec<TestCategory>, tests: &Vec<ConformanceTest>) -> (r: Vec<usize>)
    ensures
        r@.map_values(|i: usize| i as int) == suite_plan(tests@, tiers@),
{
    let mut r: Vec<usize> = Vec::new();
    assert(r@.map_values(|i: usize| i as int) =~= Seq::<int>::empty());
    push_picks(&mut r, tests, tiers, false);
    push_picks(&mut r, tests, tiers, true);
    assert(r@.map_values(|i: usize| i as int) =~= suite_plan(tests@, tiers@));
    r
}

impl ConformanceTest {
    /// The record of one run of this check.
    pub fn record(&self, result: TestResult, duration_ms: u64) -> (r: TestRecord)
        ensures
            r.name@ == self.name@,
            r.category == self.category,
            r.description@ == self.description@,
            r.message_type@ == self.message_type@,
            r.result == result,
            r.duration_ms == duration_ms,
    {
        TestRecord {
            name: self.name.to_string(),
            category: self.category,
            description: self.description.to_string(),
            message_type: self.message_type.to_string(),
            result,
            duration_ms,
        }
    }
}

/// The report of a run that got past launch: kernel facts from its
/// kernel_info reply, and one record per check run.
pub fn completed_report(
    kernel_name: String,
    info: KernelInfo,
    results: Vec<TestRecord>,
    timestamp_ms: i64,
    total_duration_ms: u64,
) -> (r: KernelReport)
    ensures
        r.kernel_name == kernel_name,
        r.language == info.language,
        r.implementation == info.implementation,
        r.protocol_version == info.protocol_version,
        r.results == results,
        r.timestamp_ms == timestamp_ms,
        r.total_duration_ms == total_duration_ms,
        r.startup_error is None,
{
    KernelReport {
        kernel_name,
        language: info.language,
        implementation: info.implementation,
        protocol_version: info.protocol_version,
        results,
        timestamp_ms,
        total_duration_ms,
        startup_error: None,
    }
}

} // verus!
