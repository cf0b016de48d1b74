//! The catalog of conformance checks, each a small state machine.
//!
//! A check asks for one kernel operation at a time ([`Action`]); the caller
//! performs it with the driver and hands back what happened ([`Outcome`]).
//! The check ends by asking to finish with its [`TestResult`]. Driver errors
//! never escape a check: they become failures.

use vstd::prelude::*;

use crate::driver::HarnessError;
use crate::message::{IsCompleteStatus, KernelInfo, Message, StreamName};
use crate::snippets::{is_unsupported, unsupported_spec, LanguageSnippets, Snippet};
use crate::text::joined;
use crate::types::{FailureKind, ResultView, TestCategory, TestResult};
use crate::verdict::{
    count_verdict, error_kind, info_field_verdict, info_status_verdict, judge_counts, judge_info_field,
    judge_info_status,
    complete_verdict, correlation_verdict, display_verdict, error_handling_verdict, error_result, failed,
    is_complete_verdict, judge_complete, judge_correlation, judge_display, judge_error_handling,
    judge_is_complete, judge_lifecycle, judge_presence, judge_status, judge_stdin, judge_stream,
    judge_update_display, lifecycle_verdict, presence_verdict, status_verdict, stdin_verdict, stream_verdict,
    update_display_verdict, Broadcast, Execution, ReplyKind, StdinExecution,
};

verus! {

/// The conformance checks.
#[derive(Debug, Clone, Copy, PartialEq, Eq, Structural)]
pub enum Check {
    HeartbeatResponds,
    KernelInfoReplyValid,
    KernelInfoHasLanguageInfo,
    KernelInfoHasProtocolVersion,
    ExecuteStdout,
    ExecuteStderr,
    ExecuteReplyOk,
    StatusBusyIdleLifecycle,
    ExecuteInputBroadcast,
    CompleteRequest,
    InspectRequest,
    IsCompleteComplete,
    IsCompleteIncomplete,
    HistoryRequest,
    CommInfoRequest,
    ErrorHandling,
    DisplayData,
    UpdateDisplayData,
    ExecuteResult,
    StdinInputRequest,
    CommsLifecycle,
    InterruptRequest,
    ExecutionCountIncrements,
    ParentHeaderCorrelation,
    ShutdownReply,
}

/// A request a check sends on shell or control.
#[derive(Debug, Clone, Copy, PartialEq, Eq, Structural)]
pub enum Request {
    /// complete_request on the snippet's code, cursor at its end.
    Complete { code: Snippet },
    /// inspect_request on the snippet's code, cursor at its end.
    Inspect { code: Snippet, detail_level: u8 },
    IsComplete { code: Snippet },
    /// history_request of the last `n` entries.
    History { n: u32, output: bool, raw: bool },
    /// comm_info_request without a target filter.
    CommInfo,
    Shutdown { restart: bool },
    Interrupt,
}

/// What a check asks the driver to do next.
#[derive(Debug, Clone)]
pub enum Action {
    /// One heartbeat round trip.
    Heartbeat,
    /// `execute_and_collect` of the snippet.
    Execute(Snippet),
    /// `execute_with_stdin` of the snippet, answering input requests with `input`.
    ExecuteWithStdin { code: Snippet, input: &'static str },
    /// `shell_request`.
    Shell(Request),
    /// `control_request`.
    Control(Request),
    /// `send_comm_open`.
    OpenComm { comm_id: String, target_name: &'static str },
    /// `send_comm_close`.
    CloseComm { comm_id: String },
    /// The check is over.
    Finish(TestResult),
}

/// What the driver did with the last action.
#[derive(Debug)]
pub enum Outcome {
    Heartbeat(Result<(), HarnessError>),
    Executed(Result<Execution, HarnessError>),
    ExecutedWithStdin(Result<StdinExecution, HarnessError>),
    Replied(Result<Message, HarnessError>),
    /// Whether the kernel rejected the comm.
    CommOpened(Result<bool, HarnessError>),
    CommClosed(Result<(), HarnessError>),
}

/// The answer that the stdin check gives to an input request.
pub const MOCK_INPUT: &'static str = "test_input_42";

/// The comm target that no kernel registers.
pub const TEST_COMM_TARGET: &'static str = "jupyter.kernel_testbed.test";

/// The action finishes the check with a result whose view is `v`.
pub open spec fn finishes(a: Action, v: ResultView) -> bool {
    a matches Action::Finish(t) && t@ == v
}

/// The failure given when an outcome does not answer the action asked for.
pub open spec fn out_of_turn() -> ResultView {
    ResultView::Fail { reason: "outcome does not answer the check's last action"@, kind: Some(FailureKind::HarnessError) }
}

fn out_of_turn_result() -> (r: TestResult)
    ensures
        r@ == out_of_turn(),
{
    TestResult::fail("outcome does not answer the check's last action", FailureKind::HarnessError)
}

impl Check {
    /// The snippets the check sends; a sentinel in any of them makes the
    /// check unsupported.
    pub open spec fn snippets_spec(self) -> Seq<Snippet> {
        match self {
            Check::ExecuteStdout | Check::ParentHeaderCorrelation => seq![Snippet::PrintHello],
            Check::ExecuteStderr => seq![Snippet::PrintStderr],
            Check::ExecuteReplyOk | Check::StatusBusyIdleLifecycle | Check::ExecuteInputBroadcast
            | Check::IsCompleteComplete | Check::HistoryRequest | Check::CommsLifecycle
            | Check::ExecutionCountIncrements => seq![Snippet::CompleteCode],
            Check::CompleteRequest => seq![Snippet::CompletionSetup, Snippet::CompletionPrefix],
            Check::InspectRequest => seq![Snippet::CompletionSetup, Snippet::CompletionVar],
            Check::IsCompleteIncomplete => seq![Snippet::IncompleteCode],
            Check::ErrorHandling => seq![Snippet::SyntaxError],
            Check::DisplayData => seq![Snippet::DisplayData],
            Check::UpdateDisplayData => seq![Snippet::UpdateDisplayData],
            Check::ExecuteResult => seq![Snippet::SimpleExpr],
            Check::StdinInputRequest => seq![Snippet::InputPrompt],
            _ => seq![],
        }
    }

    fn snippets_used(self) -> (r: Vec<Snippet>)
        ensures
            r@ == self.snippets_spec(),
    {
        match self {
            Check::ExecuteStdout | Check::ParentHeaderCorrelation => vec![Snippet::PrintHello],
            Check::ExecuteStderr => vec![Snippet::PrintStderr],
            Check::ExecuteReplyOk | Check::StatusBusyIdleLifecycle | Check::ExecuteInputBroadcast
            | Check::IsCompleteComplete | Check::HistoryRequest | Check::CommsLifecycle
            | Check::ExecutionCountIncrements => vec![Snippet::CompleteCode],
            Check::CompleteRequest => vec![Snippet::CompletionSetup, Snippet::CompletionPrefix],
            Check::InspectRequest => vec![Snippet::CompletionSetup, Snippet::CompletionVar],
            Check::IsCompleteIncomplete => vec![Snippet::IncompleteCode],
            Check::ErrorHandling => vec![Snippet::SyntaxError],
            Check::DisplayData => vec![Snippet::DisplayData],
            Check::UpdateDisplayData => vec![Snippet::UpdateDisplayData],
            Check::ExecuteResult => vec![Snippet::SimpleExpr],
            Check::StdinInputRequest => vec![Snippet::InputPrompt],
            _ => vec![],
        }
    }

    /// Judged on the kernel_info reply learned at launch, without a request.
    pub open spec fn reads_kernel_info(self) -> bool {
        self is KernelInfoReplyValid || self is KernelInfoHasLanguageInfo || self is KernelInfoHasProtocolVersion
    }

    /// One driver operation, then the verdict on its outcome.
    pub open spec fn single_step(self) -> bool {
        !self.reads_kernel_info() && !self.two_step() && !(self is CommsLifecycle)
            && !(self is ExecutionCountIncrements)
    }

    /// A preparing execution whose outcome is ignored, a request, then the
    /// verdict on the reply.
    pub open spec fn two_step(self) -> bool {
        self is CompleteRequest || self is InspectRequest || self is HistoryRequest
    }

    /// The first operation of a check that talks to the kernel.
    pub open spec fn opening(self) -> Action {
        match self {
            Check::HeartbeatResponds => Action::Heartbeat,
            Check::ExecuteStdout | Check::ParentHeaderCorrelation => Action::Execute(Snippet::PrintHello),
            Check::ExecuteStderr => Action::Execute(Snippet::PrintStderr),
            Check::ExecuteReplyOk | Check::StatusBusyIdleLifecycle | Check::ExecuteInputBroadcast
            | Check::HistoryRequest | Check::ExecutionCountIncrements => Action::Execute(Snippet::CompleteCode),
            Check::CompleteRequest | Check::InspectRequest => Action::Execute(Snippet::CompletionSetup),
            Check::IsCompleteComplete => Action::Shell(Request::IsComplete { code: Snippet::CompleteCode }),
            Check::IsCompleteIncomplete => Action::Shell(Request::IsComplete { code: Snippet::IncompleteCode }),
            Check::CommInfoRequest => Action::Shell(Request::CommInfo),
            Check::ErrorHandling => Action::Execute(Snippet::SyntaxError),
            Check::DisplayData => Action::Execute(Snippet::DisplayData),
            Check::UpdateDisplayData => Action::Execute(Snippet::UpdateDisplayData),
            Check::ExecuteResult => Action::Execute(Snippet::SimpleExpr),
            Check::StdinInputRequest => Action::ExecuteWithStdin { code: Snippet::InputPrompt, input: MOCK_INPUT },
            Check::InterruptRequest => Action::Control(Request::Interrupt),
            Check::ShutdownReply => Action::Control(Request::Shutdown { restart: false }),
            _ => Action::Heartbeat,
        }
    }

    /// The request of a two-step check.
    pub open spec fn second(self) -> Action {
        match self {
            Check::CompleteRequest => Action::Shell(Request::Complete { code: Snippet::CompletionPrefix }),
            Check::InspectRequest => Action::Shell(Request::Inspect { code: Snippet::CompletionVar, detail_level: 0 }),
            _ => Action::Shell(Request::History { n: 10, output: false, raw: true }),
        }
    }

    /// Verdict on an execution.
    pub open spec fn on_execution(self, x: Execution) -> ResultView {
        match self {
            Check::ExecuteStdout => stream_verdict(x.iopub@, StreamName::Stdout, "hello"@, "No stdout containing 'hello'"@),
            Check::ExecuteStderr => stream_verdict(x.iopub@, StreamName::Stderr, "error"@, "No stderr containing 'error'"@),
            Check::ExecuteReplyOk => status_verdict(ReplyKind::Execute, x.reply),
            Check::StatusBusyIdleLifecycle => lifecycle_verdict(x.iopub@),
            Check::ExecuteInputBroadcast => presence_verdict(x.iopub@, Broadcast::ExecuteInput, "No execute_input broadcast"@),
            Check::ErrorHandling => error_handling_verdict(x),
            Check::DisplayData => display_verdict(x.iopub@),
            Check::UpdateDisplayData => update_display_verdict(x.iopub@),
            Check::ExecuteResult => presence_verdict(x.iopub@, Broadcast::ExecuteResult, "No execute_result on iopub"@),
            _ => correlation_verdict(x),
        }
    }

    /// Verdict on a shell or control reply.
    pub open spec fn on_reply(self, m: Message) -> ResultView {
        match self {
            Check::CompleteRequest => complete_verdict(m),
            Check::InspectRequest => status_verdict(ReplyKind::Inspect, m),
            Check::IsCompleteComplete => is_complete_verdict(m, IsCompleteStatus::Complete),
            Check::IsCompleteIncomplete => is_complete_verdict(m, IsCompleteStatus::Incomplete),
            Check::HistoryRequest => status_verdict(ReplyKind::History, m),
            Check::CommInfoRequest => status_verdict(ReplyKind::CommInfo, m),
            Check::InterruptRequest => status_verdict(ReplyKind::Interrupt, m),
            _ => status_verdict(ReplyKind::Shutdown, m),
        }
    }

    /// The checks whose operation is `execute_and_collect`.
    pub open spec fn executes(self) -> bool {
        self is ExecuteStdout || self is ExecuteStderr || self is ExecuteReplyOk || self is StatusBusyIdleLifecycle
            || self is ExecuteInputBroadcast || self is ErrorHandling || self is DisplayData
            || self is UpdateDisplayData || self is ExecuteResult || self is ParentHeaderCorrelation
    }

    /// The verdict of a single-step check, and of a two-step check on its
    /// reply.
    pub open spec fn verdict(self, o: Outcome) -> ResultView {
        match o {
            Outcome::Heartbeat(r) => if self is HeartbeatResponds {
                match r {
                    Ok(_) => ResultView::Pass,
                    Err(e) => failed(e),
                }
            } else {
                out_of_turn()
            },
            Outcome::Executed(r) => if self.executes() {
                match r {
                    Ok(x) => self.on_execution(x),
                    Err(e) => failed(e),
                }
            } else {
                out_of_turn()
            },
            Outcome::ExecutedWithStdin(r) => if self is StdinInputRequest {
                match r {
                    Ok(x) => stdin_verdict(x),
                    Err(e) => failed(e),
                }
            } else {
                out_of_turn()
            },
            Outcome::Replied(r) => if !self.executes() && self.single_step() && !(self is HeartbeatResponds)
                && !(self is StdinInputRequest) || self.two_step() {
                match r {
                    Ok(m) => self.on_reply(m),
                    Err(e) => failed(e),
                }
            } else {
                out_of_turn()
            },
            _ => out_of_turn(),
        }
    }

    fn judge_execution(self, x: &Execution) -> (r: TestResult)
        requires
            self.executes(),
        ensures
            r@ == self.on_execution(*x),
    {
        match self {
            Check::ExecuteStdout => judge_stream(&x.iopub, StreamName::Stdout, "hello", "No stdout containing 'hello'"),
            Check::ExecuteStderr => judge_stream(&x.iopub, StreamName::Stderr, "error", "No stderr containing 'error'"),
            Check::ExecuteReplyOk => judge_status(ReplyKind::Execute, &x.reply),
            Check::StatusBusyIdleLifecycle => judge_lifecycle(&x.iopub),
            Check::ExecuteInputBroadcast => judge_presence(&x.iopub, Broadcast::ExecuteInput, "No execute_input broadcast"),
            Check::ErrorHandling => judge_error_handling(x),
            Check::DisplayData => judge_display(&x.iopub),
            Check::UpdateDisplayData => judge_update_display(&x.iopub),
            Check::ExecuteResult => judge_presence(&x.iopub, Broadcast::ExecuteResult, "No execute_result on iopub"),
            _ => judge_correlation(x),
        }
    }

    fn judge_reply(self, m: &Message) -> (r: TestResult)
        ensures
            r@ == self.on_reply(*m),
    {
        match self {
            Check::CompleteRequest => judge_complete(m),
            Check::InspectRequest => judge_status(ReplyKind::Inspect, m),
            Check::IsCompleteComplete => judge_is_complete(m, IsCompleteStatus::Complete),
            Check::IsCompleteIncomplete => judge_is_complete(m, IsCompleteStatus::Incomplete),
            Check::HistoryRequest => judge_status(ReplyKind::History, m),
            Check::CommInfoRequest => judge_status(ReplyKind::CommInfo, m),
            Check::InterruptRequest => judge_status(ReplyKind::Interrupt, m),
            _ => judge_status(ReplyKind::Shutdown, m),
        }
    }

    fn judge(self, o: &Outcome) -> (r: TestResult)
        ensures
            r@ == self.verdict(*o),
    {
        match o {
            Outcome::Heartbeat(r) => if self == Check::HeartbeatResponds {
                match r {
                    Ok(_) => TestResult::Pass,
                    Err(e) => error_result(e),
                }
            } else {
                out_of_turn_result()
            },
            Outcome::Executed(r) => if self.is_execute() {
                match r {
                    Ok(x) => self.judge_execution(x),
                    Err(e) => error_result(e),
                }
            } else {
                out_of_turn_result()
            },
            Outcome::ExecutedWithStdin(r) => if self == Check::StdinInputRequest {
                match r {
                    Ok(x) => judge_stdin(x),
                    Err(e) => error_result(e),
                }
            } else {
                out_of_turn_result()
            },
            Outcome::Replied(r) => if self.is_reply_check() {
                match r {
                    Ok(m) => self.judge_reply(m),
                    Err(e) => error_result(e),
                }
            } else {
                out_of_turn_result()
            },
            _ => out_of_turn_result(),
        }
    }

    fn is_execute(self) -> (r: bool)
        ensures
            r == self.executes(),
    {
        match self {
            Check::ExecuteStdout | Check::ExecuteStderr | Check::ExecuteReplyOk | Check::StatusBusyIdleLifecycle
            | Check::ExecuteInputBroadcast | Check::ErrorHandling | Check::DisplayData
            | Check::UpdateDisplayData | Check::ExecuteResult | Check::ParentHeaderCorrelation => true,
            _ => false,
        }
    }

    fn is_reply_check(self) -> (r: bool)
        ensures
            r == (!self.executes() && self.single_step() && !(self is HeartbeatResponds)
                && !(self is StdinInputRequest) || self.two_step()),
    {
        match self {
            Check::CompleteRequest | Check::InspectRequest | Check::HistoryRequest | Check::IsCompleteComplete
            | Check::IsCompleteIncomplete | Check::CommInfoRequest | Check::InterruptRequest
            | Check::ShutdownReply => true,
            _ => false,
        }
    }
}


/// Some snippet that the check sends carries an unsupported mark.
pub open spec fn unsupported_for(c: Check, sn: LanguageSnippets) -> bool {
    exists|i: int| 0 <= i < c.snippets_spec().len() && #[trigger] unsupported_spec(sn.code_spec(c.snippets_spec()[i]))
}

fn any_unsupported(c: Check, sn: &LanguageSnippets) -> (r: bool)
    ensures
        r == unsupported_for(c, *sn),
{
    let used = c.snippets_used();
    let mut i: usize = 0;
    while i < used.len()
        invariant
            used@ == c.snippets_spec(),
            i <= used@.len(),
            forall|k: int| 0 <= k < i ==> !#[trigger] unsupported_spec(sn.code_spec(used@[k])),
        decreases used@.len() - i,
    {
        if is_unsupported(sn.code(used[i])) {
            return true;
        }
        i = i + 1;
    }
    false
}

/// Verdict of a check that reads the kernel_info reply learned at launch.
pub open spec fn info_verdict(c: Check, info: Option<KernelInfo>) -> ResultView {
    match c {
        Check::KernelInfoReplyValid => info_status_verdict(info),
        Check::KernelInfoHasLanguageInfo => info_field_verdict(info, true),
        _ => info_field_verdict(info, false),
    }
}

pub open spec fn deref_info(info: Option<&KernelInfo>) -> Option<KernelInfo> {
    match info {
        Some(i) => Some(*i),
        None => None,
    }
}

/// The failure of the comm check when the kernel stops answering after the comm.
pub open spec fn unresponsive(e: HarnessError) -> ResultView {
    ResultView::Fail { reason: "Kernel unresponsive after comm: "@ + e.text(), kind: Some(error_kind(e)) }
}

/// Relies on uuid's `Uuid::new_v4` and its `Display`: a fresh random UUID as
/// text. Nothing is promised of the text.
#[verifier::external_body]
fn random_uuid() -> (r: String) {
    uuid::Uuid::new_v4().to_string()
}

/// Stage of a finished run.
const DONE: u8 = 9;

/// One run of a check.
pub struct CheckRun {
    check: Check,
    stage: u8,
    first: Option<Result<Execution, HarnessError>>,
    comm_id: String,
}

impl CheckRun {
    pub closed spec fn check_spec(&self) -> Check {
        self.check
    }

    /// 0 before the start, then the number of the next outcome awaited
    /// (1 to 3), and above 3 once finished; a finished run answers any
    /// further call out of turn.
    pub closed spec fn stage_spec(&self) -> u8 {
        self.stage
    }

    /// The first execution of the execution-count check.
    pub closed spec fn first_spec(&self) -> Option<Result<Execution, HarnessError>> {
        self.first
    }

    /// The id of the comm that the comm check opened.
    pub closed spec fn comm_id_spec(&self) -> Seq<char> {
        self.comm_id@
    }

    pub fn new(check: Check) -> (r: Self)
        ensures
            r.check_spec() == check,
            r.stage_spec() == 0,
    {
        CheckRun { check, stage: 0, first: None, comm_id: String::new() }
    }

    pub fn check(&self) -> (r: Check)
        ensures
            r == self.check_spec(),
    {
        self.check
    }

    /// The first action of the run, given the active snippets and the
    /// kernel_info reply learned at launch. A check whose snippets carry an
    /// unsupported mark finishes as unsupported without touching the kernel.
    pub fn start(&mut self, sn: &LanguageSnippets, info: Option<&KernelInfo>) -> (r: Action)
        ensures
            final(self).check_spec() == old(self).check_spec(),
            old(self).stage_spec() != 0 ==> finishes(r, out_of_turn()),
            old(self).stage_spec() == 0 && unsupported_for(old(self).check_spec(), *sn)
                ==> finishes(r, ResultView::Unsupported),
            old(self).stage_spec() == 0 && !unsupported_for(old(self).check_spec(), *sn)
                && old(self).check_spec().reads_kernel_info()
                ==> finishes(r, info_verdict(old(self).check_spec(), deref_info(info))),
            old(self).stage_spec() == 0 && !unsupported_for(old(self).check_spec(), *sn)
                && old(self).check_spec() is CommsLifecycle ==> (r matches Action::OpenComm { comm_id, target_name }
                && comm_id@ == final(self).comm_id_spec() && target_name@ == TEST_COMM_TARGET@
                && comm_id@.len() >= 10 && comm_id@.subrange(0, 10) == "test-comm-"@),
            old(self).stage_spec() == 0 && !unsupported_for(old(self).check_spec(), *sn)
                && !old(self).check_spec().reads_kernel_info() && !(old(self).check_spec() is CommsLifecycle)
                ==> r == old(self).check_spec().opening(),
            old(self).stage_spec() == 0 && !(r is Finish) ==> final(self).stage_spec() == 1,
            r is Finish ==> final(self).stage_spec() > 3,
    {
        if self.stage != 0 {
            self.stage = DONE;
            return Action::Finish(out_of_turn_result());
        }
        if any_unsupported(self.check, sn) {
            self.stage = DONE;
            return Action::Finish(TestResult::Unsupported);
        }
        self.stage = 1;
        match self.check {
            Check::KernelInfoReplyValid => {
                self.stage = DONE;
                Action::Finish(judge_info_status(info))
            },
            Check::KernelInfoHasLanguageInfo => {
                self.stage = DONE;
                Action::Finish(judge_info_field(info, true))
            },
            Check::KernelInfoHasProtocolVersion => {
                self.stage = DONE;
                Action::Finish(judge_info_field(info, false))
            },
            Check::CommsLifecycle => {
                let id = joined("test-comm-", random_uuid().as_str());
                proof {
                    reveal_strlit("test-comm-");
                    assert(id@.subrange(0, 10) =~= "test-comm-"@);
                }
                self.comm_id = id.clone();
                Action::OpenComm { comm_id: id, target_name: TEST_COMM_TARGET }
            },
            Check::HeartbeatResponds => Action::Heartbeat,
            Check::ExecuteStdout | Check::ParentHeaderCorrelation => Action::Execute(Snippet::PrintHello),
            Check::ExecuteStderr => Action::Execute(Snippet::PrintStderr),
            Check::ExecuteReplyOk | Check::StatusBusyIdleLifecycle | Check::ExecuteInputBroadcast
            | Check::HistoryRequest | Check::ExecutionCountIncrements => Action::Execute(Snippet::CompleteCode),
            Check::CompleteRequest | Check::InspectRequest => Action::Execute(Snippet::CompletionSetup),
            Check::IsCompleteComplete => Action::Shell(Request::IsComplete { code: Snippet::CompleteCode }),
            Check::IsCompleteIncomplete => Action::Shell(Request::IsComplete { code: Snippet::IncompleteCode }),
            Check::CommInfoRequest => Action::Shell(Request::CommInfo),
            Check::ErrorHandling => Action::Execute(Snippet::SyntaxError),
            Check::DisplayData => Action::Execute(Snippet::DisplayData),
            Check::UpdateDisplayData => Action::Execute(Snippet::UpdateDisplayData),
            Check::ExecuteResult => Action::Execute(Snippet::SimpleExpr),
            Check::StdinInputRequest => Action::ExecuteWithStdin { code: Snippet::InputPrompt, input: MOCK_INPUT },
            Check::InterruptRequest => Action::Control(Request::Interrupt),
            Check::ShutdownReply => Action::Control(Request::Shutdown { restart: false }),
        }
    }

    /// The next action, given the outcome of the last one.
    pub fn resume(&mut self, o: Outcome) -> (r: Action)
        ensures
            final(self).check_spec() == old(self).check_spec(),
            r is Finish ==> final(self).stage_spec() > 3,
            ({
                let c = old(self).check_spec();
                let st = old(self).stage_spec();
                &&& (st == 0 || st > 3) ==> finishes(r, out_of_turn())
                &&& c.reads_kernel_info() ==> finishes(r, out_of_turn())
                &&& c.single_step() && st == 1 ==> finishes(r, c.verdict(o))
                &&& c.single_step() && st > 1 ==> finishes(r, out_of_turn())
                &&& c.two_step() && st == 1 ==> r == c.second() && final(self).stage_spec() == 2
                &&& c.two_step() && st == 2 ==> finishes(r, c.verdict(o))
                &&& c.two_step() && st == 3 ==> finishes(r, out_of_turn())
                &&& c is ExecutionCountIncrements && st == 1 ==> (o matches Outcome::Executed(x)
                    ==> r == Action::Execute(Snippet::CompleteCode) && final(self).stage_spec() == 2
                        && final(self).first_spec() == Some(x))
                &&& c is ExecutionCountIncrements && st == 1 ==> (!(o is Executed) ==> finishes(r, out_of_turn()))
                &&& c is ExecutionCountIncrements && st == 2 ==> (match (old(self).first_spec(), o) {
                    (Some(f), Outcome::Executed(x)) => finishes(r, count_verdict(f, x)),
                    _ => finishes(r, out_of_turn()),
                })
                &&& c is ExecutionCountIncrements && st == 3 ==> finishes(r, out_of_turn())
                &&& c is CommsLifecycle && st == 1 ==> (match o {
                    Outcome::CommOpened(Ok(true)) => finishes(r, ResultView::Pass),
                    Outcome::CommOpened(Ok(false)) => (r matches Action::CloseComm { comm_id }
                        && comm_id@ == old(self).comm_id_spec() && final(self).stage_spec() == 2),
                    Outcome::CommOpened(Err(e)) => finishes(r, failed(e)),
                    _ => finishes(r, out_of_turn()),
                })
                &&& c is CommsLifecycle && st == 2 ==> (match o {
                    Outcome::CommClosed(_) => r == Action::Execute(Snippet::CompleteCode) && final(self).stage_spec() == 3,
                    _ => finishes(r, out_of_turn()),
                })
                &&& c is CommsLifecycle && st == 3 ==> (match o {
                    Outcome::Executed(Ok(_)) => finishes(r, ResultView::Pass),
                    Outcome::Executed(Err(e)) => finishes(r, unresponsive(e)),
                    _ => finishes(r, out_of_turn()),
                })
            }),
    {
        let st = self.stage;
        let c = self.check;
        if st == 0 || st > 3 || c == Check::KernelInfoReplyValid || c == Check::KernelInfoHasLanguageInfo
            || c == Check::KernelInfoHasProtocolVersion {
            self.stage = DONE;
            return Action::Finish(out_of_turn_result());
        }
        match c {
            Check::CompleteRequest | Check::InspectRequest | Check::HistoryRequest => {
                if st == 1 {
                    self.stage = 2;
                    match c {
                        Check::CompleteRequest => Action::Shell(Request::Complete { code: Snippet::CompletionPrefix }),
                        Check::InspectRequest => Action::Shell(Request::Inspect { code: Snippet::CompletionVar, detail_level: 0 }),
                        _ => Action::Shell(Request::History { n: 10, output: false, raw: true }),
                    }
                } else if st == 2 {
                    self.stage = DONE;
                    Action::Finish(c.judge(&o))
                } else {
                    self.stage = DONE;
                    Action::Finish(out_of_turn_result())
                }
            },
            Check::ExecutionCountIncrements => {
                if st == 1 {
                    match o {
                        Outcome::Executed(x) => {
                            self.first = Some(x);
                            self.stage = 2;
                            Action::Execute(Snippet::CompleteCode)
                        },
                        _ => {
                            self.stage = DONE;
                            Action::Finish(out_of_turn_result())
                        },
                    }
                } else if st == 2 {
                    self.stage = DONE;
                    match (&self.first, &o) {
                        (Some(f), Outcome::Executed(x)) => Action::Finish(judge_counts(f, x)),
                        _ => Action::Finish(out_of_turn_result()),
                    }
                } else {
                    self.stage = DONE;
                    Action::Finish(out_of_turn_result())
                }
            },
            Check::CommsLifecycle => {
                if st == 1 {
                    match o {
                        Outcome::CommOpened(Ok(true)) => {
                            self.stage = DONE;
                            Action::Finish(TestResult::Pass)
                        },
                        Outcome::CommOpened(Ok(false)) => {
                            self.stage = 2;
                            Action::CloseComm { comm_id: self.comm_id.clone() }
                        },
                        Outcome::CommOpened(Err(e)) => {
                            self.stage = DONE;
                            Action::Finish(error_result(&e))
                        },
                        _ => {
                            self.stage = DONE;
                            Action::Finish(out_of_turn_result())
                        },
                    }
                } else if st == 2 {
                    match o {
                        Outcome::CommClosed(_) => {
                            self.stage = 3;
                            Action::Execute(Snippet::CompleteCode)
                        },
                        _ => {
                            self.stage = DONE;
                            Action::Finish(out_of_turn_result())
                        },
                    }
                } else {
                    self.stage = DONE;
                    match o {
                        Outcome::Executed(Ok(_)) => Action::Finish(TestResult::Pass),
                        Outcome::Executed(Err(e)) => {
                            let kind = match &e {
                                HarnessError::Timeout(_) => FailureKind::Timeout,
                                _ => FailureKind::HarnessError,
                            };
                            let reason = joined("Kernel unresponsive after comm: ", e.message().as_str());
                            Action::Finish(TestResult::Fail { reason, kind: Some(kind) })
                        },
                        _ => Action::Finish(out_of_turn_result()),
                    }
                }
            },
            _ => {
                self.stage = DONE;
                if st == 1 {
                    Action::Finish(c.judge(&o))
                } else {
                    Action::Finish(out_of_turn_result())
                }
            },
        }
    }
}

} // verus!
