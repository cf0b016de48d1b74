//! How the checks judge what a kernel sent.
//!
//! Each verdict is a spec function over the messages a check collected and
//! an executable function proved to compute it.

use vstd::prelude::*;

use crate::driver::HarnessError;
use crate::message::{
    is_complete_name, is_complete_str, reply_status_name, reply_status_str, Content,
    IsCompleteStatus, KernelInfo, Message, ReplyStatus, StreamName,
};
use crate::text::{bool_str, bool_text, contains_spec, contains_text, decimal, decimal_text, joined};
use crate::types::{FailureKind, ResultView, TestResult};

verus! {

/// What an `execute_request` brought back: the shell reply and the iopub
/// messages of the request, in arrival order.
#[derive(Debug, Clone)]
pub struct Execution {
    pub reply: Message,
    pub iopub: Vec<Message>,
}

/// An execution that also served stdin.
#[derive(Debug, Clone)]
pub struct StdinExecution {
    pub reply: Message,
    pub iopub: Vec<Message>,
    /// An `input_request` arrived on stdin.
    pub saw_input_request: bool,
}

/// The diagnostic kind of a driver error caught by a check: a timeout is a
/// timeout, anything else is the harness's.
pub open spec fn error_kind(e: HarnessError) -> FailureKind {
    match e {
        HarnessError::Timeout(_) => FailureKind::Timeout,
        _ => FailureKind::HarnessError,
    }
}

/// A check failed on a driver error.
pub open spec fn failed(e: HarnessError) -> ResultView {
    ResultView::Fail { reason: e.text(), kind: Some(error_kind(e)) }
}

pub fn error_result(e: &HarnessError) -> (r: TestResult)
    ensures
        r@ == failed(*e),
{
    let kind = match e {
        HarnessError::Timeout(_) => FailureKind::Timeout,
        _ => FailureKind::HarnessError,
    };
    TestResult::Fail { reason: e.message(), kind: Some(kind) }
}

/// A failure that the kernel's content caused.
pub open spec fn content_failure(reason: Seq<char>) -> ResultView {
    ResultView::Fail { reason, kind: Some(FailureKind::UnexpectedContent) }
}

fn content_fail(reason: &str) -> (r: TestResult)
    ensures
        r@ == content_failure(reason@),
{
    TestResult::fail(reason, FailureKind::UnexpectedContent)
}

/// Broadcast types that checks look for.
#[derive(Debug, Clone, Copy, PartialEq, Eq, Structural)]
pub enum Broadcast {
    ExecuteInput,
    ExecuteResult,
    DisplayData,
    UpdateDisplayData,
    ErrorOutput,
}

pub open spec fn is_broadcast(m: Message, b: Broadcast) -> bool {
    match b {
        Broadcast::ExecuteInput => m.content is ExecuteInput,
        Broadcast::ExecuteResult => m.content is ExecuteResult,
        Broadcast::DisplayData => m.content is DisplayData,
        Broadcast::UpdateDisplayData => m.content is UpdateDisplayData,
        Broadcast::ErrorOutput => m.content is ErrorOutput,
    }
}

/// Some message of `s` is a broadcast of type `b`.
pub open spec fn has_broadcast(s: Seq<Message>, b: Broadcast) -> bool {
    exists|i: int| 0 <= i < s.len() && is_broadcast(#[trigger] s[i], b)
}

pub fn any_broadcast(s: &Vec<Message>, b: Broadcast) -> (r: bool)
    ensures
        r == has_broadcast(s@, b),
{
    let mut i: usize = 0;
    while i < s.len()
        invariant
            i <= s@.len(),
            forall|k: int| 0 <= k < i ==> !is_broadcast(#[trigger] s@[k], b),
        decreases s@.len() - i,
    {
        let found = match (&s[i].content, b) {
            (Content::ExecuteInput, Broadcast::ExecuteInput) => true,
            (Content::ExecuteResult, Broadcast::ExecuteResult) => true,
            (Content::DisplayData, Broadcast::DisplayData) => true,
            (Content::UpdateDisplayData, Broadcast::UpdateDisplayData) => true,
            (Content::ErrorOutput, Broadcast::ErrorOutput) => true,
            _ => false,
        };
        if found {
            return true;
        }
        i = i + 1;
    }
    false
}

/// Message `m` is a stream of `name` whose text holds `needle`.
pub open spec fn is_stream_with(m: Message, name: StreamName, needle: Seq<char>) -> bool {
    m.content matches Content::Stream { name: n, text } && n == name && contains_spec(text@, needle)
}

pub open spec fn has_stream(s: Seq<Message>, name: StreamName, needle: Seq<char>) -> bool {
    exists|i: int| 0 <= i < s.len() && is_stream_with(#[trigger] s[i], name, needle)
}

pub fn any_stream(s: &Vec<Message>, name: StreamName, needle: &str) -> (r: bool)
    ensures
        r == has_stream(s@, name, needle@),
{
    let mut i: usize = 0;
    while i < s.len()
        invariant
            i <= s@.len(),
            forall|k: int| 0 <= k < i ==> !is_stream_with(#[trigger] s@[k], name, needle@),
        decreases s@.len() - i,
    {
        let found = match &s[i].content {
            Content::Stream { name: n, text } => *n == name && contains_text(text.as_str(), needle),
            _ => false,
        };
        if found {
            return true;
        }
        i = i + 1;
    }
    false
}

/// The text of a wrong-type failure.
pub open spec fn wrong_type_text(expected: Seq<char>, got: Seq<char>) -> Seq<char> {
    "Expected "@ + expected + ", got \""@ + got + "\""@
}

/// A reply of another type than `expected` came.
pub open spec fn wrong_type(expected: Seq<char>, got: Seq<char>) -> ResultView {
    ResultView::Fail { reason: wrong_type_text(expected, got), kind: Some(FailureKind::UnexpectedMessageType) }
}

fn wrong_type_result(expected: &str, got: &String) -> (r: TestResult)
    ensures
        r@ == wrong_type(expected@, got@),
{
    let mut s = joined("Expected ", expected);
    s.append(", got \"");
    s.append(got.as_str());
    s.append("\"");
    TestResult::Fail { reason: s, kind: Some(FailureKind::UnexpectedMessageType) }
}

/// A reply of the right type with a status other than ok.
pub open spec fn bad_status(name: Seq<char>, status: Seq<char>) -> ResultView {
    ResultView::Fail { reason: name + " status: "@ + status, kind: Some(FailureKind::KernelError) }
}

fn bad_status_result(name: &str, status: &str) -> (r: TestResult)
    ensures
        r@ == bad_status(name@, status@),
{
    let mut s = joined(name, " status: ");
    s.append(status);
    TestResult::Fail { reason: s, kind: Some(FailureKind::KernelError) }
}

/// Replies that are judged by their status alone.
#[derive(Debug, Clone, Copy, PartialEq, Eq, Structural)]
pub enum ReplyKind {
    Execute,
    Inspect,
    History,
    CommInfo,
    Shutdown,
    Interrupt,
}

pub open spec fn reply_name(k: ReplyKind) -> Seq<char> {
    match k {
        ReplyKind::Execute => "execute_reply"@,
        ReplyKind::Inspect => "inspect_reply"@,
        ReplyKind::History => "history_reply"@,
        ReplyKind::CommInfo => "comm_info_reply"@,
        ReplyKind::Shutdown => "shutdown_reply"@,
        ReplyKind::Interrupt => "interrupt_reply"@,
    }
}

fn reply_name_str(k: ReplyKind) -> (r: &'static str)
    ensures
        r@ == reply_name(k),
{
    match k {
        ReplyKind::Execute => "execute_reply",
        ReplyKind::Inspect => "inspect_reply",
        ReplyKind::History => "history_reply",
        ReplyKind::CommInfo => "comm_info_reply",
        ReplyKind::Shutdown => "shutdown_reply",
        ReplyKind::Interrupt => "interrupt_reply",
    }
}

/// The status of `m` if it is a reply of kind `k`.
pub open spec fn status_of(m: Message, k: ReplyKind) -> Option<ReplyStatus> {
    match (m.content, k) {
        (Content::ExecuteReply { status, .. }, ReplyKind::Execute) => Some(status),
        (Content::InspectReply { status }, ReplyKind::Inspect) => Some(status),
        (Content::HistoryReply { status }, ReplyKind::History) => Some(status),
        (Content::CommInfoReply { status }, ReplyKind::CommInfo) => Some(status),
        (Content::ShutdownReply { status }, ReplyKind::Shutdown) => Some(status),
        (Content::InterruptReply { status }, ReplyKind::Interrupt) => Some(status),
        _ => None,
    }
}

fn status_of_exec(m: &Message, k: ReplyKind) -> (r: Option<ReplyStatus>)
    ensures
        r == status_of(*m, k),
{
    match (&m.content, k) {
        (Content::ExecuteReply { status, .. }, ReplyKind::Execute) => Some(*status),
        (Content::InspectReply { status }, ReplyKind::Inspect) => Some(*status),
        (Content::HistoryReply { status }, ReplyKind::History) => Some(*status),
        (Content::CommInfoReply { status }, ReplyKind::CommInfo) => Some(*status),
        (Content::ShutdownReply { status }, ReplyKind::Shutdown) => Some(*status),
        (Content::InterruptReply { status }, ReplyKind::Interrupt) => Some(*status),
        _ => None,
    }
}

/// A reply passes when it has the expected type and status ok.
pub open spec fn status_verdict(k: ReplyKind, m: Message) -> ResultView {
    match status_of(m, k) {
        None => wrong_type(reply_name(k), m.msg_type@),
        Some(s) => if s == ReplyStatus::Success {
            ResultView::Pass
        } else {
            bad_status(reply_name(k), reply_status_name(s))
        },
    }
}

pub fn judge_status(k: ReplyKind, m: &Message) -> (r: TestResult)
    ensures
        r@ == status_verdict(k, *m),
{
    match status_of_exec(m, k) {
        None => wrong_type_result(reply_name_str(k), &m.msg_type),
        Some(s) => if s == ReplyStatus::Success {
            TestResult::Pass
        } else {
            bad_status_result(reply_name_str(k), reply_status_str(s))
        },
    }
}

/// The kernel_info reply has status ok.
pub open spec fn info_status_verdict(info: Option<KernelInfo>) -> ResultView {
    match info {
        None => ResultView::Fail { reason: "No kernel_info received"@, kind: Some(FailureKind::Timeout) },
        Some(i) => if i.status == ReplyStatus::Success {
            ResultView::Pass
        } else {
            bad_status("kernel_info"@, reply_status_name(i.status))
        },
    }
}

pub fn judge_info_status(info: Option<&KernelInfo>) -> (r: TestResult)
    ensures
        r@ == info_status_verdict(match info { Some(i) => Some(*i), None => None }),
{
    match info {
        None => TestResult::fail("No kernel_info received", FailureKind::Timeout),
        Some(i) => if i.status == ReplyStatus::Success {
            TestResult::Pass
        } else {
            bad_status_result("kernel_info", reply_status_str(i.status))
        },
    }
}

/// A field of the kernel_info reply is non-empty.
pub open spec fn info_field_verdict(info: Option<KernelInfo>, language: bool) -> ResultView {
    match info {
        None => ResultView::Fail { reason: "No kernel_info received"@, kind: Some(FailureKind::Timeout) },
        Some(i) => if language {
            if i.language@.len() > 0 { ResultView::Pass } else { content_failure("language_info.name is empty"@) }
        } else {
            if i.protocol_version@.len() > 0 { ResultView::Pass } else { content_failure("protocol_version is empty"@) }
        },
    }
}

pub fn judge_info_field(info: Option<&KernelInfo>, language: bool) -> (r: TestResult)
    ensures
        r@ == info_field_verdict(match info { Some(i) => Some(*i), None => None }, language),
{
    match info {
        None => TestResult::fail("No kernel_info received", FailureKind::Timeout),
        Some(i) => if language {
            if i.language.as_str().unicode_len() > 0 { TestResult::Pass } else { content_fail("language_info.name is empty") }
        } else {
            if i.protocol_version.as_str().unicode_len() > 0 { TestResult::Pass } else { content_fail("protocol_version is empty") }
        },
    }
}


/// Some stream message on `name` holds `needle`.
pub open spec fn stream_verdict(s: Seq<Message>, name: StreamName, needle: Seq<char>, missing: Seq<char>) -> ResultView {
    if has_stream(s, name, needle) { ResultView::Pass } else { content_failure(missing) }
}

pub fn judge_stream(s: &Vec<Message>, name: StreamName, needle: &str, missing: &str) -> (r: TestResult)
    ensures
        r@ == stream_verdict(s@, name, needle@, missing@),
{
    if any_stream(s, name, needle) { TestResult::Pass } else { content_fail(missing) }
}

/// Some message of `s` is a broadcast of type `b`.
pub open spec fn presence_verdict(s: Seq<Message>, b: Broadcast, missing: Seq<char>) -> ResultView {
    if has_broadcast(s, b) { ResultView::Pass } else { content_failure(missing) }
}

pub fn judge_presence(s: &Vec<Message>, b: Broadcast, missing: &str) -> (r: TestResult)
    ensures
        r@ == presence_verdict(s@, b, missing@),
{
    if any_broadcast(s, b) { TestResult::Pass } else { content_fail(missing) }
}

/// Some message of `s` is the busy status.
pub open spec fn has_busy(s: Seq<Message>) -> bool {
    exists|i: int| 0 <= i < s.len() && (#[trigger] s[i]).is_busy()
}

/// Some message of `s` is the idle status.
pub open spec fn has_idle(s: Seq<Message>) -> bool {
    exists|i: int| 0 <= i < s.len() && (#[trigger] s[i]).is_idle()
}

/// The first busy status of `s` comes before its first idle status.
pub open spec fn busy_first(s: Seq<Message>) -> bool {
    exists|i: int| 0 <= i < s.len() && (#[trigger] s[i]).is_busy() && forall|k: int| 0 <= k < i ==> !(#[trigger] s[k]).is_idle()
}

/// Busy and idle were both broadcast, busy first.
pub open spec fn lifecycle_verdict(s: Seq<Message>) -> ResultView {
    if has_busy(s) && has_idle(s) {
        if busy_first(s) {
            ResultView::Pass
        } else {
            content_failure("idle came before busy"@)
        }
    } else {
        content_failure("Missing status: busy="@ + bool_text(has_busy(s)) + ", idle="@ + bool_text(has_idle(s)))
    }
}

pub fn judge_lifecycle(s: &Vec<Message>) -> (r: TestResult)
    ensures
        r@ == lifecycle_verdict(s@),
{
    let mut busy = false;
    let mut idle = false;
    let mut first_busy = false;
    let mut i: usize = 0;
    while i < s.len()
        invariant
            i <= s@.len(),
            busy == exists|k: int| 0 <= k < i && (#[trigger] s@[k]).is_busy(),
            idle == exists|k: int| 0 <= k < i && (#[trigger] s@[k]).is_idle(),
            first_busy == exists|j: int| 0 <= j < i && (#[trigger] s@[j]).is_busy()
                && forall|k: int| 0 <= k < j ==> !(#[trigger] s@[k]).is_idle(),
        decreases s@.len() - i,
    {
        let b = s[i].busy();
        let d = s[i].idle();
        if b && !idle {
            first_busy = true;
            assert(s@[i as int].is_busy() && forall|k: int| 0 <= k < i ==> !(#[trigger] s@[k]).is_idle());
        }
        proof {
            if !first_busy {
                assert forall|j: int| 0 <= j < i + 1 && (#[trigger] s@[j]).is_busy()
                    implies !(forall|k: int| 0 <= k < j ==> !(#[trigger] s@[k]).is_idle()) by {
                    if j == i {
                        assert(idle);
                        let k = choose|k: int| 0 <= k < i && (#[trigger] s@[k]).is_idle();
                        assert(s@[k].is_idle());
                    }
                }
            }
        }
        busy = busy || b;
        idle = idle || d;
        i = i + 1;
    }
    assert(s@.subrange(0, i as int) =~= s@);
    if busy && idle {
        if first_busy {
            TestResult::Pass
        } else {
            content_fail("idle came before busy")
        }
    } else {
        let mut t = joined("Missing status: busy=", bool_str(busy));
        t.append(", idle=");
        t.append(bool_str(idle));
        TestResult::Fail { reason: t, kind: Some(FailureKind::UnexpectedContent) }
    }
}

/// With one busy status at position `i` and one idle status at position
/// `j`, the busy/idle lifecycle verdict is a pass exactly when `i < j`.
pub proof fn lemma_lifecycle_order(s: Seq<Message>, i: int, j: int)
    requires
        0 <= i < s.len(),
        0 <= j < s.len(),
        s[i].is_busy(),
        s[j].is_idle(),
        forall|k: int| 0 <= k < s.len() && k != i ==> !(#[trigger] s[k]).is_busy(),
        forall|k: int| 0 <= k < s.len() && k != j ==> !(#[trigger] s[k]).is_idle(),
    ensures
        (lifecycle_verdict(s) == ResultView::Pass) <==> i < j,
{
    assert(has_busy(s));
    assert(has_idle(s));
    if i < j {
        assert(forall|k: int| 0 <= k < i ==> !(#[trigger] s[k]).is_idle());
        assert(busy_first(s));
    } else {
        if busy_first(s) {
            let b = choose|b: int| 0 <= b < s.len() && (#[trigger] s[b]).is_busy()
                && forall|k: int| 0 <= k < b ==> !(#[trigger] s[k]).is_idle();
            assert(b == i);
            assert(!s[j].is_idle());
        }
    }
}

/// The reply is an execute_reply with status error.
pub open spec fn reply_is_error(m: Message) -> bool {
    m.content matches Content::ExecuteReply { status, .. } && status == ReplyStatus::Error
}

/// A syntax error shows as an error reply or as an error broadcast.
pub open spec fn error_handling_verdict(x: Execution) -> ResultView {
    if reply_is_error(x.reply) || has_broadcast(x.iopub@, Broadcast::ErrorOutput) {
        ResultView::Pass
    } else {
        content_failure("No error in reply or iopub"@)
    }
}

pub fn judge_error_handling(x: &Execution) -> (r: TestResult)
    ensures
        r@ == error_handling_verdict(*x),
{
    let reply_error = match &x.reply.content {
        Content::ExecuteReply { status, .. } => *status == ReplyStatus::Error,
        _ => false,
    };
    if reply_error || any_broadcast(&x.iopub, Broadcast::ErrorOutput) {
        TestResult::Pass
    } else {
        content_fail("No error in reply or iopub")
    }
}

/// display_data seen: pass; else the feature counts as unsupported.
pub open spec fn display_verdict(s: Seq<Message>) -> ResultView {
    if has_broadcast(s, Broadcast::DisplayData) { ResultView::Pass } else { ResultView::Unsupported }
}

pub fn judge_display(s: &Vec<Message>) -> (r: TestResult)
    ensures
        r@ == display_verdict(s@),
{
    if any_broadcast(s, Broadcast::DisplayData) { TestResult::Pass } else { TestResult::Unsupported }
}

/// display_data and update_display_data: pass; display_data alone: half
/// credit; neither: unsupported.
pub open spec fn update_display_verdict(s: Seq<Message>) -> ResultView {
    if has_broadcast(s, Broadcast::DisplayData) && has_broadcast(s, Broadcast::UpdateDisplayData) {
        ResultView::Pass
    } else if has_broadcast(s, Broadcast::DisplayData) {
        ResultView::PartialPass { score_percent: 50, notes: "display_data received but no update_display_data"@ }
    } else {
        ResultView::Unsupported
    }
}

pub fn judge_update_display(s: &Vec<Message>) -> (r: TestResult)
    ensures
        r@ == update_display_verdict(s@),
        r.wf(),
{
    let display = any_broadcast(s, Broadcast::DisplayData);
    let update = any_broadcast(s, Broadcast::UpdateDisplayData);
    if display && update {
        TestResult::Pass
    } else if display {
        TestResult::PartialPass {
            score_percent: 50,
            notes: "display_data received but no update_display_data".to_string(),
        }
    } else {
        TestResult::Unsupported
    }
}

/// An input_request was seen and the execution succeeded.
pub open spec fn stdin_verdict(x: StdinExecution) -> ResultView {
    if !x.saw_input_request {
        content_failure("No input_request received on stdin channel"@)
    } else {
        status_verdict(ReplyKind::Execute, x.reply)
    }
}

pub fn judge_stdin(x: &StdinExecution) -> (r: TestResult)
    ensures
        r@ == stdin_verdict(*x),
{
    if !x.saw_input_request {
        content_fail("No input_request received on stdin channel")
    } else {
        judge_status(ReplyKind::Execute, &x.reply)
    }
}

/// A complete_reply passes unless its status is error.
pub open spec fn complete_verdict(m: Message) -> ResultView {
    match m.content {
        Content::CompleteReply { status, error } => if status == ReplyStatus::Error {
            ResultView::Fail { reason: "complete_reply error: "@ + error@, kind: Some(FailureKind::KernelError) }
        } else {
            ResultView::Pass
        },
        _ => wrong_type("complete_reply"@, m.msg_type@),
    }
}

pub fn judge_complete(m: &Message) -> (r: TestResult)
    ensures
        r@ == complete_verdict(*m),
{
    match &m.content {
        Content::CompleteReply { status, error } => if *status == ReplyStatus::Error {
            TestResult::Fail { reason: joined("complete_reply error: ", error.as_str()), kind: Some(FailureKind::KernelError) }
        } else {
            TestResult::Pass
        },
        _ => wrong_type_result("complete_reply", &m.msg_type),
    }
}

pub open spec fn is_complete_expected_text(want: IsCompleteStatus) -> Seq<char> {
    if want == IsCompleteStatus::Complete { "Expected 'complete', got "@ } else { "Expected 'incomplete', got "@ }
}

/// The is_complete_reply has status `want`; another status earns half credit.
pub open spec fn is_complete_verdict(m: Message, want: IsCompleteStatus) -> ResultView {
    match m.content {
        Content::IsCompleteReply { status } => if status == want {
            ResultView::Pass
        } else {
            ResultView::PartialPass { score_percent: 50, notes: is_complete_expected_text(want) + is_complete_name(status) }
        },
        _ => wrong_type("is_complete_reply"@, m.msg_type@),
    }
}

pub fn judge_is_complete(m: &Message, want: IsCompleteStatus) -> (r: TestResult)
    ensures
        r@ == is_complete_verdict(*m, want),
        r.wf(),
{
    match &m.content {
        Content::IsCompleteReply { status } => if *status == want {
            TestResult::Pass
        } else {
            let lead = if want == IsCompleteStatus::Complete { "Expected 'complete', got " } else { "Expected 'incomplete', got " };
            TestResult::PartialPass { score_percent: 50, notes: joined(lead, is_complete_str(*status)) }
        },
        _ => wrong_type_result("is_complete_reply", &m.msg_type),
    }
}

/// The execution count of an execute_reply; 0 for another message.
pub open spec fn count_of(m: Message) -> u64 {
    match m.content {
        Content::ExecuteReply { execution_count, .. } => execution_count,
        _ => 0,
    }
}

fn count_of_exec(m: &Message) -> (r: u64)
    ensures
        r == count_of(*m),
{
    match &m.content {
        Content::ExecuteReply { execution_count, .. } => *execution_count,
        _ => 0,
    }
}

/// The second execution's count is above the first's.
pub open spec fn count_verdict(first: Result<Execution, HarnessError>, second: Result<Execution, HarnessError>) -> ResultView {
    match (first, second) {
        (Ok(a), Ok(b)) => if count_of(b.reply) > count_of(a.reply) {
            ResultView::Pass
        } else {
            content_failure("Counts didn't increment: "@ + decimal(count_of(a.reply) as nat) + " -> "@ + decimal(count_of(b.reply) as nat))
        },
        (Err(e), _) => failed(e),
        (_, Err(e)) => failed(e),
    }
}

pub fn judge_counts(first: &Result<Execution, HarnessError>, second: &Result<Execution, HarnessError>) -> (r: TestResult)
    ensures
        r@ == count_verdict(*first, *second),
{
    match (first, second) {
        (Ok(a), Ok(b)) => {
            let c1 = count_of_exec(&a.reply);
            let c2 = count_of_exec(&b.reply);
            if c2 > c1 {
                TestResult::Pass
            } else {
                let mut t = joined("Counts didn't increment: ", decimal_text(c1).as_str());
                t.append(" -> ");
                t.append(decimal_text(c2).as_str());
                TestResult::Fail { reason: t, kind: Some(FailureKind::UnexpectedContent) }
            }
        },
        (Err(e), _) => error_result(e),
        (_, Err(e)) => error_result(e),
    }
}

/// Every message of `s` has a parent header.
pub open spec fn all_correlated(s: Seq<Message>) -> bool {
    forall|i: int| 0 <= i < s.len() ==> (#[trigger] s[i]).parent_id is Some
}

/// The reply and every iopub message carry a parent header.
pub open spec fn correlation_verdict(x: Execution) -> ResultView {
    if all_correlated(x.iopub@) && x.reply.parent_id is Some {
        ResultView::Pass
    } else {
        content_failure("Missing parent_header: iopub="@ + bool_text(all_correlated(x.iopub@)) + ", reply="@
            + bool_text(x.reply.parent_id is Some))
    }
}

pub fn judge_correlation(x: &Execution) -> (r: TestResult)
    ensures
        r@ == correlation_verdict(*x),
{
    let mut all = true;
    let mut i: usize = 0;
    while i < x.iopub.len()
        invariant
            i <= x.iopub@.len(),
            all == forall|k: int| 0 <= k < i ==> (#[trigger] x.iopub@[k]).parent_id is Some,
        decreases x.iopub@.len() - i,
    {
        if x.iopub[i].parent_id.is_none() {
            all = false;
        }
        i = i + 1;
    }
    let reply = x.reply.parent_id.is_some();
    if all && reply {
        TestResult::Pass
    } else {
        let mut t = joined("Missing parent_header: iopub=", bool_str(all));
        t.append(", reply=");
        t.append(bool_str(reply));
        TestResult::Fail { reason: t, kind: Some(FailureKind::UnexpectedContent) }
    }
}

} // verus!
