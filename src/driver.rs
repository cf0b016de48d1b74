//! Decisions of the kernel-under-test driver.
//!
//! The driver alternates bounded reads on the kernel's channels with
//! decisions. The reads are the caller's; every decision is made here:
//! which iopub messages belong to the request in flight, when the drain is
//! over, when the deadline has passed, how an `input_request` is answered,
//! whether a `comm_open` was rejected, and which error a failed or late read
//! becomes.

use vstd::prelude::*;

use crate::message::{Content, KernelInfo, Message};
use crate::text::joined;

verus! {

/// Time the kernel process is given to start before channels are opened.
pub const KERNEL_START_GRACE_MS: u64 = 500;

/// Time the iopub subscription is given to settle after connecting.
pub const IOPUB_SETTLE_MS: u64 = 100;

/// Bound of one iopub read while draining.
pub const IOPUB_POLL_MS: u64 = 100;

/// Bound of each of the alternating stdin and iopub reads of an execution
/// that serves stdin.
pub const STDIN_POLL_MS: u64 = 50;

/// Time the kernel is given to process a `comm_close`.
pub const COMM_CLOSE_SETTLE_MS: u64 = 100;

/// Time the kernel is given to exit after a `shutdown_request`, before it is
/// killed.
pub const SHUTDOWN_GRACE_MS: u64 = 500;

/// Errors of the driver.
#[derive(Debug, Clone)]
pub enum HarnessError {
    /// Spawning the kernel or writing its connection file failed.
    LaunchFailed(String),
    /// A channel could not be established.
    ConnectionFailed(String),
    /// The deadline passed while waiting for the named event.
    Timeout(String),
    /// A read, a decode or the type of a reply went wrong.
    ProtocolError(String),
    /// A filesystem or OS operation failed.
    IoError(String),
    /// The messaging library reported an error.
    RuntimeError(String),
}

impl HarnessError {
    /// The error's text, as it is shown to a user.
    pub open spec fn text(self) -> Seq<char> {
        match self {
            HarnessError::LaunchFailed(s) => "Kernel launch failed: "@ + s@,
            HarnessError::ConnectionFailed(s) => "Connection failed: "@ + s@,
            HarnessError::Timeout(s) => "Timeout waiting for "@ + s@,
            HarnessError::ProtocolError(s) => "Protocol error: "@ + s@,
            HarnessError::IoError(s) => "IO error: "@ + s@,
            HarnessError::RuntimeError(s) => "Runtime error: "@ + s@,
        }
    }

    pub fn message(&self) -> (r: String)
        ensures
            r@ == self.text(),
    {
        match self {
            HarnessError::LaunchFailed(s) => joined("Kernel launch failed: ", s.as_str()),
            HarnessError::ConnectionFailed(s) => joined("Connection failed: ", s.as_str()),
            HarnessError::Timeout(s) => joined("Timeout waiting for ", s.as_str()),
            HarnessError::ProtocolError(s) => joined("Protocol error: ", s.as_str()),
            HarnessError::IoError(s) => joined("IO error: ", s.as_str()),
            HarnessError::RuntimeError(s) => joined("Runtime error: ", s.as_str()),
        }
    }
}

/// The five TCP ports of a connection descriptor.
#[derive(Debug, Clone, Copy, PartialEq, Eq, Structural)]
pub struct Ports {
    pub stdin: u16,
    pub control: u16,
    pub hb: u16,
    pub shell: u16,
    pub iopub: u16,
}

/// No two of the ports are equal.
pub open spec fn pairwise_distinct(s: Seq<u16>) -> bool {
    forall|i: int, j: int| 0 <= i < j < s.len() ==> s[i] != s[j]
}

/// The ports of the descriptor from five free ports found on loopback, in
/// the order stdin, control, heartbeat, shell, iopub. Anything but five
/// distinct ports is a launch failure.
pub fn assign_ports(found: &Vec<u16>) -> (r: Result<Ports, HarnessError>)
    ensures
        r is Ok <==> found@.len() == 5 && pairwise_distinct(found@),
        r matches Ok(p) ==> p.stdin == found@[0] && p.control == found@[1] && p.hb == found@[2]
            && p.shell == found@[3] && p.iopub == found@[4],
        r is Err ==> (r matches Err(HarnessError::LaunchFailed(s)) && s@ == "expected five distinct free ports"@),
{
    if found.len() != 5 {
        return Err(HarnessError::LaunchFailed("expected five distinct free ports".to_string()));
    }
    let mut i: usize = 0;
    while i < 5
        invariant
            found@.len() == 5,
            i <= 5,
            forall|a: int, b: int| 0 <= a < b < 5 && a < i ==> found@[a] != found@[b],
        decreases 5 - i,
    {
        let mut j: usize = i + 1;
        while j < 5
            invariant
                found@.len() == 5,
                i < 5,
                i < j <= 5,
                forall|a: int, b: int| 0 <= a < b < 5 && a < i ==> found@[a] != found@[b],
                forall|b: int| i < b < j ==> found@[i as int] != found@[b],
            decreases 5 - j,
        {
            if found[i] == found[j] {
                return Err(HarnessError::LaunchFailed("expected five distinct free ports".to_string()));
            }
            j = j + 1;
        }
        i = i + 1;
    }
    Ok(Ports { stdin: found[0], control: found[1], hb: found[2], shell: found[3], iopub: found[4] })
}

/// File name of the connection descriptor of a session.
pub fn connection_file_name(session_id: &str) -> (r: String)
    ensures
        r@ == "kernel-test-"@ + session_id@ + ".json"@,
{
    let mut r = joined("kernel-test-", session_id);
    r.append(".json");
    r
}

/// What the driver is waiting for when a deadline passes.
#[derive(Debug, Clone, Copy, PartialEq, Eq, Structural)]
pub enum Wait {
    KernelInfoReply,
    ShellReply,
    ControlReply,
    ExecuteReply,
    StdinExecuteReply,
    Heartbeat,
    IopubIdle,
    StdinIopubIdle,
}

impl Wait {
    /// The name of the awaited event in a timeout error.
    pub open spec fn context(self) -> Seq<char> {
        match self {
            Wait::KernelInfoReply => "kernel_info_reply"@,
            Wait::ShellReply => "shell reply"@,
            Wait::ControlReply => "control reply"@,
            Wait::ExecuteReply => "execute_reply"@,
            Wait::StdinExecuteReply => "execute_reply (stdin test)"@,
            Wait::Heartbeat => "heartbeat"@,
            Wait::IopubIdle => "iopub idle"@,
            Wait::StdinIopubIdle => "iopub idle (stdin test)"@,
        }
    }

    /// The timeout error for this wait.
    pub fn timed_out(self) -> (r: HarnessError)
        ensures
            r matches HarnessError::Timeout(s) && s@ == self.context(),
    {
        let s = match self {
            Wait::KernelInfoReply => "kernel_info_reply",
            Wait::ShellReply => "shell reply",
            Wait::ControlReply => "control reply",
            Wait::ExecuteReply => "execute_reply",
            Wait::StdinExecuteReply => "execute_reply (stdin test)",
            Wait::Heartbeat => "heartbeat",
            Wait::IopubIdle => "iopub idle",
            Wait::StdinIopubIdle => "iopub idle (stdin test)",
        };
        HarnessError::Timeout(s.to_string())
    }
}

/// What one bounded read on a channel produced.
#[derive(Debug, Clone)]
pub enum Read<T> {
    /// A value arrived.
    Received(T),
    /// The channel reported an error, with its text.
    Failed(String),
    /// Nothing arrived before the read's deadline.
    TimedOut,
}

/// The result of a read made under the per-check deadline: the value, a
/// `ProtocolError` carrying the channel's error text, or the timeout of `wait`.
pub fn settle<T>(wait: Wait, read: Read<T>) -> (r: Result<T, HarnessError>)
    ensures
        read matches Read::Received(v) ==> r == Ok::<T, HarnessError>(v),
        read matches Read::Failed(e) ==> (r matches Err(HarnessError::ProtocolError(s)) && s@ == e@),
        read is TimedOut ==> (r matches Err(HarnessError::Timeout(s)) && s@ == wait.context()),
{
    match read {
        Read::Received(v) => Ok(v),
        Read::Failed(e) => Err(HarnessError::ProtocolError(e)),
        Read::TimedOut => Err(wait.timed_out()),
    }
}

/// The `kernel_info_reply` that a launch waits for: its content, or a
/// `ProtocolError` naming the type that came instead.
pub fn accept_kernel_info(reply: Message) -> (r: Result<KernelInfo, HarnessError>)
    ensures
        reply.content matches Content::KernelInfoReply { info } ==> r == Ok::<KernelInfo, HarnessError>(info),
        !(reply.content is KernelInfoReply) ==> (r matches Err(HarnessError::ProtocolError(s))
            && s@ == "Expected kernel_info_reply, got \""@ + reply.msg_type@ + "\""@),
{
    match reply.content {
        Content::KernelInfoReply { info } => Ok(info),
        _ => {
            let mut s = String::from_str("Expected kernel_info_reply, got \"");
            s.append(reply.msg_type.as_str());
            s.append("\"");
            Err(HarnessError::ProtocolError(s))
        },
    }
}


/// The primitive a drain serves.
#[derive(Debug, Clone, Copy, PartialEq, Eq, Structural)]
pub enum DrainKind {
    /// `execute_and_collect`.
    Execute,
    /// `execute_with_stdin`.
    ExecuteWithStdin,
    /// `shell_request_with_iopub`.
    ShellRequest,
}

impl DrainKind {
    /// What a drain of this kind waits for on iopub.
    pub open spec fn idle_wait(self) -> Wait {
        match self {
            DrainKind::ExecuteWithStdin => Wait::StdinIopubIdle,
            _ => Wait::IopubIdle,
        }
    }

    /// What is waited for on shell once the drain is over.
    pub open spec fn reply_wait_spec(self) -> Wait {
        match self {
            DrainKind::Execute => Wait::ExecuteReply,
            DrainKind::ExecuteWithStdin => Wait::StdinExecuteReply,
            DrainKind::ShellRequest => Wait::ShellReply,
        }
    }
}

/// Abstract state of a drain.
pub struct DrainView {
    /// The iopub messages kept so far, in arrival order.
    pub messages: Seq<Message>,
    /// The idle status of the request has been seen.
    pub finished: bool,
    /// An `input_request` arrived on stdin.
    pub saw_input_request: bool,
}

pub open spec fn empty_drain() -> DrainView {
    DrainView { messages: Seq::empty(), finished: false, saw_input_request: false }
}

/// One iopub message reaches the drain of the request with message id `id`:
/// a message of another request is dropped; one of this request is kept,
/// and ends the drain if it is the idle status. Once over, the drain keeps
/// nothing more.
pub open spec fn drain_step(id: Seq<char>, v: DrainView, m: Message) -> DrainView {
    if v.finished || !m.belongs_to(id) {
        v
    } else {
        DrainView { messages: v.messages.push(m), finished: m.is_idle(), saw_input_request: v.saw_input_request }
    }
}

/// The drain after the iopub messages of `trace` arrived, in order.
pub open spec fn drain_run(id: Seq<char>, v: DrainView, trace: Seq<Message>) -> DrainView
    decreases trace.len(),
{
    if trace.len() == 0 {
        v
    } else {
        drain_step(id, drain_run(id, v, trace.drop_last()), trace.last())
    }
}

/// Whatever arrives on iopub, every message that the drain of a request
/// keeps has that request's message id in its parent header.
pub proof fn lemma_drain_keeps_only_its_request(id: Seq<char>, trace: Seq<Message>)
    ensures
        forall|i: int| 0 <= i < drain_run(id, empty_drain(), trace).messages.len()
            ==> (#[trigger] drain_run(id, empty_drain(), trace).messages[i]).belongs_to(id),
    decreases trace.len(),
{
    if trace.len() > 0 {
        lemma_drain_keeps_only_its_request(id, trace.drop_last());
        let prev = drain_run(id, empty_drain(), trace.drop_last());
        let cur = drain_run(id, empty_drain(), trace);
        assert forall|i: int| 0 <= i < cur.messages.len() implies (#[trigger] cur.messages[i]).belongs_to(id) by {
            if i < prev.messages.len() {
                assert(cur.messages[i] == prev.messages[i]);
            }
        }
    }
}

/// When the iopub messages of a request are followed by its idle status,
/// and no earlier one of them is idle, the drain keeps exactly those
/// messages, in order, and is over.
pub proof fn lemma_idle_ends_drain(id: Seq<char>, trace: Seq<Message>)
    requires
        trace.len() > 0,
        forall|i: int| 0 <= i < trace.len() ==> (#[trigger] trace[i]).belongs_to(id),
        trace.last().is_idle(),
        forall|i: int| 0 <= i < trace.len() - 1 ==> !(#[trigger] trace[i]).is_idle(),
    ensures
        drain_run(id, empty_drain(), trace).messages == trace,
        drain_run(id, empty_drain(), trace).finished,
{
    lemma_drain_prefix(id, trace, trace.len() - 1);
    assert(trace.drop_last() =~= trace.subrange(0, trace.len() - 1));
    assert(trace.subrange(0, trace.len() - 1).push(trace.last()) =~= trace);
}

/// The first `k` messages of such a trace are kept as they came, and the
/// drain is not over yet.
proof fn lemma_drain_prefix(id: Seq<char>, trace: Seq<Message>, k: int)
    requires
        0 <= k < trace.len(),
        forall|i: int| 0 <= i < trace.len() ==> (#[trigger] trace[i]).belongs_to(id),
        forall|i: int| 0 <= i < trace.len() - 1 ==> !(#[trigger] trace[i]).is_idle(),
    ensures
        drain_run(id, empty_drain(), trace.subrange(0, k)).messages == trace.subrange(0, k),
        !drain_run(id, empty_drain(), trace.subrange(0, k)).finished,
        !drain_run(id, empty_drain(), trace.subrange(0, k)).saw_input_request,
    decreases k,
{
    if k == 0 {
        assert(trace.subrange(0, 0) =~= Seq::<Message>::empty());
    } else {
        lemma_drain_prefix(id, trace, k - 1);
        assert(trace.subrange(0, k).drop_last() =~= trace.subrange(0, k - 1));
        assert(trace.subrange(0, k - 1).push(trace[k - 1]) =~= trace.subrange(0, k));
    }
}

/// Once an `input_request` has been seen on stdin, the drain still records
/// it after any further iopub traffic.
pub proof fn lemma_input_request_remembered(id: Seq<char>, v: DrainView, trace: Seq<Message>)
    requires
        v.saw_input_request,
    ensures
        drain_run(id, v, trace).saw_input_request,
    decreases trace.len(),
{
    if trace.len() > 0 {
        lemma_input_request_remembered(id, v, trace.drop_last());
    }
}

/// An iopub message of another request leaves the drain as it was.
pub proof fn lemma_stray_message_dropped(id: Seq<char>, v: DrainView, trace: Seq<Message>, m: Message)
    requires
        !m.belongs_to(id),
    ensures
        drain_run(id, v, trace.push(m)) == drain_run(id, v, trace),
{
    assert(trace.push(m).drop_last() =~= trace);
}

/// Collects the iopub messages of one request until its idle status, under
/// a deadline, and answers `input_request`s that come on stdin meanwhile.
pub struct IopubDrain {
    request_id: String,
    kind: DrainKind,
    deadline_ms: u64,
    input_response: String,
    messages: Vec<Message>,
    finished: bool,
    saw_input_request: bool,
    /// Every iopub message handed to the drain, in order.
    trace: Ghost<Seq<Message>>,
}

impl View for IopubDrain {
    type V = DrainView;

    closed spec fn view(&self) -> DrainView {
        DrainView {
            messages: self.messages@,
            finished: self.finished,
            saw_input_request: self.saw_input_request,
        }
    }
}

impl IopubDrain {
    /// What the drain keeps is what `drain_run` keeps of its trace. `new`
    /// establishes it and every step preserves it.
    pub closed spec fn follows_trace(self) -> bool {
        &&& self.messages@ == drain_run(self.request_id@, empty_drain(), self.trace@).messages
        &&& self.finished == drain_run(self.request_id@, empty_drain(), self.trace@).finished
    }

    /// Every iopub message handed to the drain so far, in order.
    pub closed spec fn trace_spec(&self) -> Seq<Message> {
        self.trace@
    }

    pub closed spec fn request_id_spec(&self) -> Seq<char> {
        self.request_id@
    }

    pub closed spec fn kind_spec(&self) -> DrainKind {
        self.kind
    }

    pub closed spec fn deadline_spec(&self) -> u64 {
        self.deadline_ms
    }

    pub closed spec fn input_response_spec(&self) -> Seq<char> {
        self.input_response@
    }

    /// A drain for the request with message id `request_id`. `deadline_ms`
    /// bounds the whole drain, counted from the moment the request was
    /// sent; `input_response` answers `input_request`s on stdin.
    pub fn new(request_id: String, kind: DrainKind, deadline_ms: u64, input_response: String) -> (r: Self)
        ensures
            r@ == empty_drain(),
            r.request_id_spec() == request_id@,
            r.kind_spec() == kind,
            r.deadline_spec() == deadline_ms,
            r.input_response_spec() == input_response@,
            r.trace_spec() == Seq::<Message>::empty(),
            r.follows_trace(),
    {
        let r = IopubDrain {
            request_id,
            kind,
            deadline_ms,
            input_response,
            messages: Vec::new(),
            finished: false,
            saw_input_request: false,
            trace: Ghost(Seq::empty()),
        };
        assert(r@.messages =~= Seq::<Message>::empty());
        r
    }

    /// The drain is over: the idle status of the request was kept.
    pub fn finished(&self) -> (r: bool)
        ensures
            r == self@.finished,
            self.follows_trace() ==> r == drain_run(self.request_id_spec(), empty_drain(), self.trace_spec()).finished,
    {
        self.finished
    }

    /// Whether an `input_request` arrived on stdin.
    pub fn saw_input_request(&self) -> (r: bool)
        ensures
            r == self@.saw_input_request,
    {
        self.saw_input_request
    }

    /// What to wait for on shell once the drain is over.
    pub fn reply_wait(&self) -> (r: Wait)
        ensures
            r == self.kind_spec().reply_wait_spec(),
    {
        match self.kind {
            DrainKind::Execute => Wait::ExecuteReply,
            DrainKind::ExecuteWithStdin => Wait::StdinExecuteReply,
            DrainKind::ShellRequest => Wait::ShellReply,
        }
    }

    /// The timeout error once more than the deadline has elapsed since the
    /// request was sent; `None` while time is left.
    pub fn expired(&self, elapsed_ms: u64) -> (r: Option<HarnessError>)
        ensures
            r is Some <==> elapsed_ms > self.deadline_spec(),
            r matches Some(e) ==> (e matches HarnessError::Timeout(s) && s@ == self.kind_spec().idle_wait().context()),
    {
        if elapsed_ms > self.deadline_ms {
            let w = match self.kind {
                DrainKind::ExecuteWithStdin => Wait::StdinIopubIdle,
                _ => Wait::IopubIdle,
            };
            Some(w.timed_out())
        } else {
            None
        }
    }

    /// Takes one message read from iopub; returns whether the drain is over.
    pub fn on_iopub(&mut self, m: Message) -> (r: bool)
        ensures
            final(self)@ == drain_step(old(self).request_id_spec(), old(self)@, m),
            final(self).trace_spec() == old(self).trace_spec().push(m),
            old(self).follows_trace() ==> final(self).follows_trace(),
            final(self).request_id_spec() == old(self).request_id_spec(),
            final(self).kind_spec() == old(self).kind_spec(),
            final(self).deadline_spec() == old(self).deadline_spec(),
            final(self).input_response_spec() == old(self).input_response_spec(),
            r == final(self)@.finished,
    {
        let ghost id = self.request_id@;
        let ghost t = self.trace@;
        assert(t.push(m).drop_last() =~= t);
        self.trace = Ghost(t.push(m));
        if self.finished || !m.answers(&self.request_id) {
            return self.finished;
        }
        let idle = m.idle();
        self.messages.push(m);
        self.finished = idle;
        idle
    }

    /// Takes one message read from stdin. An `input_request` is recorded and
    /// answered with the drain's input response, which is returned as the
    /// value of the `input_reply` to send; anything else is left unanswered.
    pub fn on_stdin(&mut self, m: &Message) -> (r: Option<String>)
        ensures
            m.content is InputRequest ==> (r matches Some(v) && v@ == old(self).input_response_spec()),
            !(m.content is InputRequest) ==> r is None,
            final(self)@ == (DrainView {
                saw_input_request: old(self)@.saw_input_request || m.content is InputRequest,
                ..old(self)@
            }),
            final(self).request_id_spec() == old(self).request_id_spec(),
            final(self).kind_spec() == old(self).kind_spec(),
            final(self).deadline_spec() == old(self).deadline_spec(),
            final(self).input_response_spec() == old(self).input_response_spec(),
            final(self).trace_spec() == old(self).trace_spec(),
            old(self).follows_trace() ==> final(self).follows_trace(),
    {
        match &m.content {
            Content::InputRequest { .. } => {
                self.saw_input_request = true;
                Some(self.input_response.clone())
            },
            _ => None,
        }
    }

    /// Takes a failed read on stdin. The kernel may close stdin once it no
    /// longer needs it, so such a failure never ends the drain: the result
    /// is always `None`, and the caller only reports it.
    pub fn on_stdin_failure(&self, _error: &str) -> (r: Option<HarnessError>)
        ensures
            r is None,
    {
        None
    }

    /// The kept messages, in arrival order.
    pub fn into_messages(self) -> (r: Vec<Message>)
        ensures
            r@ == self@.messages,
            self.follows_trace() ==> r@ == drain_run(self.request_id_spec(), empty_drain(), self.trace_spec()).messages,
            self.follows_trace() ==> forall|i: int| 0 <= i < r@.len() ==> (#[trigger] r@[i]).belongs_to(self.request_id_spec()),
    {
        proof {
            lemma_drain_keeps_only_its_request(self.request_id@, self.trace@);
        }
        self.messages
    }
}

/// Watches iopub, for a short while after a `comm_open`, for the kernel's
/// `comm_close` of the same comm: the sign that it rejected the target.
pub struct CommWatch {
    comm_id: String,
}

/// How long a `comm_open` is watched for a rejection, in milliseconds.
pub const COMM_REJECT_WINDOW_MS: u64 = 500;

impl CommWatch {
    pub closed spec fn comm_id_spec(&self) -> Seq<char> {
        self.comm_id@
    }

    pub fn new(comm_id: String) -> (r: Self)
        ensures
            r.comm_id_spec() == comm_id@,
    {
        CommWatch { comm_id }
    }

    /// Whether to keep watching, `elapsed_ms` after the `comm_open` was sent.
    pub fn watching(&self, elapsed_ms: u64) -> (r: bool)
        ensures
            r == (elapsed_ms < COMM_REJECT_WINDOW_MS),
    {
        elapsed_ms < COMM_REJECT_WINDOW_MS
    }

    /// Whether `m` is the `comm_close` of the watched comm.
    pub fn rejects(&self, m: &Message) -> (r: bool)
        ensures
            r == (m.content matches Content::CommClose { comm_id } && comm_id@ == self.comm_id_spec()),
    {
        match &m.content {
            Content::CommClose { comm_id } => *comm_id == self.comm_id,
            _ => false,
        }
    }
}

} // verus!
