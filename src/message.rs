//! What the harness reads of a protocol message.
//!
//! A message as the messaging library decodes it carries much more; the
//! driver and the checks only ever look at its type, the message id of its
//! parent header, and the parts of its content listed here.

use vstd::prelude::*;

verus! {

/// `execution_state` of a `status` broadcast.
#[derive(Debug, Clone, Copy, PartialEq, Eq, Structural)]
pub enum ExecutionState {
    Busy,
    Idle,
    /// Any other state (starting, restarting, dead, ...).
    Other,
}

/// `status` of a reply.
#[derive(Debug, Clone, Copy, PartialEq, Eq, Structural)]
pub enum ReplyStatus {
    /// The protocol's `ok`.
    Success,
    Error,
    Aborted,
}

/// Name of an output stream.
#[derive(Debug, Clone, Copy, PartialEq, Eq, Structural)]
pub enum StreamName {
    Stdout,
    Stderr,
}

/// `status` of an `is_complete_reply`.
#[derive(Debug, Clone, Copy, PartialEq, Eq, Structural)]
pub enum IsCompleteStatus {
    Complete,
    Incomplete,
    Invalid,
    Unknown,
}

/// How Rust's `Debug` prints the messaging library's reply status.
pub open spec fn reply_status_name(s: ReplyStatus) -> Seq<char> {
    match s {
        ReplyStatus::Success => "Ok"@,
        ReplyStatus::Error => "Error"@,
        ReplyStatus::Aborted => "Aborted"@,
    }
}

pub fn reply_status_str(s: ReplyStatus) -> (r: &'static str)
    ensures
        r@ == reply_status_name(s),
{
    proof {
        reveal_strlit("Ok");
        reveal_strlit("Error");
        reveal_strlit("Aborted");
    }
    match s {
        ReplyStatus::Success => "Ok",
        ReplyStatus::Error => "Error",
        ReplyStatus::Aborted => "Aborted",
    }
}

/// How Rust's `Debug` prints an `is_complete` status.
pub open spec fn is_complete_name(s: IsCompleteStatus) -> Seq<char> {
    match s {
        IsCompleteStatus::Complete => "Complete"@,
        IsCompleteStatus::Incomplete => "Incomplete"@,
        IsCompleteStatus::Invalid => "Invalid"@,
        IsCompleteStatus::Unknown => "Unknown"@,
    }
}

pub fn is_complete_str(s: IsCompleteStatus) -> (r: &'static str)
    ensures
        r@ == is_complete_name(s),
{
    proof {
        reveal_strlit("Complete");
        reveal_strlit("Incomplete");
        reveal_strlit("Invalid");
        reveal_strlit("Unknown");
    }
    match s {
        IsCompleteStatus::Complete => "Complete",
        IsCompleteStatus::Incomplete => "Incomplete",
        IsCompleteStatus::Invalid => "Invalid",
        IsCompleteStatus::Unknown => "Unknown",
    }
}

/// The parts of a `kernel_info_reply` that a run uses.
#[derive(Debug, Clone)]
pub struct KernelInfo {
    pub status: ReplyStatus,
    /// `language_info.name`.
    pub language: String,
    pub implementation: String,
    pub protocol_version: String,
}

/// Content of a message, by message type.
#[allow(inconsistent_fields)]
#[derive(Debug, Clone)]
pub enum Content {
    Status { state: ExecutionState },
    Stream { name: StreamName, text: String },
    ExecuteInput,
    ExecuteResult,
    DisplayData,
    UpdateDisplayData,
    ErrorOutput,
    InputRequest { prompt: String },
    CommClose { comm_id: String },
    ExecuteReply { status: ReplyStatus, execution_count: u64 },
    KernelInfoReply { info: KernelInfo },
    /// `error` holds the reply's error field as Rust's `Debug` prints it.
    CompleteReply { status: ReplyStatus, error: String },
    InspectReply { status: ReplyStatus },
    IsCompleteReply { status: IsCompleteStatus },
    HistoryReply { status: ReplyStatus },
    CommInfoReply { status: ReplyStatus },
    ShutdownReply { status: ReplyStatus },
    InterruptReply { status: ReplyStatus },
    /// Any other message type.
    Other,
}

/// One protocol message, as far as the harness reads it.
#[derive(Debug, Clone)]
pub struct Message {
    /// The protocol's name of the message type (`status`, `execute_reply`, ...).
    pub msg_type: String,
    /// Message id of the parent header, if the message has one.
    pub parent_id: Option<String>,
    pub content: Content,
}

impl Message {
    /// The message answers or reports on the request with message id `id`.
    pub open spec fn belongs_to(self, id: Seq<char>) -> bool {
        self.parent_id matches Some(p) && p@ == id
    }

    pub open spec fn is_idle(self) -> bool {
        self.content matches Content::Status { state: ExecutionState::Idle }
    }

    pub open spec fn is_busy(self) -> bool {
        self.content matches Content::Status { state: ExecutionState::Busy }
    }

    pub fn idle(&self) -> (r: bool)
        ensures
            r == self.is_idle(),
    {
        match &self.content {
            Content::Status { state } => *state == ExecutionState::Idle,
            _ => false,
        }
    }

    pub fn busy(&self) -> (r: bool)
        ensures
            r == self.is_busy(),
    {
        match &self.content {
            Content::Status { state } => *state == ExecutionState::Busy,
            _ => false,
        }
    }

    /// Whether the parent header's message id is `id`.
    pub fn answers(&self, id: &String) -> (r: bool)
        ensures
            r == self.belongs_to(id@),
    {
        match &self.parent_id {
            Some(p) => *p == *id,
            None => false,
        }
    }
}

} // verus!
