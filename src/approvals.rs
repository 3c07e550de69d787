//! The data that flows through an approval: requests, outcomes, statuses.
use vstd::prelude::*;

use crate::outside::{new_request_id, now_millis, MAX_TIMESTAMP_MILLIS};

verus! {

/// How long a request waits for a decision: ten hours.
pub const APPROVAL_TIMEOUT_SECONDS: i64 = 36000;

/// The same timeout in milliseconds, the unit of the request's timestamps.
pub const APPROVAL_TIMEOUT_MILLIS: i64 = 36000000;

/// What can go wrong while coordinating an approval.
#[derive(Clone, Copy, Debug, PartialEq, Eq, Structural)]
pub enum ApprovalError {
    /// A request with this identifier is already pending.
    DuplicateId,
    /// No pending request has this identifier (unknown, or already resolved).
    NotFound,
    /// The response's shape does not fit the kind of the request.
    KindMismatch,
    /// The request was resolved by someone else first.
    AlreadyResolved,
    /// The store could not record the request.
    PersistenceError,
    /// The tool execution cancelled the request before a decision came.
    Cancelled,
    /// The decision that came does not fit the kind of the request.
    UnexpectedOutcome,
    /// The request could not be created.
    RequestFailed,
}

/// Which decision a request asks for.
#[derive(Clone, Copy, Debug, PartialEq, Eq, Structural)]
pub enum ApprovalKind {
    /// Approve or deny a tool call.
    Permission,
    /// Answer one or more questions.
    Question,
}

/// A question and the labels or values selected for it.
#[derive(Clone, Debug)]
pub struct QuestionAnswer {
    pub question: String,
    pub answer: Vec<String>,
}

/// Status of a tool permission request.
#[derive(Clone, Debug)]
pub enum ApprovalStatus {
    Pending,
    Approved,
    Denied { reason: Option<String> },
    TimedOut,
}

/// Status of a question request.
#[derive(Clone, Debug)]
pub enum QuestionStatus {
    Answered { answers: Vec<QuestionAnswer> },
    TimedOut,
}

/// The terminal value of a request, of either kind.
#[derive(Clone, Debug)]
pub enum ApprovalOutcome {
    Approved,
    Denied { reason: Option<String> },
    Answered { answers: Vec<QuestionAnswer> },
    TimedOut,
}

/// Whether `o` is a valid terminal value for a request of kind `kind`:
/// `Approved` and `Denied` for a permission, `Answered` for a question, and
/// `TimedOut` for both.
pub open spec fn outcome_fits(kind: ApprovalKind, o: ApprovalOutcome) -> bool {
    match o {
        ApprovalOutcome::Approved => kind == ApprovalKind::Permission,
        ApprovalOutcome::Denied { .. } => kind == ApprovalKind::Permission,
        ApprovalOutcome::Answered { .. } => kind == ApprovalKind::Question,
        ApprovalOutcome::TimedOut => true,
    }
}

impl ApprovalKind {
    /// The kind of a request, from the flag the tool bridge passes.
    pub fn from_is_question(is_question: bool) -> (r: ApprovalKind)
        ensures
            r == (if is_question { ApprovalKind::Question } else { ApprovalKind::Permission }),
    {
        if is_question {
            ApprovalKind::Question
        } else {
            ApprovalKind::Permission
        }
    }

    /// Whether `o` may resolve a request of this kind.
    pub fn accepts(&self, o: &ApprovalOutcome) -> (r: bool)
        ensures
            r == outcome_fits(*self, *o),
    {
        match o {
            ApprovalOutcome::Approved => *self == ApprovalKind::Permission,
            ApprovalOutcome::Denied { .. } => *self == ApprovalKind::Permission,
            ApprovalOutcome::Answered { .. } => *self == ApprovalKind::Question,
            ApprovalOutcome::TimedOut => true,
        }
    }
}

/// What a tool hands in to ask for a decision.
pub struct CreateApprovalRequest {
    pub tool_name: String,
    pub tool_input: serde_json::Value,
    pub tool_call_id: String,
}

/// A request waiting for a decision. Identifiers are the 128-bit values of
/// v4 UUIDs; timestamps are milliseconds since the Unix epoch.
pub struct ApprovalRequest {
    pub id: u128,
    pub tool_name: String,
    pub tool_input: serde_json::Value,
    pub tool_call_id: String,
    pub execution_process_id: u128,
    pub created_at: i64,
    pub timeout_at: i64,
}

/// A decision submitted for a request.
pub struct ApprovalResponse {
    pub execution_process_id: u128,
    pub status: ApprovalOutcome,
}

impl ApprovalRequest {
    /// The request made of `request` for the given execution process, with
    /// the given identifier, created at `now` and due one timeout later.
    pub fn from_parts(
        request: CreateApprovalRequest,
        execution_process_id: u128,
        id: u128,
        now: i64,
    ) -> (r: ApprovalRequest)
        requires
            now <= i64::MAX - APPROVAL_TIMEOUT_MILLIS,
        ensures
            r.id == id,
            r.tool_name == request.tool_name,
            r.tool_input == request.tool_input,
            r.tool_call_id == request.tool_call_id,
            r.execution_process_id == execution_process_id,
            r.created_at == now,
            r.timeout_at == now + APPROVAL_TIMEOUT_MILLIS,
    {
        ApprovalRequest {
            id,
            tool_name: request.tool_name,
            tool_input: request.tool_input,
            tool_call_id: request.tool_call_id,
            execution_process_id,
            created_at: now,
            timeout_at: now + APPROVAL_TIMEOUT_MILLIS,
        }
    }

    /// A new request made of `request`, with a fresh random identifier,
    /// created now and due one timeout later.
    pub fn from_create(request: CreateApprovalRequest, execution_process_id: u128) -> (r:
        ApprovalRequest)
        ensures
            r.tool_name == request.tool_name,
            r.tool_input == request.tool_input,
            r.tool_call_id == request.tool_call_id,
            r.execution_process_id == execution_process_id,
            0 <= r.created_at <= MAX_TIMESTAMP_MILLIS,
            r.timeout_at == r.created_at + APPROVAL_TIMEOUT_MILLIS,
    {
        let now = now_millis();
        let id = new_request_id();
        ApprovalRequest::from_parts(request, execution_process_id, id, now)
    }
}

} // verus!
