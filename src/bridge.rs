//! The decisions of a tool execution's approval bridge.
//!
//! The bridge builds a request from a tool call, waits for the request's
//! outcome or for the tool execution's cancellation signal, and turns what
//! came first into the status the tool expects. The waiting is the caller's;
//! what to make of each event is decided here.
use vstd::prelude::*;

use crate::approvals::{
    ApprovalError, ApprovalKind, ApprovalOutcome, ApprovalStatus, CreateApprovalRequest,
    QuestionStatus,
};

verus! {

/// What ended the wait for a request's outcome.
pub enum WaitEvent {
    /// The tool execution's cancellation signal fired first.
    Cancelled,
    /// The request was resolved first, with this outcome.
    Resolved(ApprovalOutcome),
}

/// What the store knows of the workspace an execution process belongs to.
pub struct WorkspaceInfo {
    pub name: Option<String>,
    pub branch: String,
}

/// The outcome a wait ends with: cancellation fails with `Cancelled`.
pub open spec fn wait_result(event: WaitEvent) -> Result<ApprovalOutcome, ApprovalError> {
    match event {
        WaitEvent::Cancelled => Err(ApprovalError::Cancelled),
        WaitEvent::Resolved(o) => Ok(o),
    }
}

/// The status of a permission request that ended with `event`.
pub open spec fn permission_status_of(event: WaitEvent) -> Result<ApprovalStatus, ApprovalError> {
    match event {
        WaitEvent::Cancelled => Err(ApprovalError::Cancelled),
        WaitEvent::Resolved(ApprovalOutcome::Approved) => Ok(ApprovalStatus::Approved),
        WaitEvent::Resolved(ApprovalOutcome::Denied { reason }) => Ok(
            ApprovalStatus::Denied { reason },
        ),
        WaitEvent::Resolved(ApprovalOutcome::TimedOut) => Ok(ApprovalStatus::TimedOut),
        WaitEvent::Resolved(ApprovalOutcome::Answered { .. }) => Err(
            ApprovalError::UnexpectedOutcome,
        ),
    }
}

/// The status of a question request that ended with `event`.
pub open spec fn question_status_of(event: WaitEvent) -> Result<QuestionStatus, ApprovalError> {
    match event {
        WaitEvent::Cancelled => Err(ApprovalError::Cancelled),
        WaitEvent::Resolved(ApprovalOutcome::Answered { answers }) => Ok(
            QuestionStatus::Answered { answers },
        ),
        WaitEvent::Resolved(ApprovalOutcome::TimedOut) => Ok(QuestionStatus::TimedOut),
        WaitEvent::Resolved(ApprovalOutcome::Approved) => Err(ApprovalError::UnexpectedOutcome),
        WaitEvent::Resolved(ApprovalOutcome::Denied { .. }) => Err(
            ApprovalError::UnexpectedOutcome,
        ),
    }
}

/// The bridge between one execution process's tools and the registry.
pub struct ExecutorApprovalBridge {
    pub execution_process_id: u128,
}

impl ExecutorApprovalBridge {
    /// The bridge for the execution process `execution_process_id`.
    pub fn new(execution_process_id: u128) -> (r: ExecutorApprovalBridge)
        ensures
            r.execution_process_id == execution_process_id,
    {
        ExecutorApprovalBridge { execution_process_id }
    }

    /// The request a tool call makes.
    pub fn draft(&self, tool_name: &str, tool_input: serde_json::Value, tool_call_id: &str) -> (r:
        CreateApprovalRequest)
        ensures
            r.tool_name@ == tool_name@,
            r.tool_input == tool_input,
            r.tool_call_id@ == tool_call_id@,
    {
        CreateApprovalRequest {
            tool_name: String::from_str(tool_name),
            tool_input,
            tool_call_id: String::from_str(tool_call_id),
        }
    }

    /// The kind of request each of the bridge's two entry points raises.
    pub fn kind_of(is_question: bool) -> (r: ApprovalKind)
        ensures
            r == (if is_question { ApprovalKind::Question } else { ApprovalKind::Permission }),
    {
        ApprovalKind::from_is_question(is_question)
    }

    /// The outcome a wait ends with; a cancellation fails with `Cancelled`,
    /// whatever the request's own outcome would have been.
    pub fn finish_wait(event: WaitEvent) -> (r: Result<ApprovalOutcome, ApprovalError>)
        ensures
            r == wait_result(event),
    {
        match event {
            WaitEvent::Cancelled => Err(ApprovalError::Cancelled),
            WaitEvent::Resolved(o) => Ok(o),
        }
    }

    /// The status a permission request reports once its wait ended with
    /// `event`. An answer to questions cannot end a permission request:
    /// it fails with `UnexpectedOutcome`.
    pub fn tool_approval_status(event: WaitEvent) -> (r: Result<ApprovalStatus, ApprovalError>)
        ensures
            r == permission_status_of(event),
    {
        match event {
            WaitEvent::Cancelled => Err(ApprovalError::Cancelled),
            WaitEvent::Resolved(o) => match o {
                ApprovalOutcome::Approved => Ok(ApprovalStatus::Approved),
                ApprovalOutcome::Denied { reason } => Ok(ApprovalStatus::Denied { reason }),
                ApprovalOutcome::TimedOut => Ok(ApprovalStatus::TimedOut),
                ApprovalOutcome::Answered { .. } => Err(ApprovalError::UnexpectedOutcome),
            },
        }
    }

    /// The status a question request reports once its wait ended with
    /// `event`. An approval or a denial cannot end a question request: it
    /// fails with `UnexpectedOutcome`.
    pub fn question_answer_status(event: WaitEvent) -> (r: Result<QuestionStatus, ApprovalError>)
        ensures
            r == question_status_of(event),
    {
        match event {
            WaitEvent::Cancelled => Err(ApprovalError::Cancelled),
            WaitEvent::Resolved(o) => match o {
                ApprovalOutcome::Answered { answers } => Ok(QuestionStatus::Answered { answers }),
                ApprovalOutcome::TimedOut => Ok(QuestionStatus::TimedOut),
                ApprovalOutcome::Approved => Err(ApprovalError::UnexpectedOutcome),
                ApprovalOutcome::Denied { .. } => Err(ApprovalError::UnexpectedOutcome),
            },
        }
    }

    /// The workspace label a notification shows: the workspace's name, else
    /// its branch, else, when the lookup failed, "Unknown workspace".
    pub fn workspace_label(info: Option<WorkspaceInfo>) -> (r: String)
        ensures
            info matches Some(w) ==> (w.name matches Some(n) ==> r@ == n@),
            info matches Some(w) ==> (w.name is None ==> r@ == w.branch@),
            info is None ==> r@ == "Unknown workspace"@,
    {
        match info {
            Some(w) => match w.name {
                Some(n) => n,
                None => w.branch,
            },
            None => String::from_str("Unknown workspace"),
        }
    }

    /// The title of the notification that a decision is needed.
    pub fn notification_title(workspace: &str) -> (r: String)
        ensures
            r@ == "Approval Needed: "@ + workspace@,
    {
        String::from_str("Approval Needed: ").concat(workspace)
    }

    /// The body of the notification that a decision is needed.
    pub fn notification_body(tool_name: &str) -> (r: String)
        ensures
            r@ == "Tool '"@ + tool_name@ + "' requires approval"@,
    {
        String::from_str("Tool '").concat(tool_name).concat("' requires approval")
    }
}

} // verus!
