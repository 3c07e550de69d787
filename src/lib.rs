//! Coordination of approval requests raised by tool executions.
//!
//! A tool execution asks a human for a decision (a permission gate or a
//! question form) and resumes once, when a response arrives, when the request
//! times out, or when the tool execution cancels it. The registry here decides
//! which of these events resolves a request; the async plumbing that waits on
//! it lives with the caller.
pub mod approvals;
pub mod bridge;
pub mod cell;
pub mod outside;
pub mod registry;

pub use bridge::{ExecutorApprovalBridge, WaitEvent, WorkspaceInfo};
pub use cell::OutcomeCell;
pub use registry::{ApprovalContext, Approvals, PendingEntry};
pub use approvals::{
    ApprovalError, ApprovalKind, ApprovalOutcome, ApprovalRequest, ApprovalResponse,
    ApprovalStatus, CreateApprovalRequest, QuestionAnswer, QuestionStatus,
    APPROVAL_TIMEOUT_MILLIS, APPROVAL_TIMEOUT_SECONDS,
};

