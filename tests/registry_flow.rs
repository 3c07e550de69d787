use approvals::{
    ApprovalError, ApprovalKind, ApprovalOutcome, ApprovalRequest, ApprovalResponse, Approvals,
    CreateApprovalRequest, ExecutorApprovalBridge, OutcomeCell, QuestionAnswer, QuestionStatus,
    ApprovalStatus, WaitEvent, WorkspaceInfo, APPROVAL_TIMEOUT_MILLIS,
};

fn draft(tool: &str) -> CreateApprovalRequest {
    CreateApprovalRequest {
        tool_name: tool.to_string(),
        tool_input: serde_json::Value::String("ls -la".to_string()),
        tool_call_id: "call-1".to_string(),
    }
}

fn request(id: u128, tool: &str, now: i64) -> ApprovalRequest {
    ApprovalRequest::from_parts(draft(tool), 77, id, now)
}

fn response(status: ApprovalOutcome) -> ApprovalResponse {
    ApprovalResponse { execution_process_id: 77, status }
}

fn qa(question: &str, answers: &[&str]) -> QuestionAnswer {
    QuestionAnswer {
        question: question.to_string(),
        answer: answers.iter().map(|a| a.to_string()).collect(),
    }
}

#[test]
fn from_parts_sets_deadline_ten_hours_later() {
    let r = request(9, "shell_exec", 1_000);
    assert_eq!(r.id, 9);
    assert_eq!(r.created_at, 1_000);
    assert_eq!(r.timeout_at, 36_001_000);
    assert_eq!(APPROVAL_TIMEOUT_MILLIS, 36_000_000);
    assert_eq!(r.tool_name, "shell_exec");
    assert_eq!(r.tool_call_id, "call-1");
    assert_eq!(r.execution_process_id, 77);
}

#[test]
fn from_create_uses_fresh_ids_and_the_clock() {
    let a = ApprovalRequest::from_create(draft("shell_exec"), 5);
    let b = ApprovalRequest::from_create(draft("shell_exec"), 5);
    assert_ne!(a.id, b.id);
    // after 2020-01-01 in milliseconds
    assert!(a.created_at > 1_577_836_800_000);
    assert_eq!(a.timeout_at, a.created_at + 36_000_000);
    assert_eq!(a.execution_process_id, 5);
}

#[test]
fn create_with_waiter_registers_the_request() {
    let mut reg = Approvals::new();
    let req = reg.create_with_waiter(draft("shell_exec"), 3, true).unwrap();
    assert!(reg.is_pending(req.id));
    assert_eq!(reg.len(), 1);
    let r = reg.respond(req.id, response(ApprovalOutcome::Approved));
    assert!(matches!(r, Err(ApprovalError::KindMismatch)));
}

#[test]
fn register_rejects_duplicate_id() {
    let mut reg = Approvals::new();
    assert!(reg.register(&request(1, "a", 0), ApprovalKind::Permission).is_ok());
    let r = reg.register(&request(1, "b", 0), ApprovalKind::Question);
    assert_eq!(r, Err(ApprovalError::DuplicateId));
    assert_eq!(reg.len(), 1);
}

#[test]
fn denied_permission_then_second_response_not_found() {
    let mut reg = Approvals::new();
    let req = request(42, "shell_exec", 0);
    reg.register(&req, ApprovalKind::Permission).unwrap();
    let r = reg.respond(
        42,
        response(ApprovalOutcome::Denied { reason: Some("unsafe".to_string()) }),
    );
    match r {
        Ok((ApprovalOutcome::Denied { reason }, ctx)) => {
            assert_eq!(reason.as_deref(), Some("unsafe"));
            assert_eq!(ctx.tool_name, "shell_exec");
            assert_eq!(ctx.execution_process_id, 77);
        }
        _ => panic!("expected a denial"),
    }
    let again = reg.respond(42, response(ApprovalOutcome::Approved));
    assert!(matches!(again, Err(ApprovalError::NotFound)));
}

#[test]
fn question_answered_keeps_pairs_in_order() {
    let mut reg = Approvals::new();
    reg.register(&request(7, "ask_user", 0), ApprovalKind::Question).unwrap();
    let answers = vec![qa("Continue?", &["yes"]), qa("Env", &["prod"])];
    let (outcome, _) = reg.respond(7, response(ApprovalOutcome::Answered { answers })).unwrap();
    let status = ExecutorApprovalBridge::question_answer_status(WaitEvent::Resolved(outcome));
    match status {
        Ok(QuestionStatus::Answered { answers }) => {
            assert_eq!(answers.len(), 2);
            assert_eq!(answers[0].question, "Continue?");
            assert_eq!(answers[0].answer, vec!["yes".to_string()]);
            assert_eq!(answers[1].question, "Env");
            assert_eq!(answers[1].answer, vec!["prod".to_string()]);
        }
        _ => panic!("expected answers"),
    }
}

#[test]
fn cancelled_permission_then_response_not_found() {
    let mut reg = Approvals::new();
    reg.register(&request(8, "shell_exec", 0), ApprovalKind::Permission).unwrap();
    let status = ExecutorApprovalBridge::tool_approval_status(WaitEvent::Cancelled);
    assert!(matches!(status, Err(ApprovalError::Cancelled)));
    assert!(reg.cancel(8));
    let r = reg.respond(8, response(ApprovalOutcome::Approved));
    assert!(matches!(r, Err(ApprovalError::NotFound)));
}

#[test]
fn kind_mismatch_leaves_request_pending() {
    let mut reg = Approvals::new();
    reg.register(&request(1, "shell_exec", 0), ApprovalKind::Permission).unwrap();
    reg.register(&request(2, "ask_user", 0), ApprovalKind::Question).unwrap();
    let a = reg.respond(1, response(ApprovalOutcome::Answered { answers: vec![] }));
    assert!(matches!(a, Err(ApprovalError::KindMismatch)));
    let b = reg.respond(2, response(ApprovalOutcome::Approved));
    assert!(matches!(b, Err(ApprovalError::KindMismatch)));
    let c = reg.respond(2, response(ApprovalOutcome::Denied { reason: None }));
    assert!(matches!(c, Err(ApprovalError::KindMismatch)));
    assert!(reg.is_pending(1));
    assert!(reg.is_pending(2));
    assert!(reg.respond(1, response(ApprovalOutcome::Approved)).is_ok());
    assert!(reg.respond(2, response(ApprovalOutcome::TimedOut)).is_ok());
    assert_eq!(reg.len(), 0);
}

#[test]
fn cancel_unknown_or_resolved_is_a_no_op() {
    let mut reg = Approvals::new();
    assert!(!reg.cancel(99));
    reg.register(&request(1, "shell_exec", 0), ApprovalKind::Permission).unwrap();
    reg.register(&request(2, "shell_exec", 0), ApprovalKind::Permission).unwrap();
    assert!(reg.respond(1, response(ApprovalOutcome::Approved)).is_ok());
    assert!(!reg.cancel(1));
    assert!(!reg.cancel(99));
    assert_eq!(reg.len(), 1);
    assert!(reg.is_pending(2));
}

#[test]
fn sweep_times_out_due_requests_only() {
    let mut reg = Approvals::new();
    reg.register(&request(1, "a", 0), ApprovalKind::Permission).unwrap();
    reg.register(&request(2, "b", 10), ApprovalKind::Question).unwrap();
    reg.register(&request(3, "c", 5), ApprovalKind::Permission).unwrap();
    assert!(reg.sweep(APPROVAL_TIMEOUT_MILLIS - 1).is_empty());
    let due = reg.sweep(APPROVAL_TIMEOUT_MILLIS + 5);
    let ids: Vec<u128> = due.iter().map(|e| e.id).collect();
    assert_eq!(ids, vec![1, 3]);
    assert_eq!(reg.len(), 1);
    assert!(reg.is_pending(2));
    let late = reg.respond(1, response(ApprovalOutcome::Approved));
    assert!(matches!(late, Err(ApprovalError::NotFound)));
    assert!(!reg.cancel(3));
    assert!(reg.sweep(APPROVAL_TIMEOUT_MILLIS + 5).is_empty());
}

#[test]
fn outcome_cell_first_write_wins() {
    let mut cell = OutcomeCell::new();
    assert!(!cell.is_resolved());
    assert!(cell.observe().is_none());
    assert!(cell.resolve(ApprovalOutcome::Approved).is_ok());
    let second = cell.resolve(ApprovalOutcome::TimedOut);
    assert_eq!(second.err(), Some(ApprovalError::AlreadyResolved));
    assert!(matches!(cell.observe(), Some(ApprovalOutcome::Approved)));
    assert!(matches!(cell.observe(), Some(ApprovalOutcome::Approved)));
}

#[test]
fn permission_status_mapping() {
    let ok = ExecutorApprovalBridge::tool_approval_status(WaitEvent::Resolved(ApprovalOutcome::Approved));
    assert!(matches!(ok, Ok(ApprovalStatus::Approved)));
    let timed = ExecutorApprovalBridge::tool_approval_status(WaitEvent::Resolved(ApprovalOutcome::TimedOut));
    assert!(matches!(timed, Ok(ApprovalStatus::TimedOut)));
    let denied = ExecutorApprovalBridge::tool_approval_status(WaitEvent::Resolved(
        ApprovalOutcome::Denied { reason: None },
    ));
    assert!(matches!(denied, Ok(ApprovalStatus::Denied { reason: None })));
    let wrong = ExecutorApprovalBridge::tool_approval_status(WaitEvent::Resolved(
        ApprovalOutcome::Answered { answers: vec![] },
    ));
    assert!(matches!(wrong, Err(ApprovalError::UnexpectedOutcome)));
}

#[test]
fn question_status_mapping() {
    let timed = ExecutorApprovalBridge::question_answer_status(WaitEvent::Resolved(ApprovalOutcome::TimedOut));
    assert!(matches!(timed, Ok(QuestionStatus::TimedOut)));
    let a = ExecutorApprovalBridge::question_answer_status(WaitEvent::Resolved(ApprovalOutcome::Approved));
    assert!(matches!(a, Err(ApprovalError::UnexpectedOutcome)));
    let d = ExecutorApprovalBridge::question_answer_status(WaitEvent::Resolved(
        ApprovalOutcome::Denied { reason: Some("no".to_string()) },
    ));
    assert!(matches!(d, Err(ApprovalError::UnexpectedOutcome)));
    let c = ExecutorApprovalBridge::question_answer_status(WaitEvent::Cancelled);
    assert!(matches!(c, Err(ApprovalError::Cancelled)));
}

#[test]
fn finish_wait_passes_outcome_or_cancels() {
    let o = ExecutorApprovalBridge::finish_wait(WaitEvent::Resolved(ApprovalOutcome::TimedOut));
    assert!(matches!(o, Ok(ApprovalOutcome::TimedOut)));
    let c = ExecutorApprovalBridge::finish_wait(WaitEvent::Cancelled);
    assert!(matches!(c, Err(ApprovalError::Cancelled)));
}

#[test]
fn bridge_draft_and_notification_text() {
    let bridge = ExecutorApprovalBridge::new(12);
    assert_eq!(bridge.execution_process_id, 12);
    let d = bridge.draft("shell_exec", serde_json::Value::Bool(true), "tc-9");
    assert_eq!(d.tool_name, "shell_exec");
    assert_eq!(d.tool_call_id, "tc-9");
    assert_eq!(d.tool_input, serde_json::Value::Bool(true));
    assert_eq!(ExecutorApprovalBridge::kind_of(true), ApprovalKind::Question);
    assert_eq!(ExecutorApprovalBridge::kind_of(false), ApprovalKind::Permission);
    assert_eq!(
        ExecutorApprovalBridge::notification_title("main"),
        "Approval Needed: main"
    );
    assert_eq!(
        ExecutorApprovalBridge::notification_body("shell_exec"),
        "Tool 'shell_exec' requires approval"
    );
}

#[test]
fn workspace_label_falls_back() {
    let named = WorkspaceInfo { name: Some("site".to_string()), branch: "feat".to_string() };
    assert_eq!(ExecutorApprovalBridge::workspace_label(Some(named)), "site");
    let unnamed = WorkspaceInfo { name: None, branch: "feat".to_string() };
    assert_eq!(ExecutorApprovalBridge::workspace_label(Some(unnamed)), "feat");
    assert_eq!(ExecutorApprovalBridge::workspace_label(None), "Unknown workspace");
}

#[test]
fn sweep_expires_exactly_at_deadline() {
    let mut reg = Approvals::new();
    reg.register(&request(5, "a", 0), ApprovalKind::Permission).unwrap();
    assert!(reg.sweep(APPROVAL_TIMEOUT_MILLIS - 1).is_empty());
    let due = reg.sweep(APPROVAL_TIMEOUT_MILLIS);
    assert_eq!(due.len(), 1);
    assert_eq!(due[0].id, 5);
    assert_eq!(due[0].kind, ApprovalKind::Permission);
    assert_eq!(due[0].tool_name, "a");
    assert!(!reg.is_pending(5));
}
