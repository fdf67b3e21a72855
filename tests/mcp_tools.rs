use ralph::mcp::audit::{
    all_sections, create_error_response, create_status_error_response, create_status_success_response,
    create_success_response, current_timestamp, generate_audit_id, get_audit_status_from_state,
    AuditIdCounter, AuditOutputFormat, AuditSection, AuditState, AuditStatus, GetAuditStatusError,
    StartAuditError,
};
use ralph::mcp::run_all::{create_result, create_started_response};
use ralph::mcp::server::RalphMcpServer;

fn state(progress: u8, completed: bool, error: Option<&str>) -> AuditState {
    AuditState {
        audit_id: "audit-123".to_string(),
        path: "/test".to_string(),
        sections: vec![AuditSection::Inventory],
        format: AuditOutputFormat::Json,
        started_at: 1234567890,
        completed,
        error: error.map(|e| e.to_string()),
        progress,
    }
}

#[test]
fn test_generate_audit_id() {
    let mut counter = AuditIdCounter::new();
    let id1 = generate_audit_id(&mut counter, current_timestamp());
    let id2 = generate_audit_id(&mut counter, current_timestamp());

    assert!(id1.starts_with("audit-"));
    assert!(id2.starts_with("audit-"));
    assert_ne!(id1, id2);
}

#[test]
fn audit_id_has_timestamp_and_number() {
    let mut counter = AuditIdCounter::new();
    assert_eq!(generate_audit_id(&mut counter, 1700000000), "audit-1700000000-1");
    assert_eq!(generate_audit_id(&mut counter, 0), "audit-0-2");
    assert_eq!(counter.next, 3);
}

#[test]
fn test_current_timestamp() {
    let ts = current_timestamp();
    assert!(ts > 1704067200);
}

#[test]
fn test_all_sections() {
    let sections = all_sections();
    assert_eq!(sections.len(), 8);
    assert!(sections.contains(&AuditSection::Inventory));
    assert!(sections.contains(&AuditSection::Dependencies));
    assert!(sections.contains(&AuditSection::Architecture));
    assert!(sections.contains(&AuditSection::Testing));
    assert!(sections.contains(&AuditSection::Documentation));
    assert!(sections.contains(&AuditSection::Api));
    assert!(sections.contains(&AuditSection::TechDebt));
    assert!(sections.contains(&AuditSection::Opportunities));
}

#[test]
fn test_audit_output_format_default() {
    let format: AuditOutputFormat = Default::default();
    assert_eq!(format, AuditOutputFormat::Json);
}

#[test]
fn test_audit_output_format_display() {
    assert_eq!(AuditOutputFormat::Json.to_string(), "json");
    assert_eq!(AuditOutputFormat::Markdown.to_string(), "markdown");
    assert_eq!(AuditOutputFormat::AgentContext.to_string(), "agent_context");
}

#[test]
fn test_audit_section_display() {
    assert_eq!(AuditSection::Inventory.to_string(), "inventory");
    assert_eq!(AuditSection::Dependencies.to_string(), "dependencies");
    assert_eq!(AuditSection::Architecture.to_string(), "architecture");
    assert_eq!(AuditSection::Testing.to_string(), "testing");
    assert_eq!(AuditSection::Documentation.to_string(), "documentation");
    assert_eq!(AuditSection::Api.to_string(), "api");
    assert_eq!(AuditSection::TechDebt.to_string(), "tech_debt");
    assert_eq!(AuditSection::Opportunities.to_string(), "opportunities");
}

#[test]
fn test_create_success_response() {
    let state = AuditState {
        audit_id: "audit-123-1".to_string(),
        path: "/test/project".to_string(),
        sections: vec![AuditSection::Inventory, AuditSection::Dependencies],
        format: AuditOutputFormat::Json,
        started_at: 1234567890,
        completed: false,
        error: None,
        progress: 0,
    };

    let response = create_success_response(&state);

    assert!(response.success);
    assert_eq!(response.audit_id, Some("audit-123-1".to_string()));
    assert_eq!(response.path, Some("/test/project".to_string()));
    assert_eq!(response.sections, Some(vec!["inventory".to_string(), "dependencies".to_string()]));
    assert_eq!(response.format, Some("json".to_string()));
    assert!(response.message.contains("audit-123-1"));
}

#[test]
fn test_create_error_response() {
    let error = StartAuditError::PathNotFound("/bad/path".to_string());
    let response = create_error_response(&error);

    assert!(!response.success);
    assert!(response.audit_id.is_none());
    assert!(response.path.is_none());
    assert!(response.sections.is_none());
    assert!(response.format.is_none());
    assert!(response.message.contains("/bad/path"));
}

#[test]
fn test_start_audit_error_display() {
    assert!(StartAuditError::PathNotFound("/test".to_string()).to_string().contains("Path not found"));
    assert!(StartAuditError::NotADirectory("/test".to_string()).to_string().contains("not a directory"));
    assert!(StartAuditError::InvalidSection("bad".to_string())
        .to_string()
        .contains("Invalid audit section"));
    assert!(StartAuditError::InitializationError("failed".to_string())
        .to_string()
        .contains("Failed to initialize"));
}

#[test]
fn test_audit_state_clone() {
    let state = state(50, false, None);
    let cloned = state.clone();
    assert_eq!(cloned.audit_id, state.audit_id);
    assert_eq!(cloned.path, state.path);
    assert_eq!(cloned.sections, state.sections);
}

#[test]
fn test_audit_status_display() {
    assert_eq!(AuditStatus::Pending.to_string(), "pending");
    assert_eq!(AuditStatus::Running.to_string(), "running");
    assert_eq!(AuditStatus::Completed.to_string(), "completed");
    assert_eq!(AuditStatus::Failed.to_string(), "failed");
}

#[test]
fn test_get_audit_status_from_state_pending() {
    assert_eq!(get_audit_status_from_state(&state(0, false, None)), AuditStatus::Pending);
}

#[test]
fn test_get_audit_status_from_state_running() {
    assert_eq!(get_audit_status_from_state(&state(50, false, None)), AuditStatus::Running);
}

#[test]
fn test_get_audit_status_from_state_completed() {
    assert_eq!(get_audit_status_from_state(&state(100, true, None)), AuditStatus::Completed);
}

#[test]
fn test_get_audit_status_from_state_failed() {
    assert_eq!(get_audit_status_from_state(&state(25, false, Some("Test error"))), AuditStatus::Failed);
}

#[test]
fn test_create_status_success_response_running() {
    let response = create_status_success_response(&state(50, false, None));

    assert!(response.success);
    assert_eq!(response.audit_id, Some("audit-123".to_string()));
    assert_eq!(response.status, Some("running".to_string()));
    assert_eq!(response.progress, Some(50));
    assert!(response.error.is_none());
    assert!(response.message.contains("running"));
    assert!(response.message.contains("50%"));
}

#[test]
fn test_create_status_success_response_completed() {
    let response = create_status_success_response(&state(100, true, None));

    assert!(response.success);
    assert_eq!(response.status, Some("completed".to_string()));
    assert!(response.progress.is_none());
    assert!(response.message.contains("completed"));
}

#[test]
fn test_create_status_success_response_failed() {
    let response = create_status_success_response(&state(25, false, Some("Something went wrong")));

    assert!(response.success);
    assert_eq!(response.status, Some("failed".to_string()));
    assert_eq!(response.error, Some("Something went wrong".to_string()));
    assert!(response.message.contains("failed"));
    assert!(response.message.contains("Something went wrong"));
}

#[test]
fn status_messages_are_exact() {
    assert_eq!(create_status_success_response(&state(0, false, None)).message, "Audit 'audit-123' is pending.");
    assert_eq!(
        create_status_success_response(&state(50, false, None)).message,
        "Audit 'audit-123' is running (50% complete)."
    );
    assert_eq!(
        create_status_success_response(&state(100, true, None)).message,
        "Audit 'audit-123' completed successfully."
    );
    assert_eq!(
        create_status_success_response(&state(100, true, Some("x"))).message,
        "Audit 'audit-123' failed: x"
    );
}

#[test]
fn test_create_status_error_response() {
    let error = GetAuditStatusError::AuditNotFound("audit-999".to_string());
    let response = create_status_error_response(&error);

    assert!(!response.success);
    assert!(response.audit_id.is_none());
    assert!(response.status.is_none());
    assert!(response.progress.is_none());
    assert!(response.message.contains("not found"));
    assert!(response.message.contains("audit-999"));
}

#[test]
fn test_get_audit_status_error_display() {
    let error = GetAuditStatusError::AuditNotFound("audit-123".to_string());
    assert!(error.to_string().contains("Audit not found"));
    assert!(error.to_string().contains("audit-123"));
}

#[test]
fn run_all_responses() {
    let started = create_started_response(3, 5);
    assert!(started.success);
    assert_eq!(
        started.message,
        "Started execution of 3 failing stories out of 5 total. Use get_status to monitor progress."
    );
    let err = ralph::mcp::run_all::create_error_response("no PRD loaded");
    assert!(!err.success);
    assert_eq!(err.message, "no PRD loaded");
    assert_eq!(err.total_stories, 0);
}

#[test]
fn run_all_result_messages() {
    let done = create_result(true, 4, 4, 9, None);
    assert_eq!(done.message, "All 4 stories passed!\n<promise>COMPLETE</promise>");
    assert_eq!(done.total_iterations, 9);
    let stopped = create_result(false, 1, 4, 3, Some("Max total iterations (3) reached".to_string()));
    assert_eq!(stopped.message, "Execution stopped: Max total iterations (3) reached. 1/4 stories passed.");
    let incomplete = create_result(false, 2, 4, 3, None);
    assert_eq!(incomplete.message, "Execution incomplete: 2/4 stories passed.");
}

#[test]
fn server_can_be_built() {
    let _a = RalphMcpServer::new();
    let _b = RalphMcpServer::default();
}
