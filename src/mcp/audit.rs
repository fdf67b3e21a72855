//! Requests, responses and status reporting of the audit tools.

use vstd::prelude::*;
use crate::text::{decimal, decimal_string};

verus! {

/// Output formats for audit reports.
#[derive(Clone, Copy, Debug, PartialEq, Eq, Structural)]
pub enum AuditOutputFormat {
    /// Machine-readable structured output.
    Json,
    /// Human-readable report.
    Markdown,
    /// Output shaped for AI agents.
    AgentContext,
}

/// The name of an output format.
pub open spec fn format_name(f: AuditOutputFormat) -> Seq<char> {
    match f {
        AuditOutputFormat::Json => "json"@,
        AuditOutputFormat::Markdown => "markdown"@,
        AuditOutputFormat::AgentContext => "agent_context"@,
    }
}

impl Default for AuditOutputFormat {
    fn default() -> (r: Self)
        ensures
            r == AuditOutputFormat::Json,
    {
        AuditOutputFormat::Json
    }
}

impl AuditOutputFormat {
    /// The format's name.
    pub fn to_string(&self) -> (r: String)
        ensures
            r@ == format_name(*self),
    {
        match self {
            AuditOutputFormat::Json => String::from_str("json"),
            AuditOutputFormat::Markdown => String::from_str("markdown"),
            AuditOutputFormat::AgentContext => String::from_str("agent_context"),
        }
    }
}

/// Sections an audit can analyse.
#[derive(Clone, Copy, Debug, PartialEq, Eq, Structural)]
pub enum AuditSection {
    Inventory,
    Dependencies,
    Architecture,
    Testing,
    Documentation,
    Api,
    TechDebt,
    Opportunities,
}

/// The name of a section.
pub open spec fn section_name(s: AuditSection) -> Seq<char> {
    match s {
        AuditSection::Inventory => "inventory"@,
        AuditSection::Dependencies => "dependencies"@,
        AuditSection::Architecture => "architecture"@,
        AuditSection::Testing => "testing"@,
        AuditSection::Documentation => "documentation"@,
        AuditSection::Api => "api"@,
        AuditSection::TechDebt => "tech_debt"@,
        AuditSection::Opportunities => "opportunities"@,
    }
}

impl AuditSection {
    /// The section's name.
    pub fn to_string(&self) -> (r: String)
        ensures
            r@ == section_name(*self),
    {
        match self {
            AuditSection::Inventory => String::from_str("inventory"),
            AuditSection::Dependencies => String::from_str("dependencies"),
            AuditSection::Architecture => String::from_str("architecture"),
            AuditSection::Testing => String::from_str("testing"),
            AuditSection::Documentation => String::from_str("documentation"),
            AuditSection::Api => String::from_str("api"),
            AuditSection::TechDebt => String::from_str("tech_debt"),
            AuditSection::Opportunities => String::from_str("opportunities"),
        }
    }
}

/// Parameters of the start-audit tool.
#[derive(Debug)]
pub struct StartAuditRequest {
    /// Directory to audit; defaults to the requirements document's directory.
    pub path: Option<String>,
    /// Sections to analyse; all when absent.
    pub sections: Option<Vec<AuditSection>>,
    /// Report format; JSON when absent.
    pub format: Option<AuditOutputFormat>,
}

/// Response of the start-audit tool.
#[derive(Debug)]
pub struct StartAuditResponse {
    pub success: bool,
    /// Identifier for status checks.
    pub audit_id: Option<String>,
    pub path: Option<String>,
    pub sections: Option<Vec<String>>,
    pub format: Option<String>,
    pub message: String,
}

/// An audit in progress.
#[derive(Clone, Debug)]
pub struct AuditState {
    pub audit_id: String,
    pub path: String,
    pub sections: Vec<AuditSection>,
    pub format: AuditOutputFormat,
    /// Start time, in seconds since the Unix epoch.
    pub started_at: u64,
    pub completed: bool,
    pub error: Option<String>,
    /// Progress in percent (0-100).
    pub progress: u8,
}

/// Status of an audit.
#[derive(Clone, Copy, Debug, PartialEq, Eq, Structural)]
pub enum AuditStatus {
    Pending,
    Running,
    Completed,
    Failed,
}

/// The name of a status.
pub open spec fn status_name(s: AuditStatus) -> Seq<char> {
    match s {
        AuditStatus::Pending => "pending"@,
        AuditStatus::Running => "running"@,
        AuditStatus::Completed => "completed"@,
        AuditStatus::Failed => "failed"@,
    }
}

impl AuditStatus {
    /// The status's name.
    pub fn to_string(&self) -> (r: String)
        ensures
            r@ == status_name(*self),
    {
        match self {
            AuditStatus::Pending => String::from_str("pending"),
            AuditStatus::Running => String::from_str("running"),
            AuditStatus::Completed => String::from_str("completed"),
            AuditStatus::Failed => String::from_str("failed"),
        }
    }
}

/// Parameters of the audit-status tool.
#[derive(Debug)]
pub struct GetAuditStatusRequest {
    /// The identifier returned when the audit started.
    pub audit_id: String,
}

/// Response of the audit-status tool.
#[derive(Debug)]
pub struct GetAuditStatusResponse {
    pub success: bool,
    pub audit_id: Option<String>,
    /// pending, running, completed or failed.
    pub status: Option<String>,
    /// Progress in percent, only while running.
    pub progress: Option<u8>,
    pub error: Option<String>,
    pub message: String,
}

/// Errors of the audit-status tool.
#[derive(Debug)]
pub enum GetAuditStatusError {
    /// No audit has this identifier.
    AuditNotFound(String),
}

impl GetAuditStatusError {
    /// Human-readable text of the error.
    pub fn to_string(&self) -> (r: String)
        ensures
            match self {
                GetAuditStatusError::AuditNotFound(id) => r@ == "Audit not found: "@ + id@,
            },
    {
        match self {
            GetAuditStatusError::AuditNotFound(id) => {
                let mut s = String::from_str("Audit not found: ");
                s.append(id.as_str());
                s
            },
        }
    }
}

/// Errors of the start-audit tool.
#[derive(Debug)]
pub enum StartAuditError {
    PathNotFound(String),
    NotADirectory(String),
    InvalidSection(String),
    InitializationError(String),
}

/// Human-readable text of a start-audit error.
pub open spec fn start_error_text(e: StartAuditError) -> Seq<char> {
    match e {
        StartAuditError::PathNotFound(p) => "Path not found: "@ + p@,
        StartAuditError::NotADirectory(p) => "Path is not a directory: "@ + p@,
        StartAuditError::InvalidSection(s) => "Invalid audit section: "@ + s@,
        StartAuditError::InitializationError(m) => "Failed to initialize audit: "@ + m@,
    }
}

impl StartAuditError {
    /// Human-readable text of the error.
    pub fn to_string(&self) -> (r: String)
        ensures
            r@ == start_error_text(*self),
    {
        let (prefix, detail) = match self {
            StartAuditError::PathNotFound(p) => ("Path not found: ", p),
            StartAuditError::NotADirectory(p) => ("Path is not a directory: ", p),
            StartAuditError::InvalidSection(s) => ("Invalid audit section: ", s),
            StartAuditError::InitializationError(m) => ("Failed to initialize audit: ", m),
        };
        let mut s = String::from_str(prefix);
        s.append(detail.as_str());
        s
    }
}

/// The sequence from which audit identifiers are numbered.
pub struct AuditIdCounter {
    pub next: u64,
}

impl AuditIdCounter {
    /// A sequence starting at 1.
    pub fn new() -> (r: Self)
        ensures
            r.next == 1,
    {
        AuditIdCounter { next: 1 }
    }
}

/// The identifier of the audit numbered `n` started at `timestamp`.
pub open spec fn audit_id_text(timestamp: nat, n: nat) -> Seq<char> {
    "audit-"@ + decimal(timestamp) + "-"@ + decimal(n)
}

/// A fresh audit identifier, "audit-<timestamp>-<number>", taking the next
/// number of the sequence.
pub fn generate_audit_id(counter: &mut AuditIdCounter, timestamp: u64) -> (r: String)
    requires
        old(counter).next < u64::MAX,
    ensures
        r@ == audit_id_text(timestamp as nat, old(counter).next as nat),
        final(counter).next == old(counter).next + 1,
{
    let n = counter.next;
    counter.next = n + 1;
    let mut s = String::from_str("audit-");
    let t = decimal_string(timestamp);
    s.append(t.as_str());
    s.append("-");
    let c = decimal_string(n);
    s.append(c.as_str());
    s
}

/// Relies on std::time::SystemTime::now: the seconds since the Unix epoch,
/// or 0 when the clock reads earlier than the epoch.
#[verifier::external_body]
pub fn current_timestamp() -> u64 {
    std::time::SystemTime::now().duration_since(std::time::UNIX_EPOCH).map(|d| d.as_secs()).unwrap_or(0)
}

/// Every audit section, in report order.
pub fn all_sections() -> (r: Vec<AuditSection>)
    ensures
        r@ == seq![
            AuditSection::Inventory,
            AuditSection::Dependencies,
            AuditSection::Architecture,
            AuditSection::Testing,
            AuditSection::Documentation,
            AuditSection::Api,
            AuditSection::TechDebt,
            AuditSection::Opportunities,
        ],
{
    let mut r: Vec<AuditSection> = Vec::new();
    r.push(AuditSection::Inventory);
    r.push(AuditSection::Dependencies);
    r.push(AuditSection::Architecture);
    r.push(AuditSection::Testing);
    r.push(AuditSection::Documentation);
    r.push(AuditSection::Api);
    r.push(AuditSection::TechDebt);
    r.push(AuditSection::Opportunities);
    r
}

/// A copy of an optional string.
fn copy_opt(o: &Option<String>) -> (r: Option<String>)
    ensures
        r == *o,
{
    match o {
        Some(s) => Some(s.clone()),
        None => None,
    }
}

/// The response to a successfully started audit.
pub fn create_success_response(state: &AuditState) -> (r: StartAuditResponse)
    ensures
        r.success,
        r.audit_id matches Some(id) && id@ == state.audit_id@,
        r.path matches Some(p) && p@ == state.path@,
        r.sections matches Some(names) && names@.len() == state.sections@.len() && forall|j: int|
            0 <= j < names@.len() ==> (#[trigger] names@[j])@ == section_name(state.sections@[j]),
        r.format matches Some(f) && f@ == format_name(state.format),
        r.message@ == "Audit started successfully. Use audit_id '"@ + state.audit_id@
            + "' to check status."@,
{
    let mut names: Vec<String> = Vec::new();
    let mut k: usize = 0;
    while k < state.sections.len()
        invariant
            k <= state.sections@.len(),
            names@.len() == k,
            forall|j: int| 0 <= j < k ==> (#[trigger] names@[j])@ == section_name(state.sections@[j]),
        decreases state.sections.len() - k,
    {
        names.push(state.sections[k].to_string());
        k += 1;
    }
    let mut message = String::from_str("Audit started successfully. Use audit_id '");
    message.append(state.audit_id.as_str());
    message.append("' to check status.");
    StartAuditResponse {
        success: true,
        audit_id: Some(state.audit_id.clone()),
        path: Some(state.path.clone()),
        sections: Some(names),
        format: Some(state.format.to_string()),
        message,
    }
}

/// The response to an audit that could not start.
pub fn create_error_response(error: &StartAuditError) -> (r: StartAuditResponse)
    ensures
        !r.success,
        r.audit_id is None,
        r.path is None,
        r.sections is None,
        r.format is None,
        r.message@ == start_error_text(*error),
{
    StartAuditResponse {
        success: false,
        audit_id: None,
        path: None,
        sections: None,
        format: None,
        message: error.to_string(),
    }
}

/// The status of an audit: failed once an error is recorded, then completed,
/// then running once progress is above zero, else pending.
pub open spec fn status_of(state: AuditState) -> AuditStatus {
    if state.error is Some {
        AuditStatus::Failed
    } else if state.completed {
        AuditStatus::Completed
    } else if state.progress > 0 {
        AuditStatus::Running
    } else {
        AuditStatus::Pending
    }
}

/// The status of an audit.
pub fn get_audit_status_from_state(state: &AuditState) -> (r: AuditStatus)
    ensures
        r == status_of(*state),
{
    if state.error.is_some() {
        AuditStatus::Failed
    } else if state.completed {
        AuditStatus::Completed
    } else if state.progress > 0 {
        AuditStatus::Running
    } else {
        AuditStatus::Pending
    }
}

/// The message that reports an audit's status.
pub open spec fn status_message(state: AuditState) -> Seq<char> {
    match status_of(state) {
        AuditStatus::Pending => "Audit '"@ + state.audit_id@ + "' is pending."@,
        AuditStatus::Running => "Audit '"@ + state.audit_id@ + "' is running ("@ + decimal(
            state.progress as nat,
        ) + "% complete)."@,
        AuditStatus::Completed => "Audit '"@ + state.audit_id@ + "' completed successfully."@,
        AuditStatus::Failed => "Audit '"@ + state.audit_id@ + "' failed: "@ + match state.error {
            Some(e) => e@,
            None => "Unknown error"@,
        },
    }
}

/// The response to a status query for a known audit.
pub fn create_status_success_response(state: &AuditState) -> (r: GetAuditStatusResponse)
    ensures
        r.success,
        r.audit_id matches Some(id) && id@ == state.audit_id@,
        r.status matches Some(s) && s@ == status_name(status_of(*state)),
        r.progress == if status_of(*state) == AuditStatus::Running {
            Some(state.progress)
        } else {
            None
        },
        r.error == state.error,
        r.message@ == status_message(*state),
{
    let status = get_audit_status_from_state(state);
    let progress = if status == AuditStatus::Running {
        Some(state.progress)
    } else {
        None
    };
    let mut message = String::from_str("Audit '");
    message.append(state.audit_id.as_str());
    match status {
        AuditStatus::Pending => {
            message.append("' is pending.");
        },
        AuditStatus::Running => {
            message.append("' is running (");
            let p = decimal_string(state.progress as u64);
            message.append(p.as_str());
            message.append("% complete).");
        },
        AuditStatus::Completed => {
            message.append("' completed successfully.");
        },
        AuditStatus::Failed => {
            message.append("' failed: ");
            match &state.error {
                Some(e) => {
                    message.append(e.as_str());
                },
                None => {
                    message.append("Unknown error");
                },
            }
        },
    }
    GetAuditStatusResponse {
        success: true,
        audit_id: Some(state.audit_id.clone()),
        status: Some(status.to_string()),
        progress,
        error: copy_opt(&state.error),
        message,
    }
}

/// The response to a status query that failed.
pub fn create_status_error_response(error: &GetAuditStatusError) -> (r: GetAuditStatusResponse)
    ensures
        !r.success,
        r.audit_id is None,
        r.status is None,
        r.progress is None,
        r.error is None,
        match error {
            GetAuditStatusError::AuditNotFound(id) => r.message@ == "Audit not found: "@ + id@,
        },
{
    GetAuditStatusResponse {
        success: false,
        audit_id: None,
        status: None,
        progress: None,
        error: None,
        message: error.to_string(),
    }
}

} // verus!
