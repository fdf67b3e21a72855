//! Types shared by issue-tracker providers.

use vstd::prelude::*;

verus! {

/// Why a tracker operation failed.
#[derive(Debug)]
pub enum TrackerError {
    /// The provider is not configured correctly.
    ConfigError(String),
    /// The API rejected or failed the request.
    ApiError(String),
    /// The credentials were refused.
    AuthenticationError(String),
    /// Too many requests.
    RateLimitError(String),
}

/// Workflow state of a tracker item.
#[derive(Clone, Copy, Debug, PartialEq, Eq, Structural)]
pub enum ItemStatus {
    Todo,
    InProgress,
    Done,
}

/// A request to create an item.
#[derive(Clone, Debug)]
pub struct CreateItemRequest {
    pub title: String,
    pub description: Option<String>,
    pub status: Option<ItemStatus>,
    pub labels: Vec<String>,
}

/// A request to change an item.
#[derive(Clone, Debug)]
pub struct UpdateItemRequest {
    pub title: Option<String>,
    pub description: Option<String>,
    pub status: Option<ItemStatus>,
    pub add_labels: Vec<String>,
    pub remove_labels: Vec<String>,
}

/// A request to open an item for a failed work item.
#[derive(Clone, Debug)]
pub struct FailureIssueRequest {
    pub story_id: String,
    pub story_title: String,
    pub error: String,
    pub context: Option<String>,
}

/// An item as the tracker reports it.
#[derive(Clone, Debug)]
pub struct ItemInfo {
    pub id: String,
    pub title: String,
    pub url: Option<String>,
}

/// The error for an operation the provider does not offer yet.
pub fn not_implemented(operation: &str) -> (r: TrackerError)
    ensures
        r matches TrackerError::ApiError(msg) && msg@ == operation@ + " not yet implemented"@,
{
    let mut msg = String::from_str(operation);
    msg.append(" not yet implemented");
    TrackerError::ApiError(msg)
}

} // verus!
