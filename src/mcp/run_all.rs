//! Requests, responses and results of the run-all tool.

use vstd::prelude::*;
use crate::text::{decimal, decimal_string};

verus! {

/// Parameters of the run-all tool.
#[derive(Clone, Debug)]
pub struct RunAllRequest {
    /// Iteration cap for the whole run (0 = unlimited).
    pub max_iterations: Option<u32>,
    /// Iteration cap for each item.
    pub max_iterations_per_story: Option<u32>,
}

/// Response of the run-all tool.
#[derive(Clone, Debug)]
pub struct RunAllResponse {
    /// Whether execution started.
    pub success: bool,
    /// Items that still need to run.
    pub stories_to_execute: usize,
    pub total_stories: usize,
    pub message: String,
}

/// Progress of a run-all execution.
#[derive(Clone, Debug)]
pub struct RunAllProgress {
    pub current_story_id: String,
    pub current_story_title: String,
    pub stories_completed: usize,
    pub total_stories: usize,
    pub current_iteration: u32,
    pub max_iterations: u32,
}

/// Final result of a run-all execution.
#[derive(Clone, Debug)]
pub struct RunAllResult {
    pub all_passed: bool,
    pub stories_passed: usize,
    pub total_stories: usize,
    pub total_iterations: u32,
    pub error: Option<String>,
    /// Completion message; carries the completion marker when all passed.
    pub message: String,
}

/// The response to a started run.
pub fn create_started_response(stories_to_execute: usize, total_stories: usize) -> (r: RunAllResponse)
    ensures
        r.success,
        r.stories_to_execute == stories_to_execute,
        r.total_stories == total_stories,
        r.message@ == "Started execution of "@ + decimal(stories_to_execute as nat)
            + " failing stories out of "@ + decimal(total_stories as nat)
            + " total. Use get_status to monitor progress."@,
{
    let mut message = String::from_str("Started execution of ");
    let a = decimal_string(stories_to_execute as u64);
    message.append(a.as_str());
    message.append(" failing stories out of ");
    let b = decimal_string(total_stories as u64);
    message.append(b.as_str());
    message.append(" total. Use get_status to monitor progress.");
    RunAllResponse { success: true, stories_to_execute, total_stories, message }
}

/// The response to a run that could not start.
pub fn create_error_response(error: &str) -> (r: RunAllResponse)
    ensures
        !r.success,
        r.stories_to_execute == 0,
        r.total_stories == 0,
        r.message@ == error@,
{
    RunAllResponse {
        success: false,
        stories_to_execute: 0,
        total_stories: 0,
        message: String::from_str(error),
    }
}

/// The message of a final result.
pub open spec fn result_message(
    all_passed: bool,
    stories_passed: nat,
    total_stories: nat,
    error: Option<String>,
) -> Seq<char> {
    if all_passed {
        "All "@ + decimal(total_stories) + " stories passed!\n<promise>COMPLETE</promise>"@
    } else if error is Some {
        "Execution stopped: "@ + error->0@ + ". "@ + decimal(stories_passed) + "/"@ + decimal(
            total_stories,
        ) + " stories passed."@
    } else {
        "Execution incomplete: "@ + decimal(stories_passed) + "/"@ + decimal(total_stories)
            + " stories passed."@
    }
}

/// The final result of a run.
pub fn create_result(
    all_passed: bool,
    stories_passed: usize,
    total_stories: usize,
    total_iterations: u32,
    error: Option<String>,
) -> (r: RunAllResult)
    ensures
        r.all_passed == all_passed,
        r.stories_passed == stories_passed,
        r.total_stories == total_stories,
        r.total_iterations == total_iterations,
        r.error == error,
        r.message@ == result_message(
            all_passed,
            stories_passed as nat,
            total_stories as nat,
            error,
        ),
{
    let total = decimal_string(total_stories as u64);
    let message = if all_passed {
        let mut m = String::from_str("All ");
        m.append(total.as_str());
        m.append(" stories passed!\n<promise>COMPLETE</promise>");
        m
    } else {
        let passed = decimal_string(stories_passed as u64);
        let mut m = match &error {
            Some(err) => {
                let mut m = String::from_str("Execution stopped: ");
                m.append(err.as_str());
                m.append(". ");
                m
            },
            None => String::from_str("Execution incomplete: "),
        };
        m.append(passed.as_str());
        m.append("/");
        m.append(total.as_str());
        m.append(" stories passed.");
        m
    };
    RunAllResult { all_passed, stories_passed, total_stories, total_iterations, error, message }
}

} // verus!
