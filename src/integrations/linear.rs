//! The Linear provider: configuration, GraphQL request text and the reading
//! of its responses.

use vstd::prelude::*;
use crate::integrations::tracker::{ItemInfo, TrackerError};
use crate::text::push_char;

verus! {

/// Configuration of the Linear provider.
#[derive(Clone, Debug)]
pub struct LinearConfig {
    /// API key sent with every request.
    pub api_key: String,
    /// Team in which issues are created.
    pub team_id: String,
}

impl LinearConfig {
    pub fn new(api_key: String, team_id: String) -> (r: Self)
        ensures
            r.api_key == api_key,
            r.team_id == team_id,
    {
        LinearConfig { api_key, team_id }
    }
}

/// A Linear issue.
#[derive(Clone, Debug)]
pub struct LinearIssue {
    /// Internal identifier.
    pub id: String,
    /// Human-readable identifier ("ENG-123").
    pub identifier: String,
    pub title: String,
    pub url: String,
}

/// How one character is written inside a GraphQL string literal.
pub open spec fn escape_char(c: char) -> Seq<char> {
    if c == '\\' {
        seq!['\\', '\\']
    } else if c == '"' {
        seq!['\\', '"']
    } else if c == '\n' {
        seq!['\\', 'n']
    } else if c == '\r' {
        seq!['\\', 'r']
    } else if c == '\t' {
        seq!['\\', 't']
    } else {
        seq![c]
    }
}

/// `s` escaped for a GraphQL string literal.
pub open spec fn escaped(s: Seq<char>) -> Seq<char>
    decreases s.len(),
{
    if s.len() == 0 {
        Seq::empty()
    } else {
        escaped(s.drop_last()) + escape_char(s.last())
    }
}

/// Escape backslashes, double quotes, newlines, carriage returns and tabs
/// for use inside a GraphQL string literal.
pub fn escape_graphql_string(s: &str) -> (r: String)
    ensures
        r@ == escaped(s@),
{
    let n = s.unicode_len();
    let mut r = String::new();
    let mut k: usize = 0;
    while k < n
        invariant
            n == s@.len(),
            k <= n,
            r@ == escaped(s@.subrange(0, k as int)),
        decreases n - k,
    {
        let c = s.get_char(k);
        if c == '\\' {
            r.append("\\\\");
        } else if c == '"' {
            r.append("\\\"");
        } else if c == '\n' {
            r.append("\\n");
        } else if c == '\r' {
            r.append("\\r");
        } else if c == '\t' {
            r.append("\\t");
        } else {
            push_char(&mut r, c);
        }
        proof {
            reveal_strlit("\\\\");
            reveal_strlit("\\\"");
            reveal_strlit("\\n");
            reveal_strlit("\\r");
            reveal_strlit("\\t");
            let t = s@.subrange(0, k as int + 1);
            assert(t.drop_last() =~= s@.subrange(0, k as int));
            assert(t.last() == c);
            assert(r@ =~= escaped(t));
        }
        k += 1;
    }
    proof {
        assert(s@.subrange(0, n as int) =~= s@);
    }
    r
}

/// Text of the issue-create mutation before the team identifier.
pub open spec fn mutation_head() -> Seq<char> {
    "mutation {\n                issueCreate(input: {\n                    teamId: \""@
}

/// Text of the mutation between the team identifier and the title.
pub open spec fn mutation_title_lead() -> Seq<char> {
    "\",\n                    title: \""@
}

/// Text of the mutation after the title and optional description.
pub open spec fn mutation_tail() -> Seq<char> {
    "\n                }) {\n                    success\n                    issue {\n                        id\n                        identifier\n                        title\n                        url\n                    }\n                }\n            }"@
}

/// The description field of the mutation, if a description is given.
pub open spec fn description_field(description: Option<Seq<char>>) -> Seq<char> {
    match description {
        Some(d) => ", description: \""@ + escaped(d) + "\""@,
        None => Seq::empty(),
    }
}

/// The whole issue-create mutation.
pub open spec fn issue_create_mutation(
    team_id: Seq<char>,
    title: Seq<char>,
    description: Option<Seq<char>>,
) -> Seq<char> {
    mutation_head() + team_id + mutation_title_lead() + escaped(title) + "\""@
        + description_field(description) + mutation_tail()
}

/// The GraphQL mutation that creates an issue in `team_id`, with the title
/// and description escaped.
pub fn issue_create_mutation_text(team_id: &str, title: &str, description: Option<&str>) -> (r:
    String)
    ensures
        r@ == issue_create_mutation(
            team_id@,
            title@,
            match description {
                Some(d) => Some(d@),
                None => None,
            },
        ),
{
    let mut r = String::from_str(
        "mutation {\n                issueCreate(input: {\n                    teamId: \"",
    );
    r.append(team_id);
    r.append("\",\n                    title: \"");
    let t = escape_graphql_string(title);
    r.append(t.as_str());
    r.append("\"");
    match description {
        Some(d) => {
            r.append(", description: \"");
            let e = escape_graphql_string(d);
            r.append(e.as_str());
            r.append("\"");
        },
        None => {},
    }
    r.append(
        "\n                }) {\n                    success\n                    issue {\n                        id\n                        identifier\n                        title\n                        url\n                    }\n                }\n            }",
    );
    r
}

/// Classify an HTTP reply: 401 and 429 have their own errors, any other
/// status outside 200..=299 is an API error quoting the status and body.
pub fn check_http_status(code: u16, status_text: &str, body: &str) -> (r: Result<(), TrackerError>)
    ensures
        code == 401 ==> (r matches Err(TrackerError::AuthenticationError(m)) && m@
            == "Invalid Linear API key"@),
        code == 429 ==> (r matches Err(TrackerError::RateLimitError(m)) && m@
            == "Linear API rate limit exceeded"@),
        code != 401 && code != 429 && 200 <= code <= 299 ==> r is Ok,
        code != 401 && code != 429 && !(200 <= code <= 299) ==> (r matches Err(
            TrackerError::ApiError(m),
        ) && m@ == "HTTP "@ + status_text@ + " error: "@ + body@),
{
    if code == 401 {
        return Err(TrackerError::AuthenticationError(String::from_str("Invalid Linear API key")));
    }
    if code == 429 {
        return Err(TrackerError::RateLimitError(String::from_str("Linear API rate limit exceeded")));
    }
    if 200 <= code && code <= 299 {
        return Ok(());
    }
    let mut m = String::from_str("HTTP ");
    m.append(status_text);
    m.append(" error: ");
    m.append(body);
    Err(TrackerError::ApiError(m))
}

/// The issue-create part of a GraphQL reply.
pub struct IssueCreateOutcome {
    pub success: bool,
    pub issue: Option<LinearIssue>,
}

/// Read an issue-create reply: GraphQL errors come first (the first message,
/// or a generic one), then a missing data part, a refused creation, and a
/// missing issue; otherwise the created issue.
pub fn issue_from_reply(errors: Option<Vec<String>>, data: Option<IssueCreateOutcome>) -> (r: Result<
    LinearIssue,
    TrackerError,
>)
    ensures
        match errors {
            Some(errs) => r matches Err(TrackerError::ApiError(m)) && if errs@.len() > 0 {
                m == errs@[0]
            } else {
                m@ == "Unknown GraphQL error"@
            },
            None => match data {
                None => r matches Err(TrackerError::ApiError(m)) && m@ == "No data in response"@,
                Some(d) => if !d.success {
                    r matches Err(TrackerError::ApiError(m)) && m@ == "Issue creation failed"@
                } else {
                    match d.issue {
                        Some(issue) => r == Ok::<LinearIssue, TrackerError>(issue),
                        None => r matches Err(TrackerError::ApiError(m)) && m@
                            == "No issue in response"@,
                    }
                },
            },
        },
{
    match errors {
        Some(errs) => {
            if errs.len() > 0 {
                let first = errs[0].clone();
                return Err(TrackerError::ApiError(first));
            } else {
                return Err(TrackerError::ApiError(String::from_str("Unknown GraphQL error")));
            }
        },
        None => {},
    }
    match data {
        None => Err(TrackerError::ApiError(String::from_str("No data in response"))),
        Some(d) => {
            if !d.success {
                Err(TrackerError::ApiError(String::from_str("Issue creation failed")))
            } else {
                match d.issue {
                    Some(issue) => Ok(issue),
                    None => Err(TrackerError::ApiError(String::from_str("No issue in response"))),
                }
            }
        },
    }
}

/// The tracker item for a created issue.
pub fn item_from_issue(issue: LinearIssue) -> (r: ItemInfo)
    ensures
        r.id == issue.id,
        r.title == issue.title,
        r.url == Some(issue.url),
{
    ItemInfo { id: issue.id, title: issue.title, url: Some(issue.url) }
}

} // verus!
