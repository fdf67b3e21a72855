//! Quality gates: results, coverage evaluation, and running the gates of a profile.

use vstd::prelude::*;
use crate::quality::profiles::Profile;
use crate::text::{decimal, decimal_string, digit_char, push_char};

verus! {

/// The result of one quality gate.
#[derive(Clone, Debug)]
pub struct GateResult {
    pub gate_name: String,
    pub passed: bool,
    /// Human-readable description of the result.
    pub message: String,
    /// Further details (errors, metrics).
    pub details: Option<String>,
}

impl GateResult {
    /// A passing result.
    pub fn pass(gate_name: &str, message: &str) -> (r: Self)
        ensures
            r.gate_name@ == gate_name@,
            r.passed,
            r.message@ == message@,
            r.details is None,
    {
        GateResult {
            gate_name: String::from_str(gate_name),
            passed: true,
            message: String::from_str(message),
            details: None,
        }
    }

    /// A failing result.
    pub fn fail(gate_name: &str, message: &str, details: Option<String>) -> (r: Self)
        ensures
            r.gate_name@ == gate_name@,
            !r.passed,
            r.message@ == message@,
            r.details == details,
    {
        GateResult {
            gate_name: String::from_str(gate_name),
            passed: false,
            message: String::from_str(message),
            details,
        }
    }

    /// A skipped gate, which counts as passed.
    pub fn skipped(gate_name: &str, reason: &str) -> (r: Self)
        ensures
            r.gate_name@ == gate_name@,
            r.passed,
            r.message@ == "Skipped: "@ + reason@,
            r.details is None,
    {
        let mut message = String::from_str("Skipped: ");
        message.append(reason);
        GateResult { gate_name: String::from_str(gate_name), passed: true, message, details: None }
    }
}

/// What a coverage measurement produced.
pub enum CoverageProbe {
    /// No coverage tool is installed.
    NoTool,
    /// A tool ran but gave no usable figure.
    ToolFailed { message: String, details: String },
    /// A tool measured line coverage, in hundredths of a percent.
    Measured { tool: String, hundredths: u32 },
}

/// A coverage figure in hundredths of a percent, written with two decimals
/// and a percent sign ("75.50%").
pub open spec fn percent_text(hundredths: nat) -> Seq<char> {
    decimal(hundredths / 100) + "."@ + seq![
        digit_char((hundredths % 100) / 10),
        digit_char(hundredths % 10),
    ] + "%"@
}

/// The coverage meets a threshold given in whole percent.
pub open spec fn meets_threshold(hundredths: nat, threshold: nat) -> bool {
    hundredths >= threshold * 100
}

/// `hundredths` written as a percentage with two decimals.
pub fn percent_string(hundredths: u32) -> (r: String)
    ensures
        r@ == percent_text(hundredths as nat),
{
    let mut s = decimal_string((hundredths / 100) as u64);
    s.append(".");
    let rest = hundredths % 100;
    let tens = rest / 10;
    let ones = rest % 10;
    push_char(&mut s, crate::text::digit(tens as u64));
    push_char(&mut s, crate::text::digit(ones as u64));
    s.append("%");
    proof {
        assert(hundredths % 10 == rest % 10) by (nonlinear_arith)
            requires
                rest == hundredths % 100,
        ;
    }
    s
}

/// Install hint shown when no coverage tool is present.
pub open spec fn install_hint() -> Seq<char> {
    "Install cargo-llvm-cov: cargo install cargo-llvm-cov\nOr install cargo-tarpaulin: cargo install cargo-tarpaulin"@
}

/// Runs the gates of a profile.
pub struct QualityGateChecker {
    profile: Profile,
    project_root: String,
}

/// Number of passing results.
pub open spec fn passed_count(results: Seq<GateResult>) -> nat
    decreases results.len(),
{
    if results.len() == 0 {
        0
    } else {
        passed_count(results.drop_last()) + if results.last().passed {
            1nat
        } else {
            0nat
        }
    }
}

/// Names of the failing results, in order.
pub open spec fn failed_names(results: Seq<GateResult>) -> Seq<Seq<char>>
    decreases results.len(),
{
    if results.len() == 0 {
        Seq::empty()
    } else if results.last().passed {
        failed_names(results.drop_last())
    } else {
        failed_names(results.drop_last()).push(results.last().gate_name@)
    }
}

/// Names separated by ", ".
pub open spec fn join_names(names: Seq<Seq<char>>) -> Seq<char>
    decreases names.len(),
{
    if names.len() == 0 {
        Seq::empty()
    } else if names.len() == 1 {
        names[0]
    } else {
        join_names(names.drop_last()) + ", "@ + names.last()
    }
}

/// The one-line summary of a set of results.
pub open spec fn summary_text(results: Seq<GateResult>) -> Seq<char> {
    if failed_names(results).len() == 0 {
        "All "@ + decimal(results.len()) + " gates passed"@
    } else {
        decimal(passed_count(results)) + "/"@ + decimal(results.len()) + " gates passed. Failed: "@
            + join_names(failed_names(results))
    }
}

proof fn lemma_passed_count_bound(results: Seq<GateResult>)
    ensures
        passed_count(results) <= results.len(),
    decreases results.len(),
{
    if results.len() > 0 {
        lemma_passed_count_bound(results.drop_last());
    }
}

impl QualityGateChecker {
    /// The profile checked against.
    pub closed spec fn spec_profile(&self) -> Profile {
        self.profile
    }

    /// The project root.
    pub closed spec fn spec_root(&self) -> Seq<char> {
        self.project_root@
    }

    pub fn new(profile: Profile, project_root: &str) -> (r: Self)
        ensures
            r.spec_profile() == profile,
            r.spec_root() == project_root@,
    {
        QualityGateChecker { profile, project_root: String::from_str(project_root) }
    }

    /// The profile used.
    pub fn profile(&self) -> (r: &Profile)
        ensures
            *r == self.spec_profile(),
    {
        &self.profile
    }

    /// The project root directory.
    pub fn project_root(&self) -> (r: &String)
        ensures
            r@ == self.spec_root(),
    {
        &self.project_root
    }

    /// Judge a measured coverage against the profile threshold.
    pub fn evaluate_coverage(&self, hundredths: u32, tool_name: &str) -> (r: GateResult)
        ensures
            r.gate_name@ == "coverage"@,
            r.passed == meets_threshold(
                hundredths as nat,
                self.spec_profile().testing.coverage_threshold as nat,
            ),
            r.passed ==> r.message@ == "Coverage "@ + percent_text(hundredths as nat)
                + " meets threshold of "@ + decimal(
                self.spec_profile().testing.coverage_threshold as nat,
            ) + "% (via "@ + tool_name@ + ")"@ && r.details is None,
            !r.passed ==> r.message@ == "Coverage "@ + percent_text(hundredths as nat)
                + " is below threshold of "@ + decimal(
                self.spec_profile().testing.coverage_threshold as nat,
            ) + "%"@ && r.details is Some && r.details->0@ == "Measured with "@ + tool_name@
                + ". Increase test coverage to meet the threshold."@,
    {
        let threshold = self.profile.testing.coverage_threshold;
        let pct = percent_string(hundredths);
        let t = decimal_string(threshold as u64);
        let mut message = String::from_str("Coverage ");
        message.append(pct.as_str());
        if hundredths as u64 >= threshold as u64 * 100 {
            message.append(" meets threshold of ");
            message.append(t.as_str());
            message.append("% (via ");
            message.append(tool_name);
            message.append(")");
            GateResult::pass("coverage", message.as_str())
        } else {
            message.append(" is below threshold of ");
            message.append(t.as_str());
            message.append("%");
            let mut details = String::from_str("Measured with ");
            details.append(tool_name);
            details.append(". Increase test coverage to meet the threshold.");
            GateResult::fail("coverage", message.as_str(), Some(details))
        }
    }

    /// The coverage gate. A threshold of 0 skips the check; otherwise the
    /// measurement decides.
    pub fn check_coverage(&self, probe: &CoverageProbe) -> (r: GateResult)
        ensures
            r.gate_name@ == "coverage"@,
            self.spec_profile().testing.coverage_threshold == 0 ==> r.passed && r.message@
                == "Skipped: Coverage threshold is 0 - no check required"@,
            self.spec_profile().testing.coverage_threshold != 0 ==> match *probe {
                CoverageProbe::NoTool => !r.passed && r.message@ == "No coverage tool available"@
                    && r.details is Some && r.details->0@ == install_hint(),
                CoverageProbe::ToolFailed { message, details } => !r.passed && r.message@
                    == message@ && r.details is Some && r.details->0@ == details@,
                CoverageProbe::Measured { tool, hundredths } => r.passed == meets_threshold(
                    hundredths as nat,
                    self.spec_profile().testing.coverage_threshold as nat,
                ),
            },
    {
        if self.profile.testing.coverage_threshold == 0 {
            let r = GateResult::skipped("coverage", "Coverage threshold is 0 - no check required");
            proof {
                reveal_strlit("Skipped: ");
                reveal_strlit("Coverage threshold is 0 - no check required");
                reveal_strlit("Skipped: Coverage threshold is 0 - no check required");
            }
            return r;
        }
        match probe {
            CoverageProbe::NoTool => GateResult::fail(
                "coverage",
                "No coverage tool available",
                Some(
                    String::from_str(
                        "Install cargo-llvm-cov: cargo install cargo-llvm-cov\nOr install cargo-tarpaulin: cargo install cargo-tarpaulin",
                    ),
                ),
            ),
            CoverageProbe::ToolFailed { message, details } => GateResult::fail(
                "coverage",
                message.as_str(),
                Some(details.clone()),
            ),
            CoverageProbe::Measured { tool, hundredths } => self.evaluate_coverage(
                *hundredths,
                tool.as_str(),
            ),
        }
    }

    /// Run every gate of the profile: coverage, then lint, format and
    /// security audit, which are reported as skipped.
    pub fn run_all(&self, coverage: &CoverageProbe) -> (r: Vec<GateResult>)
        ensures
            r@.len() == 4,
            r@[0].gate_name@ == "coverage"@,
            self.spec_profile().testing.coverage_threshold == 0 ==> r@[0].passed,
            r@[1].gate_name@ == "lint"@ && r@[1].passed,
            r@[2].gate_name@ == "format"@ && r@[2].passed,
            r@[3].gate_name@ == "security_audit"@ && r@[3].passed,
            r@[1].message@ == if self.spec_profile().ci.lint_check {
                "Skipped: Lint checking not yet implemented"@
            } else {
                "Skipped: Lint checking not enabled in profile"@
            },
            r@[2].message@ == if self.spec_profile().ci.format_check {
                "Skipped: Format checking not yet implemented"@
            } else {
                "Skipped: Format checking not enabled in profile"@
            },
            r@[3].message@ == if self.spec_profile().security.cargo_audit {
                "Skipped: Security audit not yet implemented"@
            } else {
                "Skipped: Security audit not enabled in profile"@
            },
    {
        let mut results: Vec<GateResult> = Vec::new();
        results.push(self.check_coverage(coverage));
        proof {
            reveal_strlit("Skipped: ");
            reveal_strlit("Lint checking not yet implemented");
            reveal_strlit("Lint checking not enabled in profile");
            reveal_strlit("Skipped: Lint checking not yet implemented");
            reveal_strlit("Skipped: Lint checking not enabled in profile");
            reveal_strlit("Format checking not yet implemented");
            reveal_strlit("Format checking not enabled in profile");
            reveal_strlit("Skipped: Format checking not yet implemented");
            reveal_strlit("Skipped: Format checking not enabled in profile");
            reveal_strlit("Security audit not yet implemented");
            reveal_strlit("Security audit not enabled in profile");
            reveal_strlit("Skipped: Security audit not yet implemented");
            reveal_strlit("Skipped: Security audit not enabled in profile");
        }
        if self.profile.ci.lint_check {
            results.push(GateResult::skipped("lint", "Lint checking not yet implemented"));
        } else {
            results.push(GateResult::skipped("lint", "Lint checking not enabled in profile"));
        }
        if self.profile.ci.format_check {
            results.push(GateResult::skipped("format", "Format checking not yet implemented"));
        } else {
            results.push(GateResult::skipped("format", "Format checking not enabled in profile"));
        }
        if self.profile.security.cargo_audit {
            results.push(GateResult::skipped("security_audit", "Security audit not yet implemented"));
        } else {
            results.push(
                GateResult::skipped("security_audit", "Security audit not enabled in profile"),
            );
        }
        results
    }

    /// Whether every result passed.
    pub fn all_passed(results: &Vec<GateResult>) -> (r: bool)
        ensures
            r == forall|j: int| 0 <= j < results@.len() ==> (#[trigger] results@[j]).passed,
    {
        let mut k: usize = 0;
        while k < results.len()
            invariant
                k <= results@.len(),
                forall|j: int| 0 <= j < k ==> (#[trigger] results@[j]).passed,
            decreases results.len() - k,
        {
            if !results[k].passed {
                return false;
            }
            k += 1;
        }
        true
    }

    /// One line summing up the results: "All N gates passed", or
    /// "P/N gates passed. Failed: a, b".
    pub fn summary(results: &Vec<GateResult>) -> (r: String)
        ensures
            r@ == summary_text(results@),
    {
        let mut passed: usize = 0;
        let mut failed = String::new();
        let mut n_failed: usize = 0;
        let mut k: usize = 0;
        while k < results.len()
            invariant
                k <= results@.len(),
                passed == passed_count(results@.subrange(0, k as int)),
                n_failed == failed_names(results@.subrange(0, k as int)).len(),
                failed@ == join_names(failed_names(results@.subrange(0, k as int))),
                passed <= k,
                n_failed <= k,
            decreases results.len() - k,
        {
            proof {
                let s = results@.subrange(0, k as int + 1);
                assert(s.drop_last() =~= results@.subrange(0, k as int));
                lemma_passed_count_bound(results@.subrange(0, k as int));
            }
            if results[k].passed {
                passed += 1;
            } else {
                let ghost before = failed@;
                if n_failed > 0 {
                    failed.append(", ");
                }
                failed.append(results[k].gate_name.as_str());
                n_failed += 1;
                proof {
                    let names = failed_names(results@.subrange(0, k as int));
                    let names2 = failed_names(results@.subrange(0, k as int + 1));
                    assert(names2 == names.push(results@[k as int].gate_name@));
                    assert(names2.drop_last() =~= names);
                    if names.len() == 0 {
                        assert(before =~= Seq::<char>::empty());
                        assert(failed@ =~= names2[0]);
                    }
                }
            }
            k += 1;
        }
        proof {
            assert(results@.subrange(0, results@.len() as int) =~= results@);
        }
        let total = decimal_string(results.len() as u64);
        if n_failed == 0 {
            let mut s = String::from_str("All ");
            s.append(total.as_str());
            s.append(" gates passed");
            s
        } else {
            let mut s = decimal_string(passed as u64);
            s.append("/");
            s.append(total.as_str());
            s.append(" gates passed. Failed: ");
            s.append(failed.as_str());
            s
        }
    }
}

} // verus!
