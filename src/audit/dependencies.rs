//! Dependency analysis types and the dependency parser.

use vstd::prelude::*;
use crate::audit::AuditError;

verus! {

/// Supported dependency ecosystems.
#[derive(Clone, Copy, Debug, PartialEq, Eq, Structural)]
pub enum DependencyEcosystem {
    Cargo,
    Npm,
    Pip,
    Go,
    Maven,
    Gradle,
    Unknown,
}

impl Default for DependencyEcosystem {
    fn default() -> (r: Self)
        ensures
            r == DependencyEcosystem::Unknown,
    {
        DependencyEcosystem::Unknown
    }
}

/// Information about an outdated dependency.
#[derive(Clone, Debug)]
pub struct OutdatedInfo {
    /// Latest available version.
    pub latest_version: String,
    /// Whether moving to it is a major version bump.
    pub is_major_bump: bool,
    /// Security advisory, if any.
    pub security_advisory: Option<String>,
}

/// A single dependency.
#[derive(Clone, Debug)]
pub struct Dependency {
    pub name: String,
    pub version: String,
    pub ecosystem: DependencyEcosystem,
    /// Whether this is a development or test dependency.
    pub is_dev: bool,
    /// Path of the manifest that declares it.
    pub manifest_path: String,
    pub outdated: Option<OutdatedInfo>,
}

/// Complete dependency analysis results.
#[derive(Clone, Debug)]
pub struct DependencyAnalysis {
    pub dependencies: Vec<Dependency>,
    /// Count of dependencies by ecosystem.
    pub ecosystem_counts: Vec<(DependencyEcosystem, usize)>,
    pub outdated_count: usize,
    pub vulnerable_count: usize,
}

impl DependencyAnalysis {
    /// An analysis that found nothing.
    pub fn empty() -> (r: Self)
        ensures
            r.dependencies@.len() == 0,
            r.ecosystem_counts@.len() == 0,
            r.outdated_count == 0,
            r.vulnerable_count == 0,
    {
        DependencyAnalysis {
            dependencies: Vec::new(),
            ecosystem_counts: Vec::new(),
            outdated_count: 0,
            vulnerable_count: 0,
        }
    }
}

/// Parser for extracting dependencies from manifest files.
pub struct DependencyParser {
    root: String,
}

impl DependencyParser {
    /// The project root being analysed.
    pub closed spec fn root_path(&self) -> Seq<char> {
        self.root@
    }

    pub fn new(root: String) -> (r: Self)
        ensures
            r.root_path() == root@,
    {
        DependencyParser { root }
    }

    /// Parse all dependencies of the project. No manifest format is
    /// understood yet, so the analysis is empty.
    pub fn parse(&self) -> (r: Result<DependencyAnalysis, AuditError>)
        ensures
            r matches Ok(a) && a.dependencies@.len() == 0 && a.outdated_count == 0
                && a.vulnerable_count == 0,
    {
        Ok(DependencyAnalysis::empty())
    }

    /// The root path.
    pub fn root(&self) -> (r: &String)
        ensures
            r@ == self.root_path(),
    {
        &self.root
    }
}

} // verus!
