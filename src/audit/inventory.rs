//! File inventory and project structure types.

use vstd::prelude::*;
use crate::audit::AuditError;

verus! {

/// Detected project type.
#[derive(Clone, Copy, Debug, PartialEq, Eq, Structural)]
pub enum ProjectType {
    Rust,
    JavaScript,
    TypeScript,
    Python,
    Go,
    Java,
    Mixed,
    Unknown,
}

impl Default for ProjectType {
    fn default() -> (r: Self)
        ensures
            r == ProjectType::Unknown,
    {
        ProjectType::Unknown
    }
}

/// Purpose classification for directories.
#[derive(Clone, Copy, Debug, PartialEq, Eq, Structural)]
pub enum DirectoryPurpose {
    Source,
    Test,
    Documentation,
    Configuration,
    Build,
    Dependencies,
    Assets,
    Unknown,
}

impl Default for DirectoryPurpose {
    fn default() -> (r: Self)
        ensures
            r == DirectoryPurpose::Unknown,
    {
        DirectoryPurpose::Unknown
    }
}

/// A node in the directory tree.
#[derive(Debug)]
pub struct DirectoryNode {
    pub name: String,
    pub path: String,
    pub purpose: DirectoryPurpose,
    pub children: Vec<DirectoryNode>,
    /// Files directly in this directory.
    pub file_count: usize,
}

/// A file that matters for understanding the project.
#[derive(Clone, Debug)]
pub struct KeyFile {
    /// Path relative to the project root.
    pub path: String,
    pub file_type: String,
    /// Why the file matters.
    pub significance: String,
}

/// Complete file inventory for a project.
#[derive(Debug)]
pub struct FileInventory {
    pub project_type: ProjectType,
    pub total_files: usize,
    /// Estimated lines of code.
    pub total_loc: usize,
    pub structure: Vec<DirectoryNode>,
    pub key_files: Vec<KeyFile>,
}

/// Scanner for building file inventories.
pub struct InventoryScanner {
    root: String,
}

impl InventoryScanner {
    /// The project root being scanned.
    pub closed spec fn root_path(&self) -> Seq<char> {
        self.root@
    }

    pub fn new(root: String) -> (r: Self)
        ensures
            r.root_path() == root@,
    {
        InventoryScanner { root }
    }

    /// Scan the project. No detection is done yet: the inventory is empty
    /// and the project type unknown.
    pub fn scan(&self) -> (r: Result<FileInventory, AuditError>)
        ensures
            r matches Ok(inv) && inv.project_type == ProjectType::Unknown && inv.total_files == 0
                && inv.total_loc == 0 && inv.structure@.len() == 0 && inv.key_files@.len() == 0,
    {
        Ok(
            FileInventory {
                project_type: ProjectType::Unknown,
                total_files: 0,
                total_loc: 0,
                structure: Vec::new(),
                key_files: Vec::new(),
            },
        )
    }

    /// The root path.
    pub fn root(&self) -> (r: &String)
        ensures
            r@ == self.root_path(),
    {
        &self.root
    }
}

} // verus!
