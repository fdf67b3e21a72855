//! Language detection.

use vstd::prelude::*;
use crate::audit::AuditError;
use crate::text::str_eq;

verus! {

/// Level of support a language has in the codebase.
#[derive(Clone, Copy, Debug, PartialEq, Eq, Structural)]
pub enum LanguageSupport {
    Primary,
    Secondary,
    Minimal,
}

impl Default for LanguageSupport {
    fn default() -> (r: Self)
        ensures
            r == LanguageSupport::Minimal,
    {
        LanguageSupport::Minimal
    }
}

/// Information about a detected language.
#[derive(Clone, Debug)]
pub struct LanguageInfo {
    pub name: String,
    /// File extensions associated with it.
    pub extensions: Vec<String>,
    pub file_count: usize,
    pub loc: usize,
    pub support: LanguageSupport,
}

/// The language a file extension (without its dot) belongs to.
pub open spec fn language_of(ext: Seq<char>) -> Option<Seq<char>> {
    if ext == "rs"@ {
        Some("Rust"@)
    } else if ext == "js"@ {
        Some("JavaScript"@)
    } else if ext == "ts"@ {
        Some("TypeScript"@)
    } else if ext == "py"@ {
        Some("Python"@)
    } else if ext == "go"@ {
        Some("Go"@)
    } else if ext == "java"@ {
        Some("Java"@)
    } else if ext == "rb"@ {
        Some("Ruby"@)
    } else if ext == "c"@ || ext == "h"@ {
        Some("C"@)
    } else if ext == "cpp"@ || ext == "hpp"@ || ext == "cc"@ || ext == "cxx"@ {
        Some("C++"@)
    } else if ext == "cs"@ {
        Some("C#"@)
    } else if ext == "swift"@ {
        Some("Swift"@)
    } else if ext == "kt"@ || ext == "kts"@ {
        Some("Kotlin"@)
    } else {
        None
    }
}

/// Detector for identifying languages in files.
pub struct LanguageDetector;

impl LanguageDetector {
    pub fn new() -> Self {
        LanguageDetector
    }

    /// The language of a file extension, if it is one of the known ones.
    pub fn detect_from_extension(&self, extension: &str) -> (r: Option<String>)
        ensures
            match (r, language_of(extension@)) {
                (Some(name), Some(expected)) => name@ == expected,
                (None, None) => true,
                _ => false,
            },
    {
        if str_eq(extension, "rs") {
            Some(String::from_str("Rust"))
        } else if str_eq(extension, "js") {
            Some(String::from_str("JavaScript"))
        } else if str_eq(extension, "ts") {
            Some(String::from_str("TypeScript"))
        } else if str_eq(extension, "py") {
            Some(String::from_str("Python"))
        } else if str_eq(extension, "go") {
            Some(String::from_str("Go"))
        } else if str_eq(extension, "java") {
            Some(String::from_str("Java"))
        } else if str_eq(extension, "rb") {
            Some(String::from_str("Ruby"))
        } else if str_eq(extension, "c") || str_eq(extension, "h") {
            Some(String::from_str("C"))
        } else if str_eq(extension, "cpp") || str_eq(extension, "hpp") || str_eq(extension, "cc")
            || str_eq(extension, "cxx") {
            Some(String::from_str("C++"))
        } else if str_eq(extension, "cs") {
            Some(String::from_str("C#"))
        } else if str_eq(extension, "swift") {
            Some(String::from_str("Swift"))
        } else if str_eq(extension, "kt") || str_eq(extension, "kts") {
            Some(String::from_str("Kotlin"))
        } else {
            None
        }
    }
}

/// Analyzer that aggregates language statistics.
pub struct LanguageAnalyzer {
    root: String,
    detector: LanguageDetector,
}

impl LanguageAnalyzer {
    /// The project root being analysed.
    pub closed spec fn root_path(&self) -> Seq<char> {
        self.root@
    }

    pub fn new(root: String) -> (r: Self)
        ensures
            r.root_path() == root@,
    {
        LanguageAnalyzer { root, detector: LanguageDetector::new() }
    }

    /// Analyse the languages of the project. No files are read yet, so no
    /// language is reported.
    pub fn analyze(&self) -> (r: Result<Vec<LanguageInfo>, AuditError>)
        ensures
            r matches Ok(v) && v@.len() == 0,
    {
        Ok(Vec::new())
    }

    /// The root path.
    pub fn root(&self) -> (r: &String)
        ensures
            r@ == self.root_path(),
    {
        &self.root
    }

    /// The detector used.
    pub fn detector(&self) -> &LanguageDetector {
        &self.detector
    }
}

} // verus!
