//! Orchestration engine for driving a queue of work items ("stories") to
//! completion: item selection (`story`), the sequential scheduler
//! (`runner`), the parallel execution state with resource locking
//! (`execution`) and its scheduler (`parallel`), and the checkpoint slot
//! (`checkpoint`).
//!
//! Around the engine: quality gates and profiles (`quality`), audit types
//! (`audit`), tool responses (`mcp`), issue-tracker request building and
//! reply reading (`integrations`), display state (`ui`), version-control
//! status reading (`vcs`) and string building (`text`).

pub mod audit;
pub mod checkpoint;
pub mod execution;
pub mod integrations;
pub mod mcp;
pub mod parallel;
pub mod quality;
pub mod runner;
pub mod story;
pub mod text;
pub mod ui;
pub mod vcs;

pub use story::WorkItem;
