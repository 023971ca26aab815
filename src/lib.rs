//! Repository-state analysis for a commit-message assistant: staged-change
//! summaries, structured diffs, and branch-health reports.

pub mod text;
pub mod timing;
pub mod changes;
pub mod hunks;
pub mod health;
pub mod report;
pub mod vcs;
pub mod errors;
pub mod repo;
pub mod analyzer;
pub mod message;
pub mod config;
pub mod profile;
pub mod cli;
pub mod explain;
