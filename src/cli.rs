use vstd::prelude::*;
use crate::health::BranchFilter;

verus! {

/// A parsed command line.
#[derive(Debug, Clone)]
pub struct Cli {
    pub command: Commands,
}

/// The commands of the assistant.
#[derive(Debug, Clone)]
pub enum Commands {
    /// Generate a commit message for the staged changes and commit.
    Commit { quick: bool, push: bool },
    /// Offer several commit messages to choose from.
    Suggest,
    /// Suggest commands for a task described in words.
    Explain { description: String },
    /// Show or change the settings.
    Config { api_key: Option<String>, show: bool, use_server: Option<bool> },
    /// Show the staged changes in detail.
    Diff,
    /// Branch maintenance.
    Branch { command: BranchCommands },
}

/// The branch commands.
#[derive(Debug, Clone)]
pub enum BranchCommands {
    /// Report the health of branches.
    Health {
        all: bool,
        remote: bool,
        local: bool,
        days: Option<u32>,
        author: Option<String>,
        format: String,
    },
}

/// The branches a health report covers: all when asked, else remote ones
/// when asked, else local ones.
pub fn branch_scope(all: bool, remote: bool) -> (r: BranchFilter)
    ensures
        all ==> r == BranchFilter::All,
        !all && remote ==> r == BranchFilter::Remote,
        !all && !remote ==> r == BranchFilter::Local,
{
    if all {
        BranchFilter::All
    } else if remote {
        BranchFilter::Remote
    } else {
        BranchFilter::Local
    }
}

} // verus!
