use vstd::prelude::*;
use vstd::string::*;
use git2::Error;
use crate::vcs::error_message;

verus! {

/// Why an analysis of the repository failed.
#[derive(Debug, Clone)]
pub enum GitError {
    /// No repository holds the given path or any of its parents.
    RepositoryNotFound(String),
    /// Neither a `main` nor a `master` branch exists.
    NoMainBranch,
    /// A branch, HEAD or commit could not be resolved.
    Unresolved(String),
    /// Reading or writing the index, the objects or a diff failed.
    Storage(String),
    /// The system clock is before the epoch or out of range.
    Clock,
}

impl GitError {
    /// The text of the error, with the step that failed.
    pub fn message(&self) -> (r: String)
        ensures
            self matches GitError::RepositoryNotFound(m) ==> r@ == m@,
            self matches GitError::Unresolved(m) ==> r@ == m@,
            self matches GitError::Storage(m) ==> r@ == m@,
            self is NoMainBranch ==> r@ == "Failed to find main or master branch"@,
            self is Clock ==> r@ == "Failed to get current time"@,
    {
        match self {
            GitError::RepositoryNotFound(m) => m.clone(),
            GitError::NoMainBranch => String::from_str("Failed to find main or master branch"),
            GitError::Unresolved(m) => m.clone(),
            GitError::Storage(m) => m.clone(),
            GitError::Clock => String::from_str("Failed to get current time"),
        }
    }
}

/// `m` is the text of a failure at `step`: the step, then the cause.
pub open spec fn names_step(m: Seq<char>, step: Seq<char>) -> bool {
    exists|detail: Seq<char>| m == step + ": "@ + detail
}

/// `context`, then the outside error's own text.
pub(crate) fn with_context(context: &str, e: &Error) -> (r: String)
    ensures
        names_step(r@, context@),
{
    let mut s = String::from_str(context);
    s.append(": ");
    let detail = error_message(e);
    s.append(detail.as_str());
    assert(s@ == context@ + ": "@ + detail@);
    s
}

pub(crate) fn storage(context: &str, e: &Error) -> (r: GitError)
    ensures
        r matches GitError::Storage(m) && names_step(m@, context@),
{
    GitError::Storage(with_context(context, e))
}

pub(crate) fn unresolved(context: &str, e: &Error) -> (r: GitError)
    ensures
        r matches GitError::Unresolved(m) && names_step(m@, context@),
{
    GitError::Unresolved(with_context(context, e))
}

} // verus!
