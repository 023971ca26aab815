//! The calls into libgit2 (through the `git2` crate) and the system clock
//! that the analysis makes. Each function here is trusted: its body is one call, and its
//! contract states only what holds of every result, since results depend on
//! the repository on disk.

use vstd::prelude::*;
use git2::{Branch, Commit, Diff, Error, Index, Oid, Patch, Reference, Repository,
    Revwalk, Signature, Statuses, Tree};
use std::time::{SystemTime, UNIX_EPOCH};
use crate::changes::StatusEntry;
use crate::hunks::{DiffLine, HunkHeader};

verus! {

#[verifier::external_type_specification]
#[verifier::external_body]
pub struct ExRepository(Repository);

#[verifier::external_type_specification]
#[verifier::external_body]
pub struct ExError(Error);

#[verifier::external_type_specification]
#[verifier::external_body]
pub struct ExIndex(Index);

#[verifier::external_type_specification]
#[verifier::external_body]
pub struct ExOid(Oid);

#[verifier::external_type_specification]
#[verifier::external_body]
pub struct ExReference<'r>(Reference<'r>);

#[verifier::external_type_specification]
#[verifier::external_body]
pub struct ExTree<'r>(Tree<'r>);

#[verifier::external_type_specification]
#[verifier::external_body]
pub struct ExDiff<'r>(Diff<'r>);

#[verifier::external_type_specification]
#[verifier::external_body]
pub struct ExPatch<'r>(Patch<'r>);

#[verifier::external_type_specification]
#[verifier::external_body]
pub struct ExStatuses<'r>(Statuses<'r>);

#[verifier::external_type_specification]
#[verifier::external_body]
pub struct ExBranch<'r>(Branch<'r>);

#[verifier::external_type_specification]
#[verifier::external_body]
pub struct ExCommit<'r>(Commit<'r>);

#[verifier::external_type_specification]
#[verifier::external_body]
pub struct ExRevwalk<'r>(Revwalk<'r>);

#[verifier::external_type_specification]
#[verifier::external_body]
pub struct ExSystemTime(SystemTime);

#[verifier::external_type_specification]
#[verifier::external_body]
pub struct ExSignature<'r>(Signature<'r>);

/// Relies on `Repository::discover`: opens the repository that holds `path`,
/// searching the parent directories.
#[verifier::external_body]
pub(crate) fn discover(path: &str) -> Result<Repository, Error> {
    Repository::discover(path)
}

/// Relies on `Error::message`: the error's text.
#[verifier::external_body]
pub(crate) fn error_message(e: &Error) -> String {
    e.message().to_string()
}

/// Relies on `Repository::index`: the repository's index.
#[verifier::external_body]
pub(crate) fn repo_index(repo: &Repository) -> Result<Index, Error> {
    repo.index()
}

/// Relies on `Index::add_all`: adds every path of the work tree that matches
/// `pathspec`, with the default options.
#[verifier::external_body]
pub(crate) fn add_all(index: &mut Index, pathspec: &str) -> Result<(), Error> {
    index.add_all([pathspec].iter(), git2::IndexAddOption::DEFAULT, None)
}

/// Relies on `Index::write`: writes the index back to disk.
#[verifier::external_body]
pub(crate) fn write_index(index: &mut Index) -> Result<(), Error> {
    index.write()
}

/// Relies on `Repository::statuses`: the status of the paths, with
/// untracked, ignored and unmodified entries and submodules included or left
/// out as asked.
#[verifier::external_body]
pub(crate) fn statuses(
    repo: &Repository,
    untracked: bool,
    ignored: bool,
    unmodified: bool,
    exclude_submodules: bool,
) -> Result<Statuses<'_>, Error> {
    let mut opts = git2::StatusOptions::new();
    opts.include_untracked(untracked).include_ignored(ignored).include_unmodified(unmodified)
        .exclude_submodules(exclude_submodules);
    repo.statuses(Some(&mut opts))
}

/// Relies on `Statuses::len`: the number of entries.
#[verifier::external_body]
pub(crate) fn statuses_len(s: &Statuses<'_>) -> usize {
    s.len()
}

/// Relies on `Statuses::get`: the entry at `i`, with its flags, its path and
/// the paths of its HEAD-to-index delta; `None` past the end.
#[verifier::external_body]
pub(crate) fn status_entry(s: &Statuses<'_>, i: usize) -> Option<StatusEntry> {
    let lossy = |p: &std::path::Path| p.to_string_lossy().into_owned();
    s.get(i).map(|e| StatusEntry {
        bits: e.status().bits(),
        path: e.path().ok().map(String::from),
        rename: e.head_to_index().map(|d| (d.old_file().path().map(lossy), d.new_file().path().map(lossy))),
    })
}

/// Relies on `Repository::head`: the reference HEAD points at; an error
/// when there is none yet.
#[verifier::external_body]
pub(crate) fn head(repo: &Repository) -> Result<Reference<'_>, Error> {
    repo.head()
}

/// Relies on `Reference::peel_to_tree`: the tree the reference leads to.
#[verifier::external_body]
pub(crate) fn peel_to_tree<'r>(r: &Reference<'r>) -> Result<Tree<'r>, Error> {
    r.peel_to_tree()
}

/// Relies on `Reference::peel_to_commit`: the commit the reference leads to.
#[verifier::external_body]
pub(crate) fn peel_to_commit<'r>(r: &Reference<'r>) -> Result<Commit<'r>, Error> {
    r.peel_to_commit()
}

/// Relies on `Repository::diff_tree_to_index`: the diff from `tree` (the
/// empty tree when `None`) to the index, with default options.
#[verifier::external_body]
pub(crate) fn diff_tree_to_index<'r>(
    repo: &'r Repository,
    tree: Option<&Tree<'r>>,
    index: &Index,
) -> Result<Diff<'r>, Error> {
    repo.diff_tree_to_index(tree, Some(index), Some(&mut git2::DiffOptions::new()))
}

/// Relies on `Diff::stats`: the numbers of inserted and deleted lines.
#[verifier::external_body]
pub(crate) fn line_counts(d: &Diff<'_>) -> Result<(usize, usize), Error> {
    d.stats().map(|s| (s.insertions(), s.deletions()))
}

/// Relies on `Diff::deltas`: the number of file deltas.
#[verifier::external_body]
pub(crate) fn num_deltas(d: &Diff<'_>) -> usize {
    d.deltas().len()
}

/// Relies on `Patch::from_diff`: the patch of the delta at `i`; `None` for
/// an unchanged or binary file.
#[verifier::external_body]
pub(crate) fn patch_at<'r>(d: &Diff<'r>, i: usize) -> Result<Option<Patch<'r>>, Error> {
    Patch::from_diff(d, i)
}

/// Relies on `Patch::num_hunks`: the number of hunks.
#[verifier::external_body]
pub(crate) fn num_hunks(p: &Patch<'_>) -> usize {
    p.num_hunks()
}

/// Relies on `Patch::hunk`: the hunk at `i`, its header decoded lossily,
/// with the number of its lines.
#[verifier::external_body]
pub(crate) fn hunk_at(p: &Patch<'_>, i: usize) -> Result<(HunkHeader, usize), Error> {
    p.hunk(i).map(|(h, n)| (HunkHeader {
        old_start: h.old_start(),
        old_lines: h.old_lines(),
        new_start: h.new_start(),
        new_lines: h.new_lines(),
        header: String::from_utf8_lossy(h.header()).into_owned(),
    }, n))
}

/// Relies on `Patch::line_in_hunk`: line `l` of hunk `h`, its text decoded
/// lossily.
#[verifier::external_body]
pub(crate) fn line_at(p: &Patch<'_>, h: usize, l: usize) -> Result<DiffLine, Error> {
    p.line_in_hunk(h, l).map(|x| DiffLine {
        origin: x.origin(),
        content: String::from_utf8_lossy(x.content()).into_owned(),
    })
}

/// Relies on `Repository::signature`: the configured user's signature.
#[verifier::external_body]
pub(crate) fn signature(repo: &Repository) -> Result<Signature<'static>, Error> {
    repo.signature()
}

/// Relies on `Index::write_tree`: writes the index as a tree and names it.
#[verifier::external_body]
pub(crate) fn write_tree(index: &mut Index) -> Result<Oid, Error> {
    index.write_tree()
}

/// Relies on `Repository::find_tree`: the tree named `id`.
#[verifier::external_body]
pub(crate) fn find_tree(repo: &Repository, id: Oid) -> Result<Tree<'_>, Error> {
    repo.find_tree(id)
}

/// Relies on `Repository::commit`: records a commit of `tree` on HEAD, by
/// `sig` as author and committer, over the given parent.
#[verifier::external_body]
pub(crate) fn commit_on_head(
    repo: &Repository,
    sig: &Signature<'_>,
    message: &str,
    tree: &Tree<'_>,
    parent: Option<&Commit<'_>>,
) -> Result<Oid, Error> {
    repo.commit(Some("HEAD"), sig, sig, message, tree, parent.as_slice())
}

/// Relies on `Repository::branches`: the local (or remote) branches, each
/// as it was read.
#[verifier::external_body]
pub(crate) fn branch_list(repo: &Repository, remote: bool) -> Result<Vec<Result<Branch<'_>, Error>>, Error> {
    let kind = if remote { git2::BranchType::Remote } else { git2::BranchType::Local };
    repo.branches(Some(kind)).map(|bs| bs.map(|b| b.map(|(b, _)| b)).collect())
}

/// Relies on `Repository::find_branch`: the local branch called `name`.
#[verifier::external_body]
pub(crate) fn find_local_branch<'r>(repo: &'r Repository, name: &str) -> Result<Branch<'r>, Error> {
    repo.find_branch(name, git2::BranchType::Local)
}

/// Relies on `Branch::name`: the branch's name; `None` when it is not text.
#[verifier::external_body]
pub(crate) fn branch_name(b: &Branch<'_>) -> Result<Option<String>, Error> {
    b.name().map(|n| n.map(String::from))
}

/// Relies on `Branch::get`: the reference underneath the branch.
#[verifier::external_body]
pub(crate) fn branch_ref<'a, 'r>(b: &'a Branch<'r>) -> &'a Reference<'r> {
    b.get()
}

/// Relies on `Commit::id`: the commit's name.
#[verifier::external_body]
pub(crate) fn commit_id(c: &Commit<'_>) -> Oid {
    c.id()
}

/// Relies on `Commit::time`: the commit's time in seconds since the epoch.
#[verifier::external_body]
pub(crate) fn commit_seconds(c: &Commit<'_>) -> i64 {
    c.time().seconds()
}

/// Relies on `Commit::author`: the author's name, when it is text.
#[verifier::external_body]
pub(crate) fn author_name(c: &Commit<'_>) -> Option<String> {
    c.author().name().ok().map(String::from)
}

/// Relies on `Repository::find_commit`: the commit named `id`.
#[verifier::external_body]
pub(crate) fn find_commit(repo: &Repository, id: Oid) -> Result<Commit<'_>, Error> {
    repo.find_commit(id)
}

/// Relies on `Repository::revwalk`: a new history walk.
#[verifier::external_body]
pub(crate) fn revwalk(repo: &Repository) -> Result<Revwalk<'_>, Error> {
    repo.revwalk()
}

/// Relies on `Revwalk::push`: the walk covers the ancestors of `id`, `id` included.
#[verifier::external_body]
pub(crate) fn walk_from(w: &mut Revwalk<'_>, id: Oid) -> Result<(), Error> {
    w.push(id)
}

/// Relies on `Revwalk::push_range`: the walk covers the ancestors of `tip`
/// that are not ancestors of `base` (nor `base` itself).
#[verifier::external_body]
pub(crate) fn walk_range(w: &mut Revwalk<'_>, base: Oid, tip: Oid) -> Result<(), Error> {
    w.push_range(&format!("{}..{}", base, tip))
}

/// Relies on `Revwalk::set_sorting`: the walk yields commits in the order
/// that the `Sort` flags in `mode` select (unknown bits are dropped).
#[verifier::external_body]
pub(crate) fn walk_sorting(w: &mut Revwalk<'_>, mode: u32) -> Result<(), Error> {
    w.set_sorting(git2::Sort::from_bits_truncate(mode))
}

/// Relies on `Iterator::count` over the walk: the number of commits it yields.
#[verifier::external_body]
pub(crate) fn walk_count(w: Revwalk<'_>) -> usize {
    w.count()
}

/// Relies on `Iterator::next` over the walk: the next commit it yields.
#[verifier::external_body]
pub(crate) fn walk_next(w: &mut Revwalk<'_>) -> Option<Result<Oid, Error>> {
    w.next()
}

/// Relies on `Repository::merge_base`: the best common ancestor of `a` and `b`.
#[verifier::external_body]
pub(crate) fn merge_base(repo: &Repository, a: Oid, b: Oid) -> Result<Oid, Error> {
    repo.merge_base(a, b)
}

/// Relies on `Repository::graph_ahead_behind`: the numbers of commits
/// reachable from `local` only and from `upstream` only.
#[verifier::external_body]
pub(crate) fn ahead_behind(repo: &Repository, local: Oid, upstream: Oid) -> Result<(usize, usize), Error> {
    repo.graph_ahead_behind(local, upstream)
}

/// Relies on `SystemTime::now`: the system clock's time now.
#[verifier::external_body]
pub(crate) fn system_now() -> SystemTime {
    SystemTime::now()
}

/// Relies on `SystemTime::duration_since` with `UNIX_EPOCH`: whole seconds
/// since the epoch, `None` for a time before it.
#[verifier::external_body]
pub(crate) fn seconds_since_epoch(t: SystemTime) -> Option<u64> {
    t.duration_since(UNIX_EPOCH).ok().map(|d| d.as_secs())
}

} // verus!
