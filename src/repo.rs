use vstd::prelude::*;
use git2::{Diff, Oid, Repository};
use crate::changes::{classify_statuses, has_staged_entry, staged_count, StagedChanges, StatusEntry};
use crate::errors::{names_step, storage, unresolved, with_context, GitError};
use crate::hunks::{
    assemble, build_hunks, events_of, hunk_models, lines_in_hunks, stream_of, DiffHunk, DiffLine,
    FilePatch, PatchHunk,
};
use crate::vcs;

verus! {

/// An open repository, found from a path inside its work tree.
pub struct GitRepo {
    repo: Repository,
}

/// Staging takes every path of the work tree.
pub const STAGE_PATHSPEC: &'static str = "*";

pub const STEP_OPEN: &'static str = "Failed to find git repository";
pub const STEP_INDEX: &'static str = "Failed to open the index";
pub const STEP_STATUS: &'static str = "Failed to get repository status";
pub const STEP_HEAD_TREE: &'static str = "Failed to read HEAD's tree";
pub const STEP_DIFF: &'static str = "Failed to generate diff";
pub const STEP_PATCH: &'static str = "Failed to read a file's patch";
pub const STEP_HUNK: &'static str = "Failed to read a hunk";
pub const STEP_LINE: &'static str = "Failed to read a diff line";
pub const STEP_COUNT: &'static str = "Failed to count diff lines";

/// The message of a failure while building the staged diff.
pub open spec fn diff_failure(m: Seq<char>) -> bool {
    names_step(m, STEP_INDEX@) || names_step(m, STEP_HEAD_TREE@) || names_step(m, STEP_DIFF@)
}

/// The message of a failure while reading the staged diff's patches.
pub open spec fn patch_failure(m: Seq<char>) -> bool {
    diff_failure(m) || names_step(m, STEP_PATCH@) || names_step(m, STEP_HUNK@) || names_step(
        m,
        STEP_LINE@,
    )
}

impl GitRepo {
    /// Opens the repository that holds `path`, searching parent directories.
    pub fn open(path: &str) -> (r: Result<GitRepo, GitError>)
        ensures
            r matches Err(e) ==> e matches GitError::RepositoryNotFound(m) && names_step(
                m@,
                STEP_OPEN@,
            ),
    {
        match vcs::discover(path) {
            Ok(repo) => Ok(GitRepo { repo }),
            Err(e) => Err(GitError::RepositoryNotFound(with_context(STEP_OPEN, &e))),
        }
    }

    /// Stages every change of the work tree and writes the index.
    pub fn stage_all(&self) -> (r: Result<(), GitError>)
        ensures
            r matches Err(e) ==> e matches GitError::Storage(m) && (names_step(m@, STEP_INDEX@)
                || names_step(m@, "Failed to stage changes"@) || names_step(
                m@,
                "Failed to write the index"@,
            )),
    {
        let mut index = match vcs::repo_index(&self.repo) {
            Ok(i) => i,
            Err(e) => return Err(storage(STEP_INDEX, &e)),
        };
        match vcs::add_all(&mut index, STAGE_PATHSPEC) {
            Ok(()) => {},
            Err(e) => return Err(storage("Failed to stage changes", &e)),
        }
        match vcs::write_index(&mut index) {
            Ok(()) => Ok(()),
            Err(e) => Err(storage("Failed to write the index", &e)),
        }
    }

    /// The status listing of the repository, without ignored or unmodified
    /// paths or submodules; untracked paths only when asked.
    pub fn status_listing(&self, include_untracked: bool) -> (r: Result<Vec<StatusEntry>, GitError>)
        ensures
            r matches Err(e) ==> e matches GitError::Storage(m) && names_step(m@, STEP_STATUS@),
    {
        let statuses = match vcs::statuses(&self.repo, include_untracked, false, false, true) {
            Ok(s) => s,
            Err(e) => return Err(storage(STEP_STATUS, &e)),
        };
        let n = vcs::statuses_len(&statuses);
        let mut out: Vec<StatusEntry> = Vec::new();
        let mut i: usize = 0;
        while i < n
            invariant
                i <= n,
            decreases n - i,
        {
            match vcs::status_entry(&statuses, i) {
                Some(e) => out.push(e),
                None => {},
            }
            i = i + 1;
        }
        Ok(out)
    }

    /// Whether any change is staged in the index.
    pub fn has_staged_changes(&self) -> (r: Result<bool, GitError>)
        ensures
            r matches Err(e) ==> e matches GitError::Storage(m) && names_step(m@, STEP_STATUS@),
    {
        let entries = match self.status_listing(false) {
            Ok(x) => x,
            Err(e) => return Err(e),
        };
        Ok(has_staged_entry(&entries))
    }

    /// Whether the work tree or the index holds any change, untracked files included.
    pub fn has_any_changes(&self) -> (r: Result<bool, GitError>)
        ensures
            r matches Err(e) ==> e matches GitError::Storage(m) && names_step(m@, STEP_STATUS@),
    {
        let entries = match self.status_listing(true) {
            Ok(x) => x,
            Err(e) => return Err(e),
        };
        Ok(entries.len() > 0)
    }

    /// The staged changes, classified, with the line counts of the staged
    /// diff. A failure to read the status, build the diff or count its lines
    /// is an error.
    pub fn get_staged_changes(&self) -> (r: Result<StagedChanges, GitError>)
        ensures
            r matches Ok(c) ==> c.stats.files_changed == c.file_total() && exists|
                entries: Seq<StatusEntry>,
            | c.classifies(entries) && c.stats.files_changed == staged_count(entries),
            r matches Err(e) ==> e matches GitError::Storage(m) && (names_step(m@, STEP_STATUS@)
                || diff_failure(m@) || names_step(m@, STEP_COUNT@)),
    {
        let entries = match self.status_listing(false) {
            Ok(x) => x,
            Err(e) => return Err(e),
        };
        let mut changes = classify_statuses(&entries);
        let diff = match self.get_diff() {
            Ok(x) => x,
            Err(e) => return Err(e),
        };
        match vcs::line_counts(&diff) {
            Ok((ins, del)) => {
                changes.stats.insertions = ins;
                changes.stats.deletions = del;
            },
            Err(e) => return Err(storage(STEP_COUNT, &e)),
        }
        assert(changes.classifies(entries@));
        Ok(changes)
    }

    /// The diff from HEAD's tree (the empty tree before the first commit) to the index.
    fn get_diff(&self) -> (r: Result<Diff<'_>, GitError>)
        ensures
            r matches Err(e) ==> e matches GitError::Storage(m) && diff_failure(m@),
    {
        let index = match vcs::repo_index(&self.repo) {
            Ok(i) => i,
            Err(e) => return Err(storage(STEP_INDEX, &e)),
        };
        let diff = match vcs::head(&self.repo) {
            Ok(head) => {
                let tree = match vcs::peel_to_tree(&head) {
                    Ok(t) => t,
                    Err(e) => return Err(storage(STEP_HEAD_TREE, &e)),
                };
                vcs::diff_tree_to_index(&self.repo, Some(&tree), &index)
            },
            Err(_) => vcs::diff_tree_to_index(&self.repo, None, &index),
        };
        match diff {
            Ok(d) => Ok(d),
            Err(e) => Err(storage(STEP_DIFF, &e)),
        }
    }

    /// The staged diff's patches, file by file, read out as plain values.
    pub fn read_patches(&self) -> (r: Result<Vec<FilePatch>, GitError>)
        ensures
            r matches Err(e) ==> e matches GitError::Storage(m) && patch_failure(m@),
    {
        let diff = match self.get_diff() {
            Ok(x) => x,
            Err(e) => return Err(e),
        };
        let mut files: Vec<FilePatch> = Vec::new();
        let deltas = vcs::num_deltas(&diff);
        let mut d: usize = 0;
        while d < deltas
            invariant
                d <= deltas,
            decreases deltas - d,
        {
            let patch = match vcs::patch_at(&diff, d) {
                Ok(p) => p,
                Err(e) => return Err(storage(STEP_PATCH, &e)),
            };
            let mut hunks: Vec<PatchHunk> = Vec::new();
            match patch {
                Some(p) => {
                    let n = vcs::num_hunks(&p);
                    let mut h: usize = 0;
                    while h < n
                        invariant
                            h <= n,
                        decreases n - h,
                    {
                        let (header, count) = match vcs::hunk_at(&p, h) {
                            Ok(x) => x,
                            Err(e) => return Err(storage(STEP_HUNK, &e)),
                        };
                        let mut lines: Vec<DiffLine> = Vec::new();
                        let mut l: usize = 0;
                        while l < count
                            invariant
                                l <= count,
                            decreases count - l,
                        {
                            match vcs::line_at(&p, h, l) {
                                Ok(x) => lines.push(x),
                                Err(e) => return Err(storage(STEP_LINE, &e)),
                            }
                            l = l + 1;
                        }
                        hunks.push(PatchHunk { header, lines });
                        h = h + 1;
                    }
                },
                None => {},
            }
            files.push(FilePatch { hunks });
            d = d + 1;
        }
        Ok(files)
    }

    /// The staged diff as hunks: the fold of the line stream of its patches.
    /// Joined, their headers and lines give back the stream's patch text.
    pub fn get_structured_diff(&self) -> (r: Result<Vec<DiffHunk>, GitError>)
        ensures
            r matches Ok(hs) ==> exists|files: Seq<FilePatch>|
                lines_in_hunks(stream_of(files)) && hunk_models(hs@) == assemble(stream_of(files)),
            r matches Err(e) ==> e matches GitError::Storage(m) && patch_failure(m@),
    {
        let files = match self.read_patches() {
            Ok(x) => x,
            Err(e) => return Err(e),
        };
        let events = events_of(&files);
        let hunks = build_hunks(&events);
        assert(lines_in_hunks(stream_of(files@)) && hunk_models(hunks@) == assemble(stream_of(files@)));
        Ok(hunks)
    }

    /// Commits the index on HEAD with `message`, by the configured user, and
    /// names the new commit.
    pub fn create_commit(&self, message: &str) -> (r: Result<Oid, GitError>)
        ensures
            r matches Err(e) ==> match e {
                GitError::Unresolved(m) => names_step(m@, "Failed to get signature"@) || names_step(
                    m@,
                    "Failed to resolve HEAD"@,
                ),
                GitError::Storage(m) => names_step(m@, STEP_INDEX@) || names_step(
                    m@,
                    "Failed to write tree"@,
                ) || names_step(m@, "Failed to find tree"@) || names_step(
                    m@,
                    "Failed to create commit"@,
                ),
                _ => false,
            },
    {
        let sig = match vcs::signature(&self.repo) {
            Ok(s) => s,
            Err(e) => return Err(unresolved("Failed to get signature", &e)),
        };
        let mut index = match vcs::repo_index(&self.repo) {
            Ok(i) => i,
            Err(e) => return Err(storage(STEP_INDEX, &e)),
        };
        let tree_id = match vcs::write_tree(&mut index) {
            Ok(t) => t,
            Err(e) => return Err(storage("Failed to write tree", &e)),
        };
        let tree = match vcs::find_tree(&self.repo, tree_id) {
            Ok(t) => t,
            Err(e) => return Err(storage("Failed to find tree", &e)),
        };
        let parent = match vcs::head(&self.repo) {
            Ok(head) => match vcs::peel_to_commit(&head) {
                Ok(c) => Some(c),
                Err(e) => return Err(unresolved("Failed to resolve HEAD", &e)),
            },
            Err(_) => None,
        };
        match vcs::commit_on_head(&self.repo, &sig, message, &tree, parent.as_ref()) {
            Ok(id) => Ok(id),
            Err(e) => Err(storage("Failed to create commit", &e)),
        }
    }
}

} // verus!
