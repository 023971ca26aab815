use vstd::prelude::*;
use vstd::string::*;
use git2::{Branch, Oid, Repository};
use crate::errors::{names_step, storage, unresolved, with_context, GitError};
use crate::health::{
    facts_from_reading, facts_match, health_from_facts, kept, passes, scope_kinds, scope_of, select,
    BranchFacts, BranchFilter, BranchHealth, BranchReading, DEFAULT_INACTIVE_DAYS,
    DEFAULT_STALE_DAYS,
};
use crate::vcs;

verus! {

/// The names tried, in order, for the branch that others are measured against.
pub const MAIN_BRANCH: &'static str = "main";
pub const FALLBACK_MAIN_BRANCH: &'static str = "master";

/// Walk order that yields the oldest commit first (by time, reversed).
pub const OLDEST_FIRST: u32 = 6;

pub const STEP_OPEN: &'static str = "Failed to find git repository";
pub const STEP_LIST: &'static str = "Failed to get repository branches";
pub const STEP_READ: &'static str = "Failed to read a branch";

/// Computes the health of a repository's branches.
pub struct BranchAnalyzer {
    repo: Repository,
    stale_days: u32,
    inactive_days: u32,
}

/// The main branch out of the two lookups: `main` when it resolved, else
/// `master`, else no main branch.
pub fn pick_main<T, E>(main: Result<T, E>, master: Result<T, E>) -> (r: Result<T, GitError>)
    ensures
        main matches Ok(b) ==> r == Ok::<T, GitError>(b),
        main is Err ==> (master matches Ok(b) ==> r == Ok::<T, GitError>(b)),
        main is Err && master is Err ==> r == Err::<T, GitError>(GitError::NoMainBranch),
{
    match main {
        Ok(b) => Ok(b),
        Err(_) => match master {
            Ok(b) => Ok(b),
            Err(_) => Err(GitError::NoMainBranch),
        },
    }
}

/// `f` is what some reading of the graph says once the defaults apply.
pub open spec fn from_reading(f: BranchFacts) -> bool {
    exists|rd: BranchReading| facts_match(f, rd)
}

/// `kinds` tags `n` outcomes with the branch kind each was listed under
/// (`true` for remote): every kind is in the scope, and local ones come
/// before remote ones.
pub open spec fn in_scope_order(kinds: Seq<bool>, n: nat, filter: BranchFilter) -> bool {
    &&& kinds.len() == n
    &&& forall|i: int| 0 <= i < kinds.len() ==> scope_kinds(filter).contains(#[trigger] kinds[i])
    &&& forall|i: int, j: int| 0 <= i < j < kinds.len() && #[trigger] kinds[i] ==> #[trigger] kinds[j]
}

/// The errors of reading a branch from the commit graph.
pub open spec fn graph_error(e: GitError) -> bool {
    e is NoMainBranch || e is Unresolved || e is Storage
}

impl BranchAnalyzer {
    /// Idle days from which a branch is stale.
    pub closed spec fn spec_stale_days(&self) -> u32 {
        self.stale_days
    }

    /// Idle days from which a branch needs attention.
    pub closed spec fn spec_inactive_days(&self) -> u32 {
        self.inactive_days
    }

    /// Opens the repository that holds `repo_path`, with the default
    /// thresholds of 7 and 30 idle days.
    pub fn new(repo_path: &str) -> (r: Result<BranchAnalyzer, GitError>)
        ensures
            r matches Ok(a) ==> a.spec_inactive_days() == DEFAULT_INACTIVE_DAYS
                && a.spec_stale_days() == DEFAULT_STALE_DAYS,
            r matches Err(e) ==> e matches GitError::RepositoryNotFound(m) && names_step(
                m@,
                STEP_OPEN@,
            ),
    {
        BranchAnalyzer::with_thresholds(repo_path, DEFAULT_INACTIVE_DAYS, DEFAULT_STALE_DAYS)
    }

    /// Opens the repository that holds `repo_path`, with the given thresholds.
    pub fn with_thresholds(repo_path: &str, inactive_days: u32, stale_days: u32) -> (r: Result<
        BranchAnalyzer,
        GitError,
    >)
        ensures
            r matches Ok(a) ==> a.spec_inactive_days() == inactive_days && a.spec_stale_days()
                == stale_days,
            r matches Err(e) ==> e matches GitError::RepositoryNotFound(m) && names_step(
                m@,
                STEP_OPEN@,
            ),
    {
        match vcs::discover(repo_path) {
            Ok(repo) => Ok(BranchAnalyzer { repo, stale_days, inactive_days }),
            Err(e) => Err(GitError::RepositoryNotFound(with_context(STEP_OPEN, &e))),
        }
    }

    /// The branch that others are measured against: `main`, else `master`.
    fn main_branch(&self) -> (r: Result<Branch<'_>, GitError>)
        ensures
            r matches Err(e) ==> e is NoMainBranch,
    {
        let main = vcs::find_local_branch(&self.repo, MAIN_BRANCH);
        let master = vcs::find_local_branch(&self.repo, FALLBACK_MAIN_BRANCH);
        pick_main(main, master)
    }

    /// Seconds since the epoch now.
    fn now(&self) -> (r: Result<i64, GitError>)
        ensures
            r matches Err(e) ==> e is Clock,
    {
        match vcs::seconds_since_epoch(vcs::system_now()) {
            Some(s) => {
                if s > i64::MAX as u64 {
                    Err(GitError::Clock)
                } else {
                    Ok(s as i64)
                }
            },
            None => Err(GitError::Clock),
        }
    }

    /// The local branch called `name`.
    pub fn find_branch(&self, name: &str) -> (r: Result<Branch<'_>, GitError>)
        ensures
            r matches Err(e) ==> e matches GitError::Unresolved(m) && names_step(
                m@,
                "Failed to find branch"@,
            ),
    {
        match vcs::find_local_branch(&self.repo, name) {
            Ok(b) => Ok(b),
            Err(e) => Err(unresolved("Failed to find branch", &e)),
        }
    }

    /// Commits reachable from `subject` only and from `reference` only.
    pub fn distance_between(&self, subject: &Branch<'_>, reference: &Branch<'_>) -> (r: Result<
        (usize, usize),
        GitError,
    >)
        ensures
            r matches Err(e) ==> e is Unresolved || e is Storage,
    {
        let tip = match vcs::peel_to_commit(vcs::branch_ref(subject)) {
            Ok(c) => c,
            Err(e) => return Err(unresolved("Failed to get branch commit", &e)),
        };
        let other = match vcs::peel_to_commit(vcs::branch_ref(reference)) {
            Ok(c) => c,
            Err(e) => return Err(unresolved("Failed to get reference branch commit", &e)),
        };
        match vcs::ahead_behind(&self.repo, vcs::commit_id(&tip), vcs::commit_id(&other)) {
            Ok(x) => Ok(x),
            Err(e) => Err(storage("Failed to calculate ahead/behind counts", &e)),
        }
    }

    /// Commits reachable from `branch` only and from the main branch only;
    /// without a `main` or `master` branch, `NoMainBranch`.
    pub fn get_distance_from_main(&self, branch: &Branch<'_>) -> (r: Result<(usize, usize), GitError>)
        ensures
            r matches Err(e) ==> graph_error(e),
    {
        let main = match self.main_branch() {
            Ok(x) => x,
            Err(e) => return Err(e),
        };
        self.distance_between(branch, &main)
    }

    /// The time of the oldest commit reachable from `tip` and not from `base`.
    fn first_own_time(&self, base: Oid, tip: Oid) -> (r: Result<Option<i64>, GitError>)
        ensures
            r matches Err(e) ==> e is Unresolved || e is Storage,
    {
        let mut own = match vcs::revwalk(&self.repo) {
            Ok(w) => w,
            Err(e) => return Err(storage("Failed to walk history", &e)),
        };
        match vcs::walk_sorting(&mut own, OLDEST_FIRST) {
            Ok(()) => {},
            Err(e) => return Err(storage("Failed to walk history", &e)),
        }
        match vcs::walk_range(&mut own, base, tip) {
            Ok(()) => {},
            Err(e) => return Err(storage("Failed to walk history", &e)),
        }
        match vcs::walk_next(&mut own) {
            Some(Ok(first)) => match vcs::find_commit(&self.repo, first) {
                Ok(c) => Ok(Some(vcs::commit_seconds(&c))),
                Err(e) => Err(unresolved("Failed to find commit", &e)),
            },
            Some(Err(e)) => Err(storage("Failed to walk history", &e)),
            None => Ok(None),
        }
    }

    /// What the commit graph says of `branch`, before defaults apply.
    pub fn read_branch(&self, branch: &Branch<'_>) -> (r: Result<BranchReading, GitError>)
        ensures
            r matches Err(e) ==> graph_error(e),
    {
        let name = match vcs::branch_name(branch) {
            Ok(n) => n,
            Err(e) => return Err(unresolved("Failed to read branch name", &e)),
        };
        let tip = match vcs::peel_to_commit(vcs::branch_ref(branch)) {
            Ok(c) => c,
            Err(e) => return Err(unresolved("Failed to get branch commit", &e)),
        };
        let tip_id = vcs::commit_id(&tip);
        let tip_time = vcs::commit_seconds(&tip);
        let mut walk = match vcs::revwalk(&self.repo) {
            Ok(w) => w,
            Err(e) => return Err(storage("Failed to walk history", &e)),
        };
        match vcs::walk_from(&mut walk, tip_id) {
            Ok(()) => {},
            Err(e) => return Err(storage("Failed to walk history", &e)),
        }
        let commit_count = vcs::walk_count(walk);
        let main = match self.main_branch() {
            Ok(x) => x,
            Err(e) => return Err(e),
        };
        let (ahead, behind) = match self.distance_between(branch, &main) {
            Ok(x) => x,
            Err(e) => return Err(e),
        };
        let main_tip = match vcs::peel_to_commit(vcs::branch_ref(&main)) {
            Ok(c) => c,
            Err(e) => return Err(unresolved("Failed to get main branch commit", &e)),
        };
        let base = match vcs::merge_base(&self.repo, tip_id, vcs::commit_id(&main_tip)) {
            Ok(b) => b,
            Err(e) => return Err(unresolved("Failed to find merge base", &e)),
        };
        let first_own_time = match self.first_own_time(base, tip_id) {
            Ok(x) => x,
            Err(e) => return Err(e),
        };
        let author = vcs::author_name(&tip);
        Ok(BranchReading { name, author, tip_time, first_own_time, commit_count, ahead, behind })
    }

    /// What the commit graph says of `branch`, with the defaults applied.
    pub fn branch_facts(&self, branch: &Branch<'_>) -> (r: Result<BranchFacts, GitError>)
        ensures
            r matches Ok(f) ==> from_reading(f),
            r matches Err(e) ==> graph_error(e),
    {
        let rd = match self.read_branch(branch) {
            Ok(x) => x,
            Err(e) => return Err(e),
        };
        let ghost g = rd;
        let f = facts_from_reading(rd);
        assert(facts_match(f, g));
        assert(from_reading(f));
        Ok(f)
    }

    /// The health of `branch` now.
    pub fn analyze_branch(&self, branch: &Branch<'_>) -> (r: Result<BranchHealth, GitError>)
        ensures
            r matches Ok(h) ==> self.analysed(h),
            r matches Err(e) ==> graph_error(e) || e is Clock,
    {
        let rd = match self.read_branch(branch) {
            Ok(x) => x,
            Err(e) => return Err(e),
        };
        let ghost g = rd;
        let facts = facts_from_reading(rd);
        let now = match self.now() {
            Ok(x) => x,
            Err(e) => return Err(e),
        };
        if now.checked_sub(facts.tip_time).is_none() || now.checked_sub(facts.age_time).is_none() {
            return Err(GitError::Clock);
        }
        let h = health_from_facts(&facts, now, self.inactive_days, self.stale_days);
        assert(facts_match(facts, g) && h.describes(facts, now as int, self.spec_inactive_days(), self.spec_stale_days()));
        Ok(h)
    }

    /// `h` is the health, at some time, of a branch as read from the graph.
    pub open spec fn analysed(&self, h: BranchHealth) -> bool {
        exists|rd: BranchReading, f: BranchFacts, now: int|
            facts_match(f, rd) && h.describes(f, now, self.spec_inactive_days(), self.spec_stale_days())
    }

    /// Every successful outcome is the health of a branch as read from the graph.
    pub open spec fn all_analysed(&self, outs: Seq<Result<BranchHealth, GitError>>) -> bool {
        forall|i: int| 0 <= i < outs.len() ==> (#[trigger] outs[i] matches Ok(h) ==> self.analysed(h))
    }

    /// Appends the outcome of analysing each branch of one kind, in listing order.
    fn scan(&self, remote: bool, out: &mut Vec<Result<BranchHealth, GitError>>) -> (r: Result<(), GitError>)
        requires
            self.all_analysed(old(out)@),
        ensures
            self.all_analysed(final(out)@),
            final(out)@.len() >= old(out)@.len(),
            final(out)@.subrange(0, old(out)@.len() as int) == old(out)@,
            r matches Err(e) ==> e matches GitError::Storage(m) && (names_step(m@, STEP_LIST@)
                || names_step(m@, STEP_READ@)),
    {
        let ghost start = out@;
        assert(out@.subrange(0, start.len() as int) =~= start);
        let branches = match vcs::branch_list(&self.repo, remote) {
            Ok(b) => b,
            Err(e) => return Err(storage(STEP_LIST, &e)),
        };
        let mut i: usize = 0;
        assert(out@.subrange(0, start.len() as int) =~= start);
        while i < branches.len()
            invariant
                i <= branches@.len(),
                self.all_analysed(out@),
                start == old(out)@,
                out@.len() >= start.len(),
                out@.subrange(0, start.len() as int) == start,
            decreases branches@.len() - i,
        {
            match &branches[i] {
                Ok(b) => {
                    let outcome = self.analyze_branch(b);
                    let ghost before = out@;
                    out.push(outcome);
                    assert(forall|j: int| 0 <= j < before.len() ==> out@[j] == before[j]);
                    assert(out@.subrange(0, start.len() as int) =~= before.subrange(0, start.len() as int));
                },
                Err(e) => return Err(storage(STEP_READ, e)),
            }
            i = i + 1;
        }
        Ok(())
    }

    /// The health of every branch in scope (local, remote, or local then
    /// remote) whose analysis succeeds and that passes the filters, in
    /// listing order. A branch whose analysis fails is skipped. Without a
    /// `main` or `master` branch the whole scan fails with `NoMainBranch`.
    pub fn analyze_branches(
        &self,
        filter: BranchFilter,
        max_days: Option<u32>,
        author: Option<String>,
    ) -> (r: Result<Vec<BranchHealth>, GitError>)
        ensures
            r matches Ok(hs) ==> exists|outs: Seq<Result<BranchHealth, GitError>>, kinds: Seq<bool>|
                hs@ == kept(outs, max_days, author) && self.all_analysed(outs) && in_scope_order(
                    kinds,
                    outs.len(),
                    filter,
                ),
            r matches Ok(hs) ==> self.reports(hs@, max_days, author),
            r matches Err(e) ==> e is NoMainBranch || (e matches GitError::Storage(m) && (
            names_step(m@, STEP_LIST@) || names_step(m@, STEP_READ@))),
    {
        let _main = match self.main_branch() {
            Ok(x) => x,
            Err(e) => return Err(e),
        };
        let kinds = scope_of(filter);
        let mut outcomes: Vec<Result<BranchHealth, GitError>> = Vec::new();
        let ghost mut tags: Seq<bool> = Seq::empty();
        let mut k: usize = 0;
        while k < kinds.len()
            invariant
                k <= kinds@.len(),
                kinds@ == scope_kinds(filter),
                self.all_analysed(outcomes@),
                tags.len() == outcomes@.len(),
                forall|i: int| 0 <= i < tags.len() ==> exists|j: int|
                    0 <= j < k && #[trigger] tags[i] == kinds@[j],
                in_scope_order(tags, outcomes@.len(), filter),
            decreases kinds@.len() - k,
        {
            let ghost n0 = outcomes@.len();
            let ghost t0 = tags;
            match self.scan(kinds[k], &mut outcomes) {
                Ok(()) => {},
                Err(e) => return Err(e),
            }
            proof {
                let kk = kinds@[k as int];
                tags = t0 + Seq::new((outcomes@.len() - n0) as nat, |_i: int| kk);
                assert forall|i: int| 0 <= i < tags.len() implies exists|j: int|
                    0 <= j < k + 1 && #[trigger] tags[i] == kinds@[j] by {
                    if i < t0.len() {
                        assert(tags[i] == t0[i]);
                    } else {
                        assert(tags[i] == kinds@[k as int]);
                    }
                }
                assert forall|i: int, j: int| 0 <= i < j < tags.len() && #[trigger] tags[i]
                    implies #[trigger] tags[j] by {
                    if j < t0.len() {
                        assert(tags[i] == t0[i] && tags[j] == t0[j]);
                    } else if i < t0.len() {
                        assert(tags[i] == t0[i]);
                        let jj = choose|jj: int| 0 <= jj < k && t0[i] == kinds@[jj];
                        assert(kinds@[jj]);
                        assert(tags[j] == kinds@[k as int]);
                    } else {
                        assert(tags[i] == kinds@[k as int] && tags[j] == kinds@[k as int]);
                    }
                }
                assert forall|i: int| 0 <= i < tags.len() implies scope_kinds(filter).contains(
                    #[trigger] tags[i],
                ) by {
                    let jj = choose|jj: int| 0 <= jj < k + 1 && tags[i] == kinds@[jj];
                    assert(scope_kinds(filter)[jj] == tags[i]);
                }
            }
            k = k + 1;
        }
        let hs = select(&outcomes, max_days, &author);
        assert(in_scope_order(tags, outcomes@.len(), filter));
        proof {
            lemma_kept_reports(self, outcomes@, max_days, author);
        }
        Ok(hs)
    }

    /// Every entry passes the filters and is the health of some branch.
    pub open spec fn reports(&self, hs: Seq<BranchHealth>, max_days: Option<u32>, author: Option<String>) -> bool {
        forall|j: int| 0 <= j < hs.len() ==> {
            &&& passes(#[trigger] hs[j], max_days, author)
            &&& self.analysed(hs[j])
        }
    }
}

/// What a scan keeps passes the filters and comes from a successful analysis.
proof fn lemma_kept_reports(
    a: &BranchAnalyzer,
    outs: Seq<Result<BranchHealth, GitError>>,
    max_days: Option<u32>,
    author: Option<String>,
)
    requires
        a.all_analysed(outs),
    ensures
        a.reports(kept(outs, max_days, author), max_days, author),
    decreases outs.len(),
{
    if outs.len() > 0 {
        let pre = outs.drop_last();
        assert forall|i: int| 0 <= i < pre.len() implies (#[trigger] pre[i] matches Ok(h) ==> a.analysed(h)) by {
            assert(pre[i] == outs[i]);
        }
        lemma_kept_reports(a, pre, max_days, author);
        assert(outs.last() == outs[outs.len() - 1]);
    }
}

} // verus!
