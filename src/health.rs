use vstd::prelude::*;
use vstd::string::*;
use crate::errors::GitError;
use crate::timing::TimeAgo;

verus! {

/// Days without activity from which a branch needs attention, by default.
pub const DEFAULT_INACTIVE_DAYS: u32 = 7;
/// Days without activity from which a branch is stale, by default.
pub const DEFAULT_STALE_DAYS: u32 = 30;

/// The health verdict of a branch.
#[derive(Debug, Clone, Copy, PartialEq, Eq, Structural)]
pub enum BranchStatus {
    Healthy,
    NeedsAttention,
    Stale,
}

/// Which branches a health scan covers.
#[derive(Debug, Clone, Copy, PartialEq, Eq, Structural)]
pub enum BranchFilter {
    All,
    Local,
    Remote,
}

/// The health of one branch.
#[derive(Debug, Clone)]
pub struct BranchHealth {
    pub name: String,
    pub status: BranchStatus,
    pub last_activity: TimeAgo,
    pub last_activity_display: String,
    pub age_display: String,
    pub author: String,
    /// Commits reachable from the tip, the tip included.
    pub commit_count: u32,
    /// Commits reachable from the tip and not from the main branch.
    pub ahead_count: u32,
    /// Commits reachable from the main branch and not from the tip.
    pub behind_count: u32,
}

/// What the commit graph says of one branch, as plain values.
#[derive(Debug, Clone)]
pub struct BranchFacts {
    pub name: String,
    /// The tip commit's author.
    pub author: String,
    /// The tip commit's time, in seconds since the epoch.
    pub tip_time: i64,
    /// The time of the branch's first own commit, or of its tip when it has none.
    pub age_time: i64,
    pub commit_count: usize,
    pub ahead: usize,
    pub behind: usize,
}

/// What stands in for a branch or author name that is not text.
pub const UNKNOWN_NAME: &'static str = "unknown";

/// What was read of a branch from the commit graph, before defaults apply.
#[derive(Debug, Clone)]
pub struct BranchReading {
    /// The branch name, when it is text.
    pub name: Option<String>,
    /// The tip's author name, when it is text.
    pub author: Option<String>,
    pub tip_time: i64,
    /// The time of the oldest commit reachable from the tip and not from the
    /// merge base with the main branch, when there is one.
    pub first_own_time: Option<i64>,
    pub commit_count: usize,
    pub ahead: usize,
    pub behind: usize,
}

pub open spec fn or_unknown_text(n: Option<String>) -> Seq<char> {
    match n {
        Some(s) => s@,
        None => UNKNOWN_NAME@,
    }
}

/// A name, or the placeholder when it is missing.
pub fn or_unknown(n: Option<String>) -> (r: String)
    ensures
        r@ == or_unknown_text(n),
{
    match n {
        Some(s) => s,
        None => String::from_str(UNKNOWN_NAME),
    }
}

pub open spec fn spec_age_time(first_own: Option<i64>, tip_time: i64) -> i64 {
    match first_own {
        Some(t) => t,
        None => tip_time,
    }
}

/// A branch's age runs from its oldest own commit; without one, from its tip.
pub fn age_time_of(first_own: Option<i64>, tip_time: i64) -> (r: i64)
    ensures
        r == spec_age_time(first_own, tip_time),
{
    match first_own {
        Some(t) => t,
        None => tip_time,
    }
}

/// `f` is what `rd` says of the branch once the defaults apply.
pub open spec fn facts_match(f: BranchFacts, rd: BranchReading) -> bool {
    &&& f.name@ == or_unknown_text(rd.name)
    &&& f.author@ == or_unknown_text(rd.author)
    &&& f.tip_time == rd.tip_time
    &&& f.age_time == spec_age_time(rd.first_own_time, rd.tip_time)
    &&& f.commit_count == rd.commit_count
    &&& f.ahead == rd.ahead
    &&& f.behind == rd.behind
}

/// Applies the defaults: "unknown" for a missing name or author, and the
/// tip's time as the age of a branch with no commit of its own.
pub fn facts_from_reading(rd: BranchReading) -> (f: BranchFacts)
    ensures
        facts_match(f, rd),
{
    let age_time = age_time_of(rd.first_own_time, rd.tip_time);
    BranchFacts {
        name: or_unknown(rd.name),
        author: or_unknown(rd.author),
        tip_time: rd.tip_time,
        age_time,
        commit_count: rd.commit_count,
        ahead: rd.ahead,
        behind: rd.behind,
    }
}

/// The verdict for a number of idle days, given the two thresholds.
pub open spec fn status_for(days: u32, inactive_days: u32, stale_days: u32) -> BranchStatus {
    if days >= stale_days {
        BranchStatus::Stale
    } else if days >= inactive_days {
        BranchStatus::NeedsAttention
    } else {
        BranchStatus::Healthy
    }
}

/// Classifies a branch by its idle days: stale from `stale_days` on, else in
/// need of attention from `inactive_days` on, else healthy.
pub fn classify_activity(days: u32, inactive_days: u32, stale_days: u32) -> (r: BranchStatus)
    ensures
        r == status_for(days, inactive_days, stale_days),
{
    if days >= stale_days {
        BranchStatus::Stale
    } else if days >= inactive_days {
        BranchStatus::NeedsAttention
    } else {
        BranchStatus::Healthy
    }
}

/// With the default thresholds a branch is stale exactly from 30 idle days
/// on, needs attention exactly from 7 up to 29, and is healthy below 7.
pub proof fn lemma_default_thresholds(days: u32)
    ensures
        (status_for(days, DEFAULT_INACTIVE_DAYS, DEFAULT_STALE_DAYS) == BranchStatus::Stale)
            <==> days >= 30,
        (status_for(days, DEFAULT_INACTIVE_DAYS, DEFAULT_STALE_DAYS)
            == BranchStatus::NeedsAttention) <==> (7 <= days && days < 30),
        (status_for(days, DEFAULT_INACTIVE_DAYS, DEFAULT_STALE_DAYS) == BranchStatus::Healthy)
            <==> days < 7,
{
}

impl BranchHealth {
    /// `self` is the health of the branch that `f` describes, at time `now`.
    pub open spec fn describes(
        self,
        f: BranchFacts,
        now: int,
        inactive_days: u32,
        stale_days: u32,
    ) -> bool {
        &&& self.name@ == f.name@
        &&& self.author@ == f.author@
        &&& self.last_activity == TimeAgo::spec_from_seconds(now - f.tip_time)
        &&& self.last_activity_display@ == self.last_activity.spec_to_string()
        &&& self.age_display@ == TimeAgo::spec_from_seconds(now - f.age_time).spec_to_string()
        &&& self.status == status_for(self.last_activity.days, inactive_days, stale_days)
        &&& self.commit_count == f.commit_count as u32
        &&& self.ahead_count == f.ahead as u32
        &&& self.behind_count == f.behind as u32
    }
}

/// Whether `now - t` fits an `i64`.
pub open spec fn elapsed_fits(now: int, t: int) -> bool {
    i64::MIN <= now - t <= i64::MAX
}

/// The health of a branch at time `now`: its idle time since the tip commit,
/// its age since its first own commit, and the verdict for its idle days.
pub fn health_from_facts(f: &BranchFacts, now: i64, inactive_days: u32, stale_days: u32) -> (r:
    BranchHealth)
    requires
        elapsed_fits(now as int, f.tip_time as int),
        elapsed_fits(now as int, f.age_time as int),
    ensures
        r.describes(*f, now as int, inactive_days, stale_days),
{
    let last_activity = TimeAgo::from_seconds(now - f.tip_time);
    let age = TimeAgo::from_seconds(now - f.age_time);
    let status = classify_activity(last_activity.days, inactive_days, stale_days);
    BranchHealth {
        name: f.name.clone(),
        status,
        last_activity,
        last_activity_display: last_activity.to_string(),
        age_display: age.to_string(),
        author: f.author.clone(),
        commit_count: #[verifier::truncate] (f.commit_count as u32),
        ahead_count: #[verifier::truncate] (f.ahead as u32),
        behind_count: #[verifier::truncate] (f.behind as u32),
    }
}

/// Health is a function of the branch's facts and the clock: two results
/// for the same facts, time and thresholds agree in every field.
pub proof fn lemma_health_is_determined(
    a: BranchHealth,
    b: BranchHealth,
    f: BranchFacts,
    now: int,
    inactive_days: u32,
    stale_days: u32,
)
    requires
        a.describes(f, now, inactive_days, stale_days),
        b.describes(f, now, inactive_days, stale_days),
    ensures
        a.name@ == b.name@,
        a.author@ == b.author@,
        a.status == b.status,
        a.last_activity == b.last_activity,
        a.last_activity_display@ == b.last_activity_display@,
        a.age_display@ == b.age_display@,
        a.commit_count == b.commit_count,
        a.ahead_count == b.ahead_count,
        a.behind_count == b.behind_count,
{
}

/// Every branch health computed with the default thresholds is stale
/// exactly from 30 idle days, needs attention exactly from 7 to 29, and is
/// healthy otherwise.
pub proof fn lemma_status_thresholds(h: BranchHealth, f: BranchFacts, now: int)
    requires
        h.describes(f, now, DEFAULT_INACTIVE_DAYS, DEFAULT_STALE_DAYS),
    ensures
        (h.status == BranchStatus::Stale) <==> h.last_activity.days >= 30,
        (h.status == BranchStatus::NeedsAttention) <==> (7 <= h.last_activity.days
            && h.last_activity.days < 30),
        (h.status == BranchStatus::Healthy) <==> h.last_activity.days < 7,
{
    lemma_default_thresholds(h.last_activity.days);
}

/// A branch passes the filter when it has been idle at most `max_days` (if
/// given) and its author is exactly `author` (if given).
pub open spec fn passes(h: BranchHealth, max_days: Option<u32>, author: Option<String>) -> bool {
    &&& (max_days matches Some(d) ==> h.last_activity.days <= d)
    &&& (author matches Some(a) ==> h.author@ == a@)
}

/// Applies the optional idle-days and author filters to one branch.
pub fn passes_filter(h: &BranchHealth, max_days: Option<u32>, author: &Option<String>) -> (r: bool)
    ensures
        r == passes(*h, max_days, *author),
{
    match max_days {
        Some(d) => {
            if h.last_activity.days > d {
                return false;
            }
        },
        None => {},
    }
    match author {
        Some(a) => h.author == *a,
        None => true,
    }
}

impl BranchHealth {
    /// A copy equal in every field.
    pub fn duplicate(&self) -> (r: BranchHealth)
        ensures
            r == *self,
    {
        BranchHealth {
            name: self.name.clone(),
            status: self.status,
            last_activity: self.last_activity,
            last_activity_display: self.last_activity_display.clone(),
            age_display: self.age_display.clone(),
            author: self.author.clone(),
            commit_count: self.commit_count,
            ahead_count: self.ahead_count,
            behind_count: self.behind_count,
        }
    }
}

/// The branches kept from a scan's outcomes: those analysed successfully
/// that pass the filters, in order; failed analyses are skipped.
pub open spec fn kept(
    outs: Seq<Result<BranchHealth, GitError>>,
    max_days: Option<u32>,
    author: Option<String>,
) -> Seq<BranchHealth>
    decreases outs.len(),
{
    if outs.len() == 0 {
        Seq::empty()
    } else {
        let prev = kept(outs.drop_last(), max_days, author);
        match outs.last() {
            Ok(h) => if passes(h, max_days, author) {
                prev.push(h)
            } else {
                prev
            },
            Err(_) => prev,
        }
    }
}

/// Keeps the successfully analysed branches that pass the filters, in order.
pub fn select(
    outcomes: &Vec<Result<BranchHealth, GitError>>,
    max_days: Option<u32>,
    author: &Option<String>,
) -> (r: Vec<BranchHealth>)
    ensures
        r@ == kept(outcomes@, max_days, *author),
{
    let mut out: Vec<BranchHealth> = Vec::new();
    let mut i: usize = 0;
    assert(out@ =~= kept(outcomes@.subrange(0, 0), max_days, *author));
    while i < outcomes.len()
        invariant
            i <= outcomes@.len(),
            out@ == kept(outcomes@.subrange(0, i as int), max_days, *author),
        decreases outcomes@.len() - i,
    {
        assert(outcomes@.subrange(0, i as int + 1).drop_last() =~= outcomes@.subrange(0, i as int));
        assert(outcomes@.subrange(0, i as int + 1).last() == outcomes@[i as int]);
        match &outcomes[i] {
            Ok(h) => {
                if passes_filter(h, max_days, author) {
                    out.push(h.duplicate());
                }
            },
            Err(_) => {},
        }
        i = i + 1;
    }
    assert(outcomes@.subrange(0, outcomes@.len() as int) =~= outcomes@);
    out
}

/// Two scans whose branches gave the same outcomes, with the same filters,
/// report the same list.
pub proof fn lemma_same_outcomes_same_report(
    outs: Seq<Result<BranchHealth, GitError>>,
    max_days: Option<u32>,
    author: Option<String>,
    a: Seq<BranchHealth>,
    b: Seq<BranchHealth>,
)
    requires
        a == kept(outs, max_days, author),
        b == kept(outs, max_days, author),
    ensures
        a == b,
{
}

/// The branches idle at most `d` days, in order.
pub open spec fn within(hs: Seq<BranchHealth>, d: u32) -> Seq<BranchHealth>
    decreases hs.len(),
{
    if hs.len() == 0 {
        Seq::empty()
    } else {
        let prev = within(hs.drop_last(), d);
        if hs.last().last_activity.days <= d {
            prev.push(hs.last())
        } else {
            prev
        }
    }
}

/// A smaller day limit keeps exactly those branches of the larger limit's
/// result that are idle at most the smaller limit, in the same order.
pub proof fn lemma_narrower_limit(
    outs: Seq<Result<BranchHealth, GitError>>,
    d1: u32,
    d2: u32,
    author: Option<String>,
)
    requires
        d1 <= d2,
    ensures
        kept(outs, Some(d1), author) == within(kept(outs, Some(d2), author), d1),
    decreases outs.len(),
{
    if outs.len() > 0 {
        lemma_narrower_limit(outs.drop_last(), d1, d2, author);
        let prev = kept(outs.drop_last(), Some(d2), author);
        match outs.last() {
            Ok(h) => {
                if passes(h, Some(d2), author) {
                    assert(prev.push(h).drop_last() =~= prev);
                }
            },
            Err(_) => {},
        }
    }
}

/// The branch kinds a scope lists, in order; `true` stands for remote.
pub open spec fn scope_kinds(f: BranchFilter) -> Seq<bool> {
    match f {
        BranchFilter::All => seq![false, true],
        BranchFilter::Local => seq![false],
        BranchFilter::Remote => seq![true],
    }
}

/// The branch kinds a scope lists: local, remote, or local then remote.
pub fn scope_of(f: BranchFilter) -> (r: Vec<bool>)
    ensures
        r@ == scope_kinds(f),
{
    let mut v: Vec<bool> = Vec::new();
    match f {
        BranchFilter::All => {
            v.push(false);
            v.push(true);
        },
        BranchFilter::Local => v.push(false),
        BranchFilter::Remote => v.push(true),
    }
    assert(v@ =~= scope_kinds(f));
    v
}

} // verus!
