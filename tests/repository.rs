use git2::{Oid, Repository, Signature, Time};
use gyst::analyzer::BranchAnalyzer;
use gyst::errors::GitError;
use gyst::health::{BranchFilter, BranchStatus};
use gyst::hunks::render_diff;
use gyst::repo::GitRepo;
use std::io::Write;
use std::path::Path;

const DAY: i64 = 86400;

fn now() -> i64 {
    std::time::SystemTime::now().duration_since(std::time::UNIX_EPOCH).unwrap().as_secs() as i64
}

fn commit_at(repo: &Repository, refname: &str, parents: &[Oid], file: &str, seconds: i64) -> Oid {
    let sig = Signature::new("Ada", "ada@example.com", &Time::new(seconds, 0)).unwrap();
    let blob = repo.blob(format!("{} {}", file, seconds).as_bytes()).unwrap();
    let mut tb = match parents.first() {
        Some(p) => repo.treebuilder(Some(&repo.find_commit(*p).unwrap().tree().unwrap())).unwrap(),
        None => repo.treebuilder(None).unwrap(),
    };
    tb.insert(file, blob, 0o100644).unwrap();
    let tree = repo.find_tree(tb.write().unwrap()).unwrap();
    let parent_commits: Vec<git2::Commit> = parents.iter().map(|p| repo.find_commit(*p).unwrap()).collect();
    let refs: Vec<&git2::Commit> = parent_commits.iter().collect();
    repo.commit(Some(refname), &sig, &sig, "work", &tree, &refs).unwrap()
}

fn write_file(dir: &Path, name: &str, text: &str) {
    let mut f = tempfile::NamedTempFile::new_in(dir).unwrap();
    f.write_all(text.as_bytes()).unwrap();
    f.persist(dir.join(name)).unwrap();
}

/// main: one commit 20 days ago, one 2 days ago; feature-x: three commits
/// of its own, 10 days ago, on top of the first.
fn diverged_repo(dir: &Path) -> Repository {
    let repo = Repository::init(dir).unwrap();
    let t = now();
    let base = commit_at(&repo, "refs/heads/main", &[], "base.txt", t - 20 * DAY);
    let mut tip = base;
    for i in 0..3 {
        tip = commit_at(&repo, "refs/heads/feature-x", &[tip], &format!("f{}.txt", i), t - 10 * DAY - 60 + i);
    }
    let m = commit_at(&repo, "refs/heads/main", &[base], "m1.txt", t - 3 * DAY);
    commit_at(&repo, "refs/heads/main", &[m], "m2.txt", t - 2 * DAY);
    repo
}

#[test]
fn new_file_in_empty_repository_is_added() {
    let dir = tempfile::tempdir().unwrap();
    let raw = Repository::init(dir.path()).unwrap();
    write_file(dir.path(), "hello.txt", "hello\nworld\n");
    let mut index = raw.index().unwrap();
    index.add_path(Path::new("hello.txt")).unwrap();
    index.write().unwrap();

    let repo = GitRepo::open(dir.path().to_str().unwrap()).unwrap();
    assert!(repo.has_staged_changes().unwrap());
    assert!(repo.has_any_changes().unwrap());
    let changes = repo.get_staged_changes().unwrap();
    assert_eq!(changes.added, vec!["hello.txt".to_string()]);
    assert!(changes.renamed.is_empty());
    assert!(changes.modified.is_empty() && changes.deleted.is_empty());
    assert_eq!(changes.stats.files_changed, 1);
    assert_eq!(changes.stats.insertions, 2);
    assert_eq!(changes.stats.deletions, 0);
    let hunks = repo.get_structured_diff().unwrap();
    assert_eq!(hunks.len(), 1);
    assert_eq!(render_diff(&hunks), format!("{}hello\nworld\n", hunks[0].header));
    assert_eq!(hunks[0].lines.iter().filter(|l| l.origin == '+').count(), 2);
}

#[test]
fn commit_then_nothing_is_staged() {
    let dir = tempfile::tempdir().unwrap();
    let raw = Repository::init(dir.path()).unwrap();
    let mut cfg = raw.config().unwrap();
    cfg.set_str("user.name", "Ada").unwrap();
    cfg.set_str("user.email", "ada@example.com").unwrap();
    write_file(dir.path(), "a.txt", "a\n");
    let repo = GitRepo::open(dir.path().to_str().unwrap()).unwrap();
    assert!(!repo.has_staged_changes().unwrap());
    repo.stage_all().unwrap();
    assert!(repo.has_staged_changes().unwrap());
    let id = repo.create_commit("feat: first").unwrap();
    assert_eq!(raw.head().unwrap().target(), Some(id));
    assert!(!repo.has_staged_changes().unwrap());
    assert!(repo.get_structured_diff().unwrap().is_empty());
}

#[test]
fn open_outside_repository_fails() {
    let dir = tempfile::tempdir().unwrap();
    match GitRepo::open(dir.path().join("missing").to_str().unwrap()) {
        Err(GitError::RepositoryNotFound(_)) => {}
        Err(e) => panic!("unexpected error {:?}", e),
        Ok(_) => {}
    }
}

#[test]
fn diverged_branch_needs_attention() {
    let dir = tempfile::tempdir().unwrap();
    let _repo = diverged_repo(dir.path());
    let analyzer = BranchAnalyzer::new(dir.path().to_str().unwrap()).unwrap();
    let branch = analyzer.find_branch("feature-x").unwrap();
    let h = analyzer.analyze_branch(&branch).unwrap();
    assert_eq!(h.name, "feature-x");
    assert_eq!(h.status, BranchStatus::NeedsAttention);
    assert_eq!(h.ahead_count, 3);
    assert_eq!(h.behind_count, 2);
    assert_eq!(h.commit_count, 4);
    assert_eq!(h.last_activity.days, 10);
    assert_eq!(h.age_display, "10 days");
    assert_eq!(h.author, "Ada");
}

#[test]
fn ahead_and_behind_swap() {
    let dir = tempfile::tempdir().unwrap();
    let _repo = diverged_repo(dir.path());
    let analyzer = BranchAnalyzer::new(dir.path().to_str().unwrap()).unwrap();
    let feature = analyzer.find_branch("feature-x").unwrap();
    let main = analyzer.find_branch("main").unwrap();
    assert_eq!(analyzer.distance_between(&feature, &main).unwrap(), (3, 2));
    assert_eq!(analyzer.distance_between(&main, &feature).unwrap(), (2, 3));
}

#[test]
fn health_scan_is_repeatable() {
    let dir = tempfile::tempdir().unwrap();
    let _repo = diverged_repo(dir.path());
    let analyzer = BranchAnalyzer::new(dir.path().to_str().unwrap()).unwrap();
    let a = analyzer.analyze_branches(BranchFilter::Local, None, None).unwrap();
    let b = analyzer.analyze_branches(BranchFilter::Local, None, None).unwrap();
    assert_eq!(a.len(), 2);
    let view = |hs: &Vec<gyst::health::BranchHealth>| {
        hs.iter()
            .map(|h| (h.name.clone(), h.status, h.age_display.clone(), h.last_activity_display.clone(), h.author.clone(), h.commit_count, h.ahead_count, h.behind_count))
            .collect::<Vec<_>>()
    };
    assert_eq!(view(&a), view(&b));
    let main = a.iter().find(|h| h.name == "main").unwrap();
    assert_eq!(main.status, BranchStatus::Healthy);
    assert_eq!((main.ahead_count, main.behind_count), (0, 0));
}

#[test]
fn scan_filters_by_days_and_author() {
    let dir = tempfile::tempdir().unwrap();
    let _repo = diverged_repo(dir.path());
    let analyzer = BranchAnalyzer::new(dir.path().to_str().unwrap()).unwrap();
    let recent = analyzer.analyze_branches(BranchFilter::Local, Some(5), None).unwrap();
    assert_eq!(recent.iter().map(|h| h.name.as_str()).collect::<Vec<_>>(), vec!["main"]);
    let nobody = analyzer.analyze_branches(BranchFilter::All, None, Some("Bob".to_string())).unwrap();
    assert!(nobody.is_empty());
    let remote = analyzer.analyze_branches(BranchFilter::Remote, None, None).unwrap();
    assert!(remote.is_empty());
}

#[test]
fn scan_without_main_branch_fails() {
    let dir = tempfile::tempdir().unwrap();
    let repo = Repository::init(dir.path()).unwrap();
    commit_at(&repo, "refs/heads/dev", &[], "a.txt", now() - DAY);
    let analyzer = BranchAnalyzer::new(dir.path().to_str().unwrap()).unwrap();
    match analyzer.analyze_branches(BranchFilter::Local, None, None) {
        Err(GitError::NoMainBranch) => {}
        other => panic!("expected NoMainBranch, got {:?}", other.map(|v| v.len())),
    }
    let dev = analyzer.find_branch("dev").unwrap();
    match analyzer.analyze_branch(&dev) {
        Err(GitError::NoMainBranch) => {}
        other => panic!("expected NoMainBranch, got {:?}", other.map(|h| h.name)),
    }
}

#[test]
fn master_is_the_fallback_main_branch() {
    let dir = tempfile::tempdir().unwrap();
    let repo = Repository::init(dir.path()).unwrap();
    let base = commit_at(&repo, "refs/heads/master", &[], "a.txt", now() - 40 * DAY);
    commit_at(&repo, "refs/heads/old", &[base], "b.txt", now() - 35 * DAY);
    let analyzer = BranchAnalyzer::new(dir.path().to_str().unwrap()).unwrap();
    let hs = analyzer.analyze_branches(BranchFilter::Local, None, None).unwrap();
    let old = hs.iter().find(|h| h.name == "old").unwrap();
    assert_eq!(old.status, BranchStatus::Stale);
    assert_eq!(old.ahead_count, 1);
    assert_eq!(old.age_display, "35 days");
}

#[test]
fn hunks_join_to_the_patch_stream() {
    let dir = tempfile::tempdir().unwrap();
    let raw = Repository::init(dir.path()).unwrap();
    let old: String = (1..=30).map(|i| format!("line {}\n", i)).collect();
    write_file(dir.path(), "a.txt", &old);
    write_file(dir.path(), "b.txt", "one\ntwo\n");
    let mut index = raw.index().unwrap();
    index.add_path(Path::new("a.txt")).unwrap();
    index.add_path(Path::new("b.txt")).unwrap();
    index.write().unwrap();
    let tree = raw.find_tree(index.write_tree().unwrap()).unwrap();
    let sig = Signature::now("Ada", "ada@example.com").unwrap();
    raw.commit(Some("HEAD"), &sig, &sig, "base", &tree, &[]).unwrap();

    let new = old.replace("line 2\n", "line two\n").replace("line 28\n", "");
    write_file(dir.path(), "a.txt", &new);
    write_file(dir.path(), "b.txt", "one\n2\n");
    let mut index = raw.index().unwrap();
    index.add_path(Path::new("a.txt")).unwrap();
    index.add_path(Path::new("b.txt")).unwrap();
    index.write().unwrap();

    let repo = GitRepo::open(dir.path().to_str().unwrap()).unwrap();
    let hunks = repo.get_structured_diff().unwrap();
    assert_eq!(hunks.len(), 2);

    let head_tree = raw.head().unwrap().peel_to_tree().unwrap();
    let diff = raw.diff_tree_to_index(Some(&head_tree), Some(&raw.index().unwrap()), None).unwrap();
    let mut stream = String::new();
    diff.print(git2::DiffFormat::Patch, |_, hunk, line| {
        if hunk.is_some() {
            stream.push_str(&String::from_utf8_lossy(line.content()));
        }
        true
    })
    .unwrap();
    assert_eq!(render_diff(&hunks), stream);

    let changes = repo.get_staged_changes().unwrap();
    assert_eq!(changes.modified, vec!["a.txt".to_string(), "b.txt".to_string()]);
    assert_eq!(changes.stats.files_changed, 2);
    assert_eq!(changes.stats.insertions, 2);
    assert_eq!(changes.stats.deletions, 3);
}

#[test]
fn age_counts_from_the_oldest_own_commit() {
    let dir = tempfile::tempdir().unwrap();
    let repo = Repository::init(dir.path()).unwrap();
    let t = now();
    let base = commit_at(&repo, "refs/heads/main", &[], "base.txt", t - 30 * DAY);
    let first = commit_at(&repo, "refs/heads/topic", &[base], "a.txt", t - 12 * DAY);
    let second = commit_at(&repo, "refs/heads/topic", &[first], "b.txt", t - 8 * DAY);
    commit_at(&repo, "refs/heads/topic", &[second], "c.txt", t - 3 * DAY);
    let analyzer = BranchAnalyzer::new(dir.path().to_str().unwrap()).unwrap();
    let topic = analyzer.find_branch("topic").unwrap();
    let h = analyzer.analyze_branch(&topic).unwrap();
    assert_eq!(h.age_display, "12 days");
    assert_eq!(h.last_activity_display, "3 days");
    assert_eq!(h.status, BranchStatus::Healthy);
    assert_eq!((h.ahead_count, h.behind_count, h.commit_count), (3, 0, 4));
    let main = analyzer.find_branch("main").unwrap();
    let m = analyzer.analyze_branch(&main).unwrap();
    assert_eq!(m.age_display, "30 days");
    assert_eq!(m.status, BranchStatus::Stale);
}
