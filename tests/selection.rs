use gyst::analyzer::pick_main;
use gyst::errors::GitError;
use gyst::health::{
    age_time_of, facts_from_reading, health_from_facts, or_unknown, scope_of, select, BranchFacts,
    BranchFilter, BranchHealth, BranchReading,
};
use gyst::hunks::{events_of, DiffEvent, DiffLine, FilePatch, HunkHeader, PatchHunk};

const NOW: i64 = 1_700_000_000;

fn health(name: &str, idle_days: i64, author: &str) -> BranchHealth {
    let f = BranchFacts {
        name: name.to_string(),
        author: author.to_string(),
        tip_time: NOW - idle_days * 86400,
        age_time: NOW - idle_days * 86400,
        commit_count: 1,
        ahead: 0,
        behind: 0,
    };
    health_from_facts(&f, NOW, 7, 30)
}

fn names(hs: &[BranchHealth]) -> Vec<String> {
    hs.iter().map(|h| h.name.clone()).collect()
}

#[test]
fn select_keeps_passing_successes_in_order() {
    let outs = vec![
        Ok(health("a", 1, "Ada")),
        Err(GitError::Clock),
        Ok(health("b", 20, "Bob")),
        Err(GitError::Unresolved("x".to_string())),
        Ok(health("c", 3, "Ada")),
    ];
    assert_eq!(names(&select(&outs, None, &None)), vec!["a", "b", "c"]);
    assert_eq!(names(&select(&outs, Some(5), &None)), vec!["a", "c"]);
    assert_eq!(names(&select(&outs, None, &Some("Bob".to_string()))), vec!["b"]);
    assert_eq!(names(&select(&outs, Some(2), &Some("Ada".to_string()))), vec!["a"]);
    assert!(select(&Vec::new(), None, &None).is_empty());
}

#[test]
fn smaller_day_limit_gives_a_subsequence() {
    let outs = vec![Ok(health("a", 1, "A")), Ok(health("b", 4, "A")), Ok(health("c", 9, "A"))];
    let wide = select(&outs, Some(9), &None);
    let narrow = select(&outs, Some(4), &None);
    let filtered: Vec<String> = wide.iter().filter(|h| h.last_activity.days <= 4).map(|h| h.name.clone()).collect();
    assert_eq!(names(&narrow), filtered);
    assert_eq!(names(&narrow), vec!["a", "b"]);
}

#[test]
fn scopes_list_local_before_remote() {
    assert_eq!(scope_of(BranchFilter::All), vec![false, true]);
    assert_eq!(scope_of(BranchFilter::Local), vec![false]);
    assert_eq!(scope_of(BranchFilter::Remote), vec![true]);
}

#[test]
fn main_is_preferred_over_master() {
    assert_eq!(pick_main::<i32, ()>(Ok(1), Ok(2)).ok(), Some(1));
    assert_eq!(pick_main::<i32, ()>(Err(()), Ok(2)).ok(), Some(2));
    assert!(matches!(pick_main::<i32, ()>(Err(()), Err(())), Err(GitError::NoMainBranch)));
}

#[test]
fn defaults_for_missing_names_and_own_commits() {
    assert_eq!(or_unknown(None), "unknown");
    assert_eq!(or_unknown(Some("dev".to_string())), "dev");
    assert_eq!(age_time_of(Some(5), 9), 5);
    assert_eq!(age_time_of(None, 9), 9);
    let f = facts_from_reading(BranchReading {
        name: None,
        author: None,
        tip_time: 100,
        first_own_time: None,
        commit_count: 2,
        ahead: 1,
        behind: 0,
    });
    assert_eq!((f.name.as_str(), f.author.as_str(), f.tip_time, f.age_time), ("unknown", "unknown", 100, 100));
    assert_eq!((f.commit_count, f.ahead, f.behind), (2, 1, 0));
}

#[test]
fn stream_of_patches() {
    let header = HunkHeader { old_start: 1, old_lines: 1, new_start: 1, new_lines: 1, header: "@@ h @@\n".to_string() };
    let files = vec![
        FilePatch { hunks: vec![PatchHunk { header, lines: vec![DiffLine { origin: '+', content: "x\n".to_string() }] }] },
        FilePatch { hunks: vec![] },
    ];
    let events = events_of(&files);
    assert_eq!(events.len(), 4);
    assert!(matches!(events[0], DiffEvent::FileStart));
    assert!(matches!(&events[1], DiffEvent::HunkStart(h) if h.header == "@@ h @@\n"));
    assert!(matches!(&events[2], DiffEvent::Line(l) if l.content == "x\n" && l.origin == '+'));
    assert!(matches!(events[3], DiffEvent::FileStart));
}
