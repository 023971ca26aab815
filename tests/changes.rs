use gyst::changes::{classify_statuses, has_staged_entry, StatusEntry};

fn entry(bits: u32, path: &str) -> StatusEntry {
    StatusEntry { bits, path: Some(path.to_string()), rename: None }
}

#[test]
fn classifies_each_kind_once() {
    let entries = vec![
        entry(1, "new.rs"),
        entry(2, "changed.rs"),
        entry(4, "gone.rs"),
        StatusEntry {
            bits: 8,
            path: Some("b.rs".to_string()),
            rename: Some((Some("a.rs".to_string()), Some("b.rs".to_string()))),
        },
        entry(1 | 2, "both.rs"),
    ];
    let c = classify_statuses(&entries);
    assert_eq!(c.added, vec!["new.rs".to_string(), "both.rs".to_string()]);
    assert_eq!(c.modified, vec!["changed.rs".to_string()]);
    assert_eq!(c.deleted, vec!["gone.rs".to_string()]);
    assert_eq!(c.renamed, vec![("a.rs".to_string(), "b.rs".to_string())]);
    assert_eq!(c.stats.files_changed, 5);
    assert_eq!(c.stats.insertions, 0);
    assert_eq!(c.stats.deletions, 0);
}

#[test]
fn files_changed_equals_list_lengths() {
    let entries = vec![entry(1, "a"), entry(16, "typechange"), entry(4, "b"), entry(512, "worktree")];
    let c = classify_statuses(&entries);
    let total = c.added.len() + c.modified.len() + c.deleted.len() + c.renamed.len();
    assert_eq!(c.stats.files_changed, total);
    assert_eq!(total, 3);
    assert_eq!(c.modified, vec!["typechange".to_string()]);
}

#[test]
fn unresolved_rename_paths_become_unknown() {
    let entries = vec![StatusEntry { bits: 8, path: None, rename: Some((None, Some("x".to_string()))) }];
    let c = classify_statuses(&entries);
    assert_eq!(c.renamed, vec![("unknown".to_string(), "x".to_string())]);
    assert_eq!(c.stats.files_changed, 1);
}

#[test]
fn rename_without_delta_is_unknown() {
    let entries = vec![StatusEntry { bits: 8, path: Some("x".to_string()), rename: None }];
    let c = classify_statuses(&entries);
    assert_eq!(c.renamed, vec![("unknown".to_string(), "unknown".to_string())]);
    assert_eq!(c.stats.files_changed, 1);
}

#[test]
fn missing_path_is_empty() {
    let entries = vec![StatusEntry { bits: 1, path: None, rename: None }];
    let c = classify_statuses(&entries);
    assert_eq!(c.added, vec![String::new()]);
}

#[test]
fn empty_listing_has_no_changes() {
    let c = classify_statuses(&Vec::new());
    assert!(c.added.is_empty() && c.modified.is_empty() && c.deleted.is_empty() && c.renamed.is_empty());
    assert_eq!(c.stats.files_changed, 0);
    assert!(!has_staged_entry(&Vec::new()));
}

#[test]
fn staged_flags_are_detected() {
    assert!(has_staged_entry(&vec![entry(128, "w"), entry(16, "t")]));
    assert!(!has_staged_entry(&vec![entry(128, "w"), entry(256, "x")]));
}
