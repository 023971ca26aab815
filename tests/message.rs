use gyst::changes::{DiffStats, StagedChanges};
use gyst::message::{clean_commit_message, commit_prompt, first_text, ContentPart};

#[test]
fn strips_preamble_before_type() {
    assert_eq!(
        clean_commit_message("Based on the changes, here is:\n\nfeat(cli): add flag \n"),
        "feat(cli): add flag"
    );
}

#[test]
fn earlier_type_in_list_wins() {
    assert_eq!(clean_commit_message("fix: this feature"), "feature");
    assert_eq!(clean_commit_message("Sure! docs: update readme"), "docs: update readme");
}

#[test]
fn no_type_only_trims() {
    assert_eq!(clean_commit_message("  \tupdate things\n"), "update things");
    assert_eq!(clean_commit_message("   "), "");
}

#[test]
fn prompt_lists_changes_and_diff() {
    let c = StagedChanges {
        added: vec!["a.rs".to_string()],
        modified: vec![],
        deleted: vec!["d.rs".to_string()],
        renamed: vec![("old.rs".to_string(), "new.rs".to_string())],
        stats: DiffStats { files_changed: 3, insertions: 1, deletions: 2 },
    };
    let p = commit_prompt(&c, "DIFF");
    assert_eq!(
        p,
        "Here are the changes to commit:\n\nAdded files:\n  + a.rs\n\nDeleted files:\n  - d.rs\n\
\nRenamed files:\n  old.rs -> new.rs\n\nHere's the detailed diff:\nDIFF\
\nPlease generate a commit message following the conventional commit format."
    );
}

#[test]
fn first_text_block_is_picked() {
    let parts = vec![
        ContentPart { kind: "tool".to_string(), text: "x".to_string() },
        ContentPart { kind: "text".to_string(), text: "feat: y".to_string() },
        ContentPart { kind: "text".to_string(), text: "z".to_string() },
    ];
    assert_eq!(first_text(&parts), Some("feat: y".to_string()));
    assert_eq!(first_text(&parts[..1].to_vec()), None);
}
