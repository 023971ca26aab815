use gyst::health::{
    classify_activity, health_from_facts, passes_filter, BranchFacts, BranchHealth, BranchStatus,
};
use gyst::report::{render_markdown, render_text, OutputFormat};
use gyst::timing::TimeAgo;

const NOW: i64 = 1_700_000_000;
const DAY: i64 = 86400;

fn facts(idle_days: i64, age_days: i64) -> BranchFacts {
    BranchFacts {
        name: "feature-x".to_string(),
        author: "Ada".to_string(),
        tip_time: NOW - idle_days * DAY,
        age_time: NOW - age_days * DAY,
        commit_count: 4,
        ahead: 3,
        behind: 1,
    }
}

#[test]
fn thresholds_are_inclusive() {
    assert_eq!(classify_activity(6, 7, 30), BranchStatus::Healthy);
    assert_eq!(classify_activity(7, 7, 30), BranchStatus::NeedsAttention);
    assert_eq!(classify_activity(29, 7, 30), BranchStatus::NeedsAttention);
    assert_eq!(classify_activity(30, 7, 30), BranchStatus::Stale);
    assert_eq!(classify_activity(0, 7, 30), BranchStatus::Healthy);
}

#[test]
fn other_thresholds_apply() {
    assert_eq!(classify_activity(2, 1, 3), BranchStatus::NeedsAttention);
    assert_eq!(classify_activity(3, 1, 3), BranchStatus::Stale);
}

#[test]
fn health_of_ten_day_old_branch() {
    let h = health_from_facts(&facts(10, 12), NOW, 7, 30);
    assert_eq!(h.name, "feature-x");
    assert_eq!(h.status, BranchStatus::NeedsAttention);
    assert_eq!(h.last_activity, TimeAgo { days: 10, hours: 0, minutes: 0 });
    assert_eq!(h.last_activity_display, "10 days");
    assert_eq!(h.age_display, "12 days");
    assert_eq!(h.author, "Ada");
    assert_eq!((h.commit_count, h.ahead_count, h.behind_count), (4, 3, 1));
}

#[test]
fn health_is_the_same_twice() {
    let a = health_from_facts(&facts(31, 40), NOW, 7, 30);
    let b = health_from_facts(&facts(31, 40), NOW, 7, 30);
    assert_eq!(a.status, BranchStatus::Stale);
    assert_eq!(render_text(&vec![a], "t"), render_text(&vec![b], "t"));
}

#[test]
fn filter_by_days_and_author() {
    let h = health_from_facts(&facts(10, 10), NOW, 7, 30);
    assert!(passes_filter(&h, None, &None));
    assert!(passes_filter(&h, Some(10), &None));
    assert!(!passes_filter(&h, Some(9), &None));
    assert!(passes_filter(&h, None, &Some("Ada".to_string())));
    assert!(!passes_filter(&h, None, &Some("ada".to_string())));
    assert!(!passes_filter(&h, Some(30), &Some("Bob".to_string())));
}

fn sample() -> BranchHealth {
    health_from_facts(&facts(1, 2), NOW, 7, 30)
}

#[test]
fn text_report_layout() {
    let out = render_text(&vec![sample()], "2024-01-02 03:04:05");
    let expected = "Branch Health Report\nLast updated: 2024-01-02 03:04:05\n\n\
feature-x\n├── Status: 🟢 Healthy\n├── Age: 2 days\n├── Last Activity: 1 days\n\
├── Author: Ada\n├── Commits: 4\n└── Main Distance: 3 ahead, 1 behind\n\n";
    assert_eq!(out, expected);
}

#[test]
fn markdown_report_layout() {
    let out = render_markdown(&vec![sample()], "now");
    let expected = "# Branch Health Report\n\n*Last updated: now*\n\n## feature-x\n\n\
| Metric | Value |\n|--------|-------|\n| Status | 🟢 Healthy |\n| Age | 2 days |\n\
| Last Activity | 1 days |\n| Author | Ada |\n| Commits | 4 |\n\
| Main Distance | 3 ahead, 1 behind |\n\n";
    assert_eq!(out, expected);
}

#[test]
fn empty_reports() {
    assert_eq!(render_text(&Vec::new(), "x"), "Branch Health Report\nLast updated: x\n\n");
    assert_eq!(render_markdown(&Vec::new(), "x"), "# Branch Health Report\n\n*Last updated: x*\n\n");
}

#[test]
fn format_names_ignore_case() {
    assert_eq!(OutputFormat::from("JSON"), OutputFormat::Json);
    assert_eq!(OutputFormat::from("Markdown"), OutputFormat::Markdown);
    assert_eq!(OutputFormat::from("text"), OutputFormat::Text);
    assert_eq!(OutputFormat::from("yaml"), OutputFormat::Text);
    assert_eq!(OutputFormat::from_lowercase("json"), OutputFormat::Json);
    assert_eq!(OutputFormat::from_lowercase("JSON"), OutputFormat::Text);
}
