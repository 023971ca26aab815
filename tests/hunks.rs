use gyst::hunks::{build_hunks, render_diff, DiffEvent, DiffLine, HunkHeader};

fn header(text: &str, old_start: u32) -> DiffEvent {
    DiffEvent::HunkStart(HunkHeader {
        old_start,
        old_lines: 1,
        new_start: old_start,
        new_lines: 2,
        header: text.to_string(),
    })
}

fn line(origin: char, text: &str) -> DiffEvent {
    DiffEvent::Line(DiffLine { origin, content: text.to_string() })
}

fn stream() -> Vec<DiffEvent> {
    vec![
        DiffEvent::FileStart,
        header("@@ -1,1 +1,2 @@\n", 1),
        line(' ', "a\n"),
        line('+', "b\n"),
        header("@@ -9,1 +10,2 @@\n", 9),
        line('-', "c\n"),
        DiffEvent::FileStart,
        DiffEvent::FileStart,
        header("@@ -0,0 +1 @@\n", 0),
        line('+', "d\n"),
    ]
}

#[test]
fn one_hunk_per_file() {
    let hunks = build_hunks(&stream());
    assert_eq!(hunks.len(), 2);
    assert_eq!(hunks[0].header, "@@ -1,1 +1,2 @@\n");
    assert_eq!(hunks[0].old_start, 1);
    assert_eq!(hunks[0].new_lines, 2);
    assert_eq!(hunks[0].lines.len(), 4);
    assert_eq!(hunks[0].lines[2].origin, 'H');
    assert_eq!(hunks[0].lines[2].content, "@@ -9,1 +10,2 @@\n");
    assert_eq!(hunks[1].header, "@@ -0,0 +1 @@\n");
    assert_eq!(hunks[1].lines.len(), 1);
    assert_eq!(hunks[1].lines[0].origin, '+');
}

#[test]
fn joined_hunks_give_back_patch_text() {
    let events = stream();
    let text = render_diff(&build_hunks(&events));
    let mut raw = String::new();
    for e in &events {
        match e {
            DiffEvent::FileStart => {}
            DiffEvent::HunkStart(h) => raw.push_str(&h.header),
            DiffEvent::Line(l) => raw.push_str(&l.content),
        }
    }
    assert_eq!(text, raw);
    assert_eq!(text, "@@ -1,1 +1,2 @@\na\nb\n@@ -9,1 +10,2 @@\nc\n@@ -0,0 +1 @@\nd\n");
}

#[test]
fn empty_stream_has_no_hunks() {
    assert!(build_hunks(&Vec::new()).is_empty());
    assert_eq!(render_diff(&Vec::new()), "");
}

#[test]
fn lines_without_hunk_are_dropped() {
    let hunks = build_hunks(&vec![DiffEvent::FileStart, line('B', "Binary files differ\n")]);
    assert!(hunks.is_empty());
}
