use gyst::explain::{parse_explanation, Explanation};

#[test]
fn reply_without_commands_is_plain() {
    match parse_explanation("  just run git status  ") {
        Explanation::Plain(t) => assert_eq!(t, "  just run git status  "),
        _ => panic!("expected a plain reply"),
    }
}

#[test]
fn steps_with_warning_notes_and_tip() {
    let reply = "Here is how:\nCOMMAND: git reset --soft HEAD~1\nEXPLANATION: undoes the commit\nNOTE: DO NOT use on pushed commits\
\nCOMMAND: git log\nEXPLANATION: shows history\nNOTE: harmless\nCOMMAND: broken section\
\nADDITIONAL TIP: be CAREFUL with reset";
    match parse_explanation(reply) {
        Explanation::Steps { intro, steps, tip } => {
            assert_eq!(intro, "Here is how:");
            assert_eq!(steps.len(), 2);
            assert_eq!(steps[0].command, "git reset --soft HEAD~1");
            assert_eq!(steps[0].explanation, "undoes the commit");
            assert_eq!(steps[0].warning, Some("DO NOT use on pushed commits".to_string()));
            assert_eq!(steps[1].command, "git log");
            assert_eq!(steps[1].warning, None);
            assert_eq!(tip, Some("be CAREFUL with reset".to_string()));
        }
        _ => panic!("expected steps"),
    }
}

#[test]
fn section_without_explanation_is_skipped() {
    let reply = "\nCOMMAND: git fetch\nCOMMAND: git pull\nEXPLANATION: updates\nADDITIONAL TIP: nothing special";
    match parse_explanation(reply) {
        Explanation::Steps { intro, steps, tip } => {
            assert_eq!(intro, "");
            assert_eq!(steps.len(), 1);
            assert_eq!(steps[0].command, "git pull");
            assert_eq!(steps[0].explanation, "updates\nADDITIONAL TIP: nothing special");
            assert_eq!(tip, None);
        }
        _ => panic!("expected steps"),
    }
}
