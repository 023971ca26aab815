use vstd::prelude::*;
use vstd::string::*;
use crate::text::{
    char_vec, contains, contains_text, find_chars, first_from, joined, remove_all,
    split, split_chars, trim_from, trimmed,
};

verus! {

/// One suggested command with its explanation, and its note when the note
/// carries a warning.
#[derive(Debug, Clone)]
pub struct CommandStep {
    pub command: String,
    pub explanation: String,
    pub warning: Option<String>,
}

/// A command suggestion laid out for display.
#[derive(Debug, Clone)]
pub enum Explanation {
    /// A reply without command sections, shown as it came.
    Plain(String),
    /// An introduction, the command steps, and a closing tip when it warns.
    Steps { intro: String, steps: Vec<CommandStep>, tip: Option<String> },
}

/// A step as mathematical values.
pub struct StepModel {
    pub command: Seq<char>,
    pub explanation: Seq<char>,
    pub warning: Option<Seq<char>>,
}

/// Whether a note warns the reader.
pub open spec fn warns(t: Seq<char>) -> bool {
    contains(t, "CAREFUL"@) || contains(t, "WARNING"@) || contains(t, "IMPORTANT"@) || contains(
        t,
        "DO NOT"@,
    )
}

/// Whether a closing tip warns the reader.
pub open spec fn tip_warns(t: Seq<char>) -> bool {
    contains(t, "CAREFUL"@) || contains(t, "WARNING"@) || contains(t, "IMPORTANT"@) || contains(
        t,
        "caution"@,
    )
}

/// The step a command section describes: the command before its
/// explanation marker, the explanation before any note marker, and the note
/// when it warns. A section without exactly one explanation marker gives none.
pub open spec fn step_of(section: Seq<char>) -> Option<StepModel> {
    let parts = split(section, "\nEXPLANATION:"@);
    if parts.len() == 2 {
        let rest = split(parts[1], "\nNOTE:"@);
        Some(
            StepModel {
                command: trimmed(parts[0]),
                explanation: trimmed(rest[0]),
                warning: if rest.len() > 1 && warns(trimmed(rest[1])) {
                    Some(trimmed(rest[1]))
                } else {
                    None
                },
            },
        )
    } else {
        None
    }
}

pub open spec fn steps_of(sections: Seq<Seq<char>>) -> Seq<StepModel>
    decreases sections.len(),
{
    if sections.len() == 0 {
        Seq::empty()
    } else {
        let prev = steps_of(sections.drop_last());
        match step_of(sections.last()) {
            Some(m) => prev.push(m),
            None => prev,
        }
    }
}

/// The closing tip: from its marker on, trimmed, without the marker words,
/// trimmed again; kept only when it warns.
pub open spec fn tip_of(s: Seq<char>) -> Option<Seq<char>> {
    match first_from(s, "\nADDITIONAL TIP:"@, 0) {
        Some(i) => {
            let t = trimmed(joined(split(trimmed(s.subrange(i, s.len() as int)), "ADDITIONAL TIP:"@)));
            if tip_warns(t) {
                Some(t)
            } else {
                None
            }
        },
        None => None,
    }
}

impl View for CommandStep {
    type V = StepModel;

    open spec fn view(&self) -> StepModel {
        StepModel {
            command: self.command@,
            explanation: self.explanation@,
            warning: match self.warning {
                Some(w) => Some(w@),
                None => None,
            },
        }
    }
}

/// The reply laid out: plain when it holds no command marker, else its
/// introduction, its steps and its tip.
pub open spec fn explained(e: Explanation, s: Seq<char>) -> bool {
    let sections = split(s, "\nCOMMAND:"@);
    if sections.len() <= 1 {
        e matches Explanation::Plain(t) && t@ == s
    } else {
        match e {
            Explanation::Steps { intro, steps, tip } => {
                &&& intro@ == trimmed(sections[0])
                &&& steps@.map_values(|c: CommandStep| c@) == steps_of(
                    sections.subrange(1, sections.len() as int),
                )
                &&& match tip {
                    Some(t) => tip_of(s) == Some(t@),
                    None => tip_of(s) is None,
                }
            },
            _ => false,
        }
    }
}

fn warns_text(t: &Vec<char>) -> (r: bool)
    ensures
        r == warns(t@),
{
    contains_text(t, "CAREFUL") || contains_text(t, "WARNING") || contains_text(t, "IMPORTANT")
        || contains_text(t, "DO NOT")
}

fn tip_warns_text(t: &Vec<char>) -> (r: bool)
    ensures
        r == tip_warns(t@),
{
    contains_text(t, "CAREFUL") || contains_text(t, "WARNING") || contains_text(t, "IMPORTANT")
        || contains_text(t, "caution")
}

fn step_from(section: &Vec<char>) -> (r: Option<CommandStep>)
    ensures
        match r {
            Some(c) => step_of(section@) == Some(c@),
            None => step_of(section@) is None,
        },
{
    let marker = char_vec("\nEXPLANATION:");
    proof {
        reveal_strlit("\nEXPLANATION:");
    }
    let parts = split_chars(section, &marker);
    assert(parts@.map_values(|v: Vec<char>| v@).len() == parts@.len());
    if parts.len() != 2 {
        return None;
    }
    let ghost views = parts@.map_values(|v: Vec<char>| v@);
    assert(views[0] == parts@[0]@ && views[1] == parts@[1]@);
    let note = char_vec("\nNOTE:");
    proof {
        reveal_strlit("\nNOTE:");
    }
    let rest = split_chars(&parts[1], &note);
    let ghost rviews = rest@.map_values(|v: Vec<char>| v@);
    assert(rviews.len() == rest@.len());
    proof {
        lemma_split_nonempty(parts@[1]@, note@);
    }
    assert(rviews[0] == rest@[0]@);
    let command = trim_from(&parts[0], 0);
    let explanation = trim_from(&rest[0], 0);
    assert(parts@[0]@.subrange(0, parts@[0]@.len() as int) =~= parts@[0]@);
    assert(rest@[0]@.subrange(0, rest@[0]@.len() as int) =~= rest@[0]@);
    let mut warning: Option<String> = None;
    if rest.len() > 1 {
        assert(rviews[1] == rest@[1]@);
        assert(rest@[1]@.subrange(0, rest@[1]@.len() as int) =~= rest@[1]@);
        let t = trim_from(&rest[1], 0);
        let tc = char_vec(t.as_str());
        if warns_text(&tc) {
            warning = Some(t);
        }
    }
    Some(CommandStep { command, explanation, warning })
}

/// Splitting always yields at least one piece.
proof fn lemma_split_nonempty(s: Seq<char>, p: Seq<char>)
    requires
        p.len() > 0,
    ensures
        split(s, p).len() >= 1,
{
    crate::text::lemma_first_from_bounds(s, p, 0);
}

/// Lays out a command suggestion: its introduction, each command with its
/// explanation and any warning note, and a closing tip that warns.
pub fn parse_explanation(reply: &str) -> (r: Explanation)
    ensures
        explained(r, reply@),
{
    let cs = char_vec(reply);
    let marker = char_vec("\nCOMMAND:");
    proof {
        reveal_strlit("\nCOMMAND:");
    }
    let sections = split_chars(&cs, &marker);
    let ghost views = sections@.map_values(|v: Vec<char>| v@);
    assert(views.len() == sections@.len());
    if sections.len() <= 1 {
        return Explanation::Plain(String::from_str(reply));
    }
    assert(views[0] == sections@[0]@);
    assert(sections@[0]@.subrange(0, sections@[0]@.len() as int) =~= sections@[0]@);
    let intro = trim_from(&sections[0], 0);
    let mut steps: Vec<CommandStep> = Vec::new();
    let mut i: usize = 1;
    assert(views.subrange(1, 1) =~= Seq::<Seq<char>>::empty());
    assert(steps@.map_values(|c: CommandStep| c@) =~= Seq::<StepModel>::empty());
    while i < sections.len()
        invariant
            1 <= i <= sections@.len(),
            views == sections@.map_values(|v: Vec<char>| v@),
            steps@.map_values(|c: CommandStep| c@) == steps_of(views.subrange(1, i as int)),
        decreases sections@.len() - i,
    {
        let ghost before = steps@.map_values(|c: CommandStep| c@);
        assert(views.subrange(1, i as int + 1).drop_last() =~= views.subrange(1, i as int));
        assert(views.subrange(1, i as int + 1).last() == sections@[i as int]@);
        match step_from(&sections[i]) {
            Some(c) => {
                steps.push(c);
                assert(steps@.map_values(|c: CommandStep| c@) =~= before.push(steps@.last()@));
            },
            None => {},
        }
        i = i + 1;
    }
    assert(views.subrange(1, views.len() as int) =~= views.subrange(1, sections@.len() as int));
    let tip_marker = char_vec("\nADDITIONAL TIP:");
    let tip = match find_chars(&cs, &tip_marker) {
        Some(at) => {
            let tail = trim_from(&cs, at);
            let tail_chars = char_vec(tail.as_str());
            let words = char_vec("ADDITIONAL TIP:");
            proof {
                reveal_strlit("ADDITIONAL TIP:");
            }
            let stripped = remove_all(&tail_chars, &words);
            assert(stripped@.subrange(0, stripped@.len() as int) =~= stripped@);
            let t = trim_from(&stripped, 0);
            let tc = char_vec(t.as_str());
            if tip_warns_text(&tc) {
                Some(t)
            } else {
                None
            }
        },
        None => None,
    };
    Explanation::Steps { intro, steps, tip }
}

} // verus!
