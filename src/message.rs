use vstd::prelude::*;
use vstd::string::*;
use crate::changes::StagedChanges;
use crate::text::{char_vec, find_chars, first_from, trim_from, trimmed};

verus! {

/// A request for commit messages: the staged changes, the diff text, and
/// how many messages are wanted.
#[derive(Debug, Clone)]
pub struct CommitRequest {
    pub changes: StagedChanges,
    pub diff: String,
    pub count: Option<u8>,
}

/// A request for command suggestions, described in words.
#[derive(Debug, Clone)]
pub struct CommandRequest {
    pub description: String,
}

/// One content block of a generator's reply: its kind and its text.
#[derive(Debug, Clone)]
pub struct ContentPart {
    pub kind: String,
    pub text: String,
}

/// The text of the first block of kind `text`, if any.
pub fn first_text(parts: &Vec<ContentPart>) -> (r: Option<String>)
    ensures
        r is None <==> forall|i: int| 0 <= i < parts@.len() ==> parts@[i].kind@ != "text"@,
        r matches Some(t) ==> exists|i: int|
            0 <= i < parts@.len() && parts@[i].kind@ == "text"@ && t@ == parts@[i].text@
                && forall|j: int| 0 <= j < i ==> parts@[j].kind@ != "text"@,
{
    let wanted = String::from_str("text");
    let mut i: usize = 0;
    while i < parts.len()
        invariant
            i <= parts@.len(),
            wanted@ == "text"@,
            forall|j: int| 0 <= j < i ==> parts@[j].kind@ != "text"@,
        decreases parts@.len() - i,
    {
        if parts[i].kind == wanted {
            return Some(parts[i].text.clone());
        }
        i = i + 1;
    }
    None
}

/// The number of conventional commit types.
pub const COMMIT_TYPE_COUNT: usize = 10;

/// The conventional commit types, in the order a message is searched for them.
pub open spec fn commit_type(k: int) -> Seq<char> {
    if k == 0 { "feat"@ }
    else if k == 1 { "fix"@ }
    else if k == 2 { "docs"@ }
    else if k == 3 { "style"@ }
    else if k == 4 { "refactor"@ }
    else if k == 5 { "perf"@ }
    else if k == 6 { "test"@ }
    else if k == 7 { "chore"@ }
    else if k == 8 { "ci"@ }
    else { "build"@ }
}

fn commit_type_text(k: usize) -> (r: &'static str)
    requires
        k < COMMIT_TYPE_COUNT,
    ensures
        r@ == commit_type(k as int),
{
    if k == 0 { "feat" }
    else if k == 1 { "fix" }
    else if k == 2 { "docs" }
    else if k == 3 { "style" }
    else if k == 4 { "refactor" }
    else if k == 5 { "perf" }
    else if k == 6 { "test" }
    else if k == 7 { "chore" }
    else if k == 8 { "ci" }
    else { "build" }
}

/// The message from the first occurrence of the `k`-th type on, or of a
/// later type when it does not occur, trimmed; the whole message trimmed
/// when none occurs.
pub open spec fn cleaned_from(m: Seq<char>, k: int) -> Seq<char>
    decreases COMMIT_TYPE_COUNT - k,
{
    if k >= COMMIT_TYPE_COUNT {
        trimmed(m)
    } else {
        match first_from(m, commit_type(k), 0) {
            Some(i) => trimmed(m.subrange(i, m.len() as int)),
            None => cleaned_from(m, k + 1),
        }
    }
}

/// Strips any preamble before the conventional commit type: the message
/// from the first occurrence of `feat`, else of `fix`, and so on through
/// `build`, trimmed; the whole message trimmed when no type occurs.
pub fn clean_commit_message(message: &str) -> (r: String)
    ensures
        r@ == cleaned_from(message@, 0),
{
    let cs = char_vec(message);
    let mut k: usize = 0;
    while k < COMMIT_TYPE_COUNT
        invariant
            k <= COMMIT_TYPE_COUNT,
            cs@ == message@,
            cleaned_from(cs@, 0) == cleaned_from(cs@, k as int),
        decreases COMMIT_TYPE_COUNT - k,
    {
        let pattern = char_vec(commit_type_text(k));
        match find_chars(&cs, &pattern) {
            Some(i) => {
                return trim_from(&cs, i);
            },
            None => {},
        }
        k = k + 1;
    }
    assert(cs@.subrange(0, cs@.len() as int) =~= cs@);
    trim_from(&cs, 0)
}

/// One listed file: `bullet`, the path, a newline.
pub open spec fn listed(paths: Seq<String>, bullet: Seq<char>) -> Seq<char>
    decreases paths.len(),
{
    if paths.len() == 0 {
        Seq::empty()
    } else {
        listed(paths.drop_last(), bullet) + bullet + paths.last()@ + "\n"@
    }
}

pub open spec fn listed_renames(pairs: Seq<(String, String)>) -> Seq<char>
    decreases pairs.len(),
{
    if pairs.len() == 0 {
        Seq::empty()
    } else {
        listed_renames(pairs.drop_last()) + "  "@ + pairs.last().0@ + " -> "@ + pairs.last().1@
            + "\n"@
    }
}

/// A titled list, left out when there is nothing to list.
pub open spec fn section(n: nat, title: Seq<char>, body: Seq<char>) -> Seq<char> {
    if n == 0 {
        Seq::empty()
    } else {
        title + body
    }
}

/// The request put to a text generator for a commit message: the staged
/// files by kind, then the diff.
pub open spec fn commit_prompt_text(c: StagedChanges, diff: Seq<char>) -> Seq<char> {
    "Here are the changes to commit:\n\n"@ + section(
        c.added@.len(),
        "Added files:\n"@,
        listed(c.added@, "  + "@),
    ) + section(c.modified@.len(), "\nModified files:\n"@, listed(c.modified@, "  * "@))
        + section(c.deleted@.len(), "\nDeleted files:\n"@, listed(c.deleted@, "  - "@))
        + section(c.renamed@.len(), "\nRenamed files:\n"@, listed_renames(c.renamed@))
        + "\nHere's the detailed diff:\n"@ + diff
        + "\nPlease generate a commit message following the conventional commit format."@
}

fn push_listed(out: &mut String, paths: &Vec<String>, bullet: &str)
    ensures
        final(out)@ == old(out)@ + listed(paths@, bullet@),
{
    let ghost start = out@;
    let mut i: usize = 0;
    assert(start =~= start + listed(paths@.subrange(0, 0), bullet@));
    while i < paths.len()
        invariant
            i <= paths@.len(),
            out@ == start + listed(paths@.subrange(0, i as int), bullet@),
        decreases paths@.len() - i,
    {
        out.append(bullet);
        out.append(paths[i].as_str());
        out.append("\n");
        assert(paths@.subrange(0, i as int + 1).drop_last() =~= paths@.subrange(0, i as int));
        assert(out@ =~= start + listed(paths@.subrange(0, i as int + 1), bullet@));
        i = i + 1;
    }
    assert(paths@.subrange(0, paths@.len() as int) =~= paths@);
}

fn push_renames(out: &mut String, pairs: &Vec<(String, String)>)
    ensures
        final(out)@ == old(out)@ + listed_renames(pairs@),
{
    let ghost start = out@;
    let mut i: usize = 0;
    assert(start =~= start + listed_renames(pairs@.subrange(0, 0)));
    while i < pairs.len()
        invariant
            i <= pairs@.len(),
            out@ == start + listed_renames(pairs@.subrange(0, i as int)),
        decreases pairs@.len() - i,
    {
        out.append("  ");
        out.append(pairs[i].0.as_str());
        out.append(" -> ");
        out.append(pairs[i].1.as_str());
        out.append("\n");
        assert(pairs@.subrange(0, i as int + 1).drop_last() =~= pairs@.subrange(0, i as int));
        assert(out@ =~= start + listed_renames(pairs@.subrange(0, i as int + 1)));
        i = i + 1;
    }
    assert(pairs@.subrange(0, pairs@.len() as int) =~= pairs@);
}

/// Writes the request for a commit message from the staged changes and the
/// diff text.
pub fn commit_prompt(changes: &StagedChanges, diff: &str) -> (r: String)
    ensures
        r@ == commit_prompt_text(*changes, diff@),
{
    let mut out = String::from_str("Here are the changes to commit:\n\n");
    let ghost s0 = out@;
    if changes.added.len() > 0 {
        out.append("Added files:\n");
        push_listed(&mut out, &changes.added, "  + ");
    }
    let ghost s1 = out@;
    assert(s1 =~= s0 + section(changes.added@.len(), "Added files:\n"@, listed(changes.added@, "  + "@)));
    if changes.modified.len() > 0 {
        out.append("\nModified files:\n");
        push_listed(&mut out, &changes.modified, "  * ");
    }
    let ghost s2 = out@;
    assert(s2 =~= s1 + section(changes.modified@.len(), "\nModified files:\n"@, listed(changes.modified@, "  * "@)));
    if changes.deleted.len() > 0 {
        out.append("\nDeleted files:\n");
        push_listed(&mut out, &changes.deleted, "  - ");
    }
    let ghost s3 = out@;
    assert(s3 =~= s2 + section(changes.deleted@.len(), "\nDeleted files:\n"@, listed(changes.deleted@, "  - "@)));
    if changes.renamed.len() > 0 {
        out.append("\nRenamed files:\n");
        push_renames(&mut out, &changes.renamed);
    }
    let ghost s4 = out@;
    assert(s4 =~= s3 + section(changes.renamed@.len(), "\nRenamed files:\n"@, listed_renames(changes.renamed@)));
    out.append("\nHere's the detailed diff:\n");
    out.append(diff);
    out.append("\nPlease generate a commit message following the conventional commit format.");
    assert(out@ =~= commit_prompt_text(*changes, diff@));
    out
}

} // verus!
