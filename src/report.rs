use vstd::prelude::*;
use vstd::string::*;
use crate::text::{decimal, push_decimal};
use crate::errors::GitError;
use crate::health::{BranchHealth, BranchStatus};
use crate::vcs::{seconds_since_epoch, system_now};

verus! {

/// The form a health report is rendered in.
#[derive(Debug, Clone, Copy, PartialEq, Eq, Structural)]
pub enum OutputFormat {
    Text,
    Json,
    Markdown,
}

/// The lowercase form of a text, as `str::to_lowercase` gives it.
pub uninterp spec fn lowercase_of(s: Seq<char>) -> Seq<char>;

/// Relies on `str::to_lowercase`: the result depends on the characters alone.
#[verifier::external_body]
fn to_lowercase(s: &str) -> (r: String)
    ensures
        r@ == lowercase_of(s@),
{
    s.to_lowercase()
}

/// The format that a lowercase name selects; any unknown name selects text.
pub open spec fn format_named(lower: Seq<char>) -> OutputFormat {
    if lower == "json"@ {
        OutputFormat::Json
    } else if lower == "markdown"@ {
        OutputFormat::Markdown
    } else {
        OutputFormat::Text
    }
}

impl OutputFormat {
    /// Selects the format by an already lowercase name.
    pub fn from_lowercase(name: &str) -> (r: OutputFormat)
        ensures
            r == format_named(name@),
    {
        let n = String::from_str(name);
        if n == String::from_str("json") {
            OutputFormat::Json
        } else if n == String::from_str("markdown") {
            OutputFormat::Markdown
        } else {
            OutputFormat::Text
        }
    }
}

impl<'a> From<&'a str> for OutputFormat {
    /// Selects the format by name, ignoring case.
    fn from(s: &'a str) -> OutputFormat {
        let lower = to_lowercase(s);
        OutputFormat::from_lowercase(lower.as_str())
    }
}

impl<'a> vstd::std_specs::convert::FromSpecImpl<&'a str> for OutputFormat {
    open spec fn obeys_from_spec() -> bool {
        true
    }

    open spec fn from_spec(v: &'a str) -> OutputFormat {
        format_named(lowercase_of(v@))
    }
}

pub open spec fn status_label(s: BranchStatus) -> Seq<char> {
    match s {
        BranchStatus::Healthy => "Healthy"@,
        BranchStatus::NeedsAttention => "NeedsAttention"@,
        BranchStatus::Stale => "Stale"@,
    }
}

pub open spec fn status_mark(s: BranchStatus) -> Seq<char> {
    match s {
        BranchStatus::Healthy => "🟢"@,
        BranchStatus::NeedsAttention => "🟡"@,
        BranchStatus::Stale => "🔴"@,
    }
}

impl BranchStatus {
    /// The status's name.
    pub fn label(&self) -> (r: &'static str)
        ensures
            r@ == status_label(*self),
    {
        match self {
            BranchStatus::Healthy => "Healthy",
            BranchStatus::NeedsAttention => "NeedsAttention",
            BranchStatus::Stale => "Stale",
        }
    }

    /// The coloured glyph shown beside the status.
    pub fn mark(&self) -> (r: &'static str)
        ensures
            r@ == status_mark(*self),
    {
        match self {
            BranchStatus::Healthy => "🟢",
            BranchStatus::NeedsAttention => "🟡",
            BranchStatus::Stale => "🔴",
        }
    }
}

/// One branch in the plain-text report, as an indented tree.
pub open spec fn text_entry(h: BranchHealth) -> Seq<char> {
    h.name@ + "\n├── Status: "@ + status_mark(h.status) + " "@ + status_label(h.status)
        + "\n├── Age: "@ + h.age_display@ + "\n├── Last Activity: "@
        + h.last_activity_display@ + "\n├── Author: "@ + h.author@ + "\n├── Commits: "@
        + decimal(h.commit_count as nat) + "\n└── Main Distance: "@ + decimal(
        h.ahead_count as nat,
    ) + " ahead, "@ + decimal(h.behind_count as nat) + " behind\n\n"@
}

/// One branch in the markdown report, as a section with a table.
pub open spec fn markdown_entry(h: BranchHealth) -> Seq<char> {
    "## "@ + h.name@ + "\n\n"@ + "| Metric | Value |\n"@ + "|--------|-------|\n"@
        + "| Status | "@ + status_mark(h.status) + " "@ + status_label(h.status) + " |\n"@
        + "| Age | "@ + h.age_display@ + " |\n"@ + "| Last Activity | "@
        + h.last_activity_display@ + " |\n"@ + "| Author | "@ + h.author@ + " |\n"@
        + "| Commits | "@ + decimal(h.commit_count as nat) + " |\n"@ + "| Main Distance | "@
        + decimal(h.ahead_count as nat) + " ahead, "@ + decimal(h.behind_count as nat)
        + " behind |\n\n"@
}

pub open spec fn entries_text(hs: Seq<BranchHealth>, markdown: bool) -> Seq<char>
    decreases hs.len(),
{
    if hs.len() == 0 {
        Seq::empty()
    } else {
        entries_text(hs.drop_last(), markdown) + if markdown {
            markdown_entry(hs.last())
        } else {
            text_entry(hs.last())
        }
    }
}

/// The plain-text report, stamped with the time `stamp`.
pub open spec fn text_report(hs: Seq<BranchHealth>, stamp: Seq<char>) -> Seq<char> {
    "Branch Health Report\n"@ + "Last updated: "@ + stamp + "\n\n"@ + entries_text(hs, false)
}

/// The markdown report, stamped with the time `stamp`.
pub open spec fn markdown_report(hs: Seq<BranchHealth>, stamp: Seq<char>) -> Seq<char> {
    "# Branch Health Report\n\n"@ + "*Last updated: "@ + stamp + "*\n\n"@ + entries_text(
        hs,
        true,
    )
}

#[verifier::rlimit(40)]
fn push_text_entry(out: &mut String, h: &BranchHealth)
    ensures
        final(out)@ == old(out)@ + text_entry(*h),
{
    out.append(h.name.as_str());
    out.append("\n├── Status: ");
    out.append(h.status.mark());
    out.append(" ");
    out.append(h.status.label());
    out.append("\n├── Age: ");
    out.append(h.age_display.as_str());
    out.append("\n├── Last Activity: ");
    out.append(h.last_activity_display.as_str());
    out.append("\n├── Author: ");
    out.append(h.author.as_str());
    out.append("\n├── Commits: ");
    push_decimal(out, h.commit_count as u64);
    out.append("\n└── Main Distance: ");
    push_decimal(out, h.ahead_count as u64);
    out.append(" ahead, ");
    push_decimal(out, h.behind_count as u64);
    out.append(" behind\n\n");
    assert(final(out)@ =~= old(out)@ + text_entry(*h));
}

#[verifier::rlimit(40)]
fn push_markdown_entry(out: &mut String, h: &BranchHealth)
    ensures
        final(out)@ == old(out)@ + markdown_entry(*h),
{
    out.append("## ");
    out.append(h.name.as_str());
    out.append("\n\n");
    out.append("| Metric | Value |\n");
    out.append("|--------|-------|\n");
    out.append("| Status | ");
    out.append(h.status.mark());
    out.append(" ");
    out.append(h.status.label());
    out.append(" |\n");
    out.append("| Age | ");
    out.append(h.age_display.as_str());
    out.append(" |\n");
    out.append("| Last Activity | ");
    out.append(h.last_activity_display.as_str());
    out.append(" |\n");
    out.append("| Author | ");
    out.append(h.author.as_str());
    out.append(" |\n");
    out.append("| Commits | ");
    push_decimal(out, h.commit_count as u64);
    out.append(" |\n");
    out.append("| Main Distance | ");
    push_decimal(out, h.ahead_count as u64);
    out.append(" ahead, ");
    push_decimal(out, h.behind_count as u64);
    out.append(" behind |\n\n");
    assert(final(out)@ =~= old(out)@ + markdown_entry(*h));
}

fn push_entries(out: &mut String, results: &Vec<BranchHealth>, markdown: bool)
    ensures
        final(out)@ == old(out)@ + entries_text(results@, markdown),
{
    let ghost start = out@;
    let mut i: usize = 0;
    assert(start =~= start + entries_text(results@.subrange(0, 0), markdown));
    while i < results.len()
        invariant
            i <= results@.len(),
            out@ == start + entries_text(results@.subrange(0, i as int), markdown),
        decreases results@.len() - i,
    {
        if markdown {
            push_markdown_entry(out, &results[i]);
        } else {
            push_text_entry(out, &results[i]);
        }
        assert(results@.subrange(0, i as int + 1).drop_last() =~= results@.subrange(0, i as int));
        assert(out@ =~= start + entries_text(results@.subrange(0, i as int + 1), markdown));
        i = i + 1;
    }
    assert(results@.subrange(0, results@.len() as int) =~= results@);
}

/// Renders the plain-text report, with `stamp` as its time of writing.
pub fn render_text(results: &Vec<BranchHealth>, stamp: &str) -> (r: String)
    ensures
        r@ == text_report(results@, stamp@),
{
    let mut out = String::from_str("Branch Health Report\n");
    out.append("Last updated: ");
    out.append(stamp);
    out.append("\n\n");
    push_entries(&mut out, results, false);
    assert(out@ =~= text_report(results@, stamp@));
    out
}

/// Renders the markdown report, with `stamp` as its time of writing.
pub fn render_markdown(results: &Vec<BranchHealth>, stamp: &str) -> (r: String)
    ensures
        r@ == markdown_report(results@, stamp@),
{
    let mut out = String::from_str("# Branch Health Report\n\n");
    out.append("*Last updated: ");
    out.append(stamp);
    out.append("*\n\n");
    push_entries(&mut out, results, true);
    assert(out@ =~= markdown_report(results@, stamp@));
    out
}

/// Relies on chrono's `DateTime::from_timestamp` and `format`: the UTC time
/// `secs` seconds after the epoch, written as year-month-day
/// hours:minutes:seconds; `None` when it is out of chrono's range.
#[verifier::external_body]
fn utc_stamp(secs: i64) -> Option<String> {
    chrono::DateTime::from_timestamp(secs, 0).map(|t| t.format("%Y-%m-%d %H:%M:%S").to_string())
}

/// The time now as a report stamp; `Clock` when the clock cannot be read.
fn stamp_now() -> (r: Result<String, GitError>)
    ensures
        r matches Err(e) ==> e is Clock,
{
    let secs = match seconds_since_epoch(system_now()) {
        Some(s) => s,
        None => return Err(GitError::Clock),
    };
    if secs > i64::MAX as u64 {
        return Err(GitError::Clock);
    }
    match utc_stamp(secs as i64) {
        Some(t) => Ok(t),
        None => Err(GitError::Clock),
    }
}

/// The plain-text report, stamped with the time now.
pub fn format_text(results: &Vec<BranchHealth>) -> (r: Result<String, GitError>)
    ensures
        r matches Ok(t) ==> exists|stamp: Seq<char>| t@ == text_report(results@, stamp),
        r matches Err(e) ==> e is Clock,
{
    match stamp_now() {
        Ok(stamp) => Ok(render_text(results, stamp.as_str())),
        Err(e) => Err(e),
    }
}

/// The markdown report, stamped with the time now.
pub fn format_markdown(results: &Vec<BranchHealth>) -> (r: Result<String, GitError>)
    ensures
        r matches Ok(t) ==> exists|stamp: Seq<char>| t@ == markdown_report(results@, stamp),
        r matches Err(e) ==> e is Clock,
{
    match stamp_now() {
        Ok(stamp) => Ok(render_markdown(results, stamp.as_str())),
        Err(e) => Err(e),
    }
}

} // verus!
