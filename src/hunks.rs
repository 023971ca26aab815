use vstd::prelude::*;
use vstd::string::*;

verus! {

/// One line of a diff: its origin marker (`+`, `-`, ` `, or another marker)
/// and its raw text, trailing newline included.
#[derive(Debug, Clone)]
pub struct DiffLine {
    pub origin: char,
    pub content: String,
}

/// The position and header text of a hunk.
#[derive(Debug, Clone)]
pub struct HunkHeader {
    pub old_start: u32,
    pub old_lines: u32,
    pub new_start: u32,
    pub new_lines: u32,
    pub header: String,
}

/// A run of diff lines under one header.
#[derive(Debug, Clone)]
pub struct DiffHunk {
    pub old_start: u32,
    pub old_lines: u32,
    pub new_start: u32,
    pub new_lines: u32,
    pub header: String,
    pub lines: Vec<DiffLine>,
}

/// One record of a diff's line stream, in emission order.
#[derive(Debug, Clone)]
pub enum DiffEvent {
    /// A file's delta begins.
    FileStart,
    /// A hunk begins; its header line is the header text.
    HunkStart(HunkHeader),
    /// A line of the current hunk.
    Line(DiffLine),
}

/// One hunk of a file's patch, read out as plain values.
#[derive(Debug, Clone)]
pub struct PatchHunk {
    pub header: HunkHeader,
    pub lines: Vec<DiffLine>,
}

/// One file's patch, read out as plain values; a binary or unchanged file
/// has no hunks.
#[derive(Debug, Clone)]
pub struct FilePatch {
    pub hunks: Vec<PatchHunk>,
}

/// The marker that a hunk's header line carries in the stream.
pub const HUNK_HEADER_ORIGIN: char = 'H';

/// A hunk as mathematical values.
pub struct HunkModel {
    pub old_start: u32,
    pub old_lines: u32,
    pub new_start: u32,
    pub new_lines: u32,
    pub header: Seq<char>,
    pub lines: Seq<(char, Seq<char>)>,
}

impl View for DiffLine {
    type V = (char, Seq<char>);

    open spec fn view(&self) -> (char, Seq<char>) {
        (self.origin, self.content@)
    }
}

impl View for DiffHunk {
    type V = HunkModel;

    open spec fn view(&self) -> HunkModel {
        HunkModel {
            old_start: self.old_start,
            old_lines: self.old_lines,
            new_start: self.new_start,
            new_lines: self.new_lines,
            header: self.header@,
            lines: self.lines@.map_values(|l: DiffLine| l@),
        }
    }
}

pub open spec fn hunk_models(hs: Seq<DiffHunk>) -> Seq<HunkModel> {
    hs.map_values(|h: DiffHunk| h@)
}

/// A hunk opened by `h`, with no lines yet.
pub open spec fn opened(h: HunkHeader) -> HunkModel {
    HunkModel {
        old_start: h.old_start,
        old_lines: h.old_lines,
        new_start: h.new_start,
        new_lines: h.new_lines,
        header: h.header@,
        lines: Seq::empty(),
    }
}

pub open spec fn with_line(h: HunkModel, l: (char, Seq<char>)) -> HunkModel {
    HunkModel { lines: h.lines.push(l), ..h }
}

/// The state of the fold: the hunks closed so far and the open one.
pub struct FoldState {
    pub done: Seq<HunkModel>,
    pub open: Option<HunkModel>,
}

/// One step of the fold. A file boundary closes the open hunk; a hunk start
/// opens a hunk when none is open, and otherwise joins the open one as a
/// header line; a line joins the open hunk (and is dropped when none is open).
pub open spec fn step(st: FoldState, e: DiffEvent) -> FoldState {
    match e {
        DiffEvent::FileStart => match st.open {
            Some(h) => FoldState { done: st.done.push(h), open: None },
            None => st,
        },
        DiffEvent::HunkStart(h) => match st.open {
            Some(o) => FoldState {
                open: Some(with_line(o, (HUNK_HEADER_ORIGIN, h.header@))),
                ..st
            },
            None => FoldState { open: Some(opened(h)), ..st },
        },
        DiffEvent::Line(l) => match st.open {
            Some(o) => FoldState { open: Some(with_line(o, l@)), ..st },
            None => st,
        },
    }
}

pub open spec fn fold(events: Seq<DiffEvent>) -> FoldState
    decreases events.len(),
{
    if events.len() == 0 {
        FoldState { done: Seq::empty(), open: None }
    } else {
        step(fold(events.drop_last()), events.last())
    }
}

/// The hunks of an event stream: those closed, then the one left open.
pub open spec fn assemble(events: Seq<DiffEvent>) -> Seq<HunkModel> {
    let st = fold(events);
    match st.open {
        Some(h) => st.done.push(h),
        None => st.done,
    }
}

pub open spec fn lines_text(ls: Seq<(char, Seq<char>)>) -> Seq<char>
    decreases ls.len(),
{
    if ls.len() == 0 {
        Seq::empty()
    } else {
        lines_text(ls.drop_last()) + ls.last().1
    }
}

pub open spec fn hunk_text(h: HunkModel) -> Seq<char> {
    h.header + lines_text(h.lines)
}

/// Each hunk's header followed by its lines' text, hunk after hunk.
pub open spec fn hunks_text(hs: Seq<HunkModel>) -> Seq<char>
    decreases hs.len(),
{
    if hs.len() == 0 {
        Seq::empty()
    } else {
        hunks_text(hs.drop_last()) + hunk_text(hs.last())
    }
}

pub open spec fn event_text(e: DiffEvent) -> Seq<char> {
    match e {
        DiffEvent::FileStart => Seq::empty(),
        DiffEvent::HunkStart(h) => h.header@,
        DiffEvent::Line(l) => l.content@,
    }
}

/// The patch text of a stream: every hunk header and every line, in order.
pub open spec fn events_text(events: Seq<DiffEvent>) -> Seq<char>
    decreases events.len(),
{
    if events.len() == 0 {
        Seq::empty()
    } else {
        events_text(events.drop_last()) + event_text(events.last())
    }
}

/// A line never comes first, nor right after a file boundary: every line
/// belongs to a hunk.
pub open spec fn lines_in_hunks(events: Seq<DiffEvent>) -> bool {
    forall|i: int|
        0 <= i < events.len() && (#[trigger] events[i]) is Line ==> i > 0 && !(events[i
            - 1] is FileStart)
}

pub open spec fn open_text(o: Option<HunkModel>) -> Seq<char> {
    match o {
        Some(h) => hunk_text(h),
        None => Seq::empty(),
    }
}

proof fn lemma_fold_keeps_text(events: Seq<DiffEvent>)
    requires
        lines_in_hunks(events),
    ensures
        hunks_text(fold(events).done) + open_text(fold(events).open) == events_text(events),
        events.len() > 0 && !(events.last() is FileStart) ==> fold(events).open is Some,
    decreases events.len(),
{
    if events.len() > 0 {
        let pre = events.drop_last();
        assert forall|i: int| 0 <= i < pre.len() && (#[trigger] pre[i]) is Line implies i > 0
            && !(pre[i - 1] is FileStart) by {
            assert(events[i] == pre[i]);
        }
        lemma_fold_keeps_text(pre);
        let st = fold(pre);
        let e = events.last();
        assert(e == events[events.len() - 1]);
        match e {
            DiffEvent::FileStart => {
                match st.open {
                    Some(h) => {
                        let d = st.done.push(h);
                        assert(d.drop_last() =~= st.done);
                        assert(hunks_text(d) == hunks_text(st.done) + hunk_text(h));
                        assert(hunks_text(d) + Seq::<char>::empty() =~= hunks_text(d));
                        assert(events_text(events) =~= events_text(pre) + Seq::<char>::empty());
                    },
                    None => {
                        assert(events_text(events) =~= events_text(pre) + Seq::<char>::empty());
                    },
                }
            },
            DiffEvent::HunkStart(h) => {
                match st.open {
                    Some(o) => {
                        let o2 = with_line(o, (HUNK_HEADER_ORIGIN, h.header@));
                        assert(o2.lines.drop_last() =~= o.lines);
                        assert(hunk_text(o2) =~= hunk_text(o) + h.header@);
                    },
                    None => {
                        assert(lines_text(opened(h).lines) =~= Seq::<char>::empty());
                        assert(hunk_text(opened(h)) =~= h.header@);
                        assert(open_text(st.open) =~= Seq::<char>::empty());
                    },
                }
                assert(hunks_text(st.done) + open_text(st.open) + h.header@ =~= hunks_text(
                    st.done,
                ) + (open_text(st.open) + h.header@));
            },
            DiffEvent::Line(l) => {
                assert(pre.len() > 0 && !(pre.last() is FileStart)) by {
                    assert(events[events.len() - 1] is Line);
                    assert(pre.last() == events[events.len() - 2]);
                }
                let o = st.open.unwrap();
                let o2 = with_line(o, l@);
                assert(o2.lines.drop_last() =~= o.lines);
                assert(hunk_text(o2) =~= hunk_text(o) + l.content@);
                assert(hunks_text(st.done) + open_text(st.open) + l.content@ =~= hunks_text(
                    st.done,
                ) + (open_text(st.open) + l.content@));
            },
        }
    }
}

/// Joining the assembled hunks' headers and lines, in order, gives back the
/// stream's patch text exactly, for every stream whose lines all belong to a
/// hunk.
pub proof fn lemma_hunks_reproduce_patch(events: Seq<DiffEvent>)
    requires
        lines_in_hunks(events),
    ensures
        hunks_text(assemble(events)) == events_text(events),
{
    lemma_fold_keeps_text(events);
    let st = fold(events);
    match st.open {
        Some(h) => {
            let d = st.done.push(h);
            assert(d.drop_last() =~= st.done);
        },
        None => {
            assert(hunks_text(st.done) + Seq::<char>::empty() =~= hunks_text(st.done));
        },
    }
}

pub open spec fn open_model(o: Option<DiffHunk>) -> Option<HunkModel> {
    match o {
        Some(h) => Some(h@),
        None => None,
    }
}

pub open spec fn lines_events(ls: Seq<DiffLine>) -> Seq<DiffEvent> {
    ls.map_values(|l: DiffLine| DiffEvent::Line(l))
}

/// A hunk's start, then its lines.
pub open spec fn hunk_events(h: PatchHunk) -> Seq<DiffEvent> {
    seq![DiffEvent::HunkStart(h.header)] + lines_events(h.lines@)
}

pub open spec fn hunks_events(hs: Seq<PatchHunk>) -> Seq<DiffEvent>
    decreases hs.len(),
{
    if hs.len() == 0 {
        Seq::empty()
    } else {
        hunks_events(hs.drop_last()) + hunk_events(hs.last())
    }
}

/// A file's boundary, then its hunks.
pub open spec fn file_events(f: FilePatch) -> Seq<DiffEvent> {
    seq![DiffEvent::FileStart] + hunks_events(f.hunks@)
}

/// The line stream of a diff's patches, file after file.
pub open spec fn stream_of(fs: Seq<FilePatch>) -> Seq<DiffEvent>
    decreases fs.len(),
{
    if fs.len() == 0 {
        Seq::empty()
    } else {
        stream_of(fs.drop_last()) + file_events(fs.last())
    }
}

fn copy_header(h: &HunkHeader) -> (r: HunkHeader)
    ensures
        r == *h,
{
    HunkHeader {
        old_start: h.old_start,
        old_lines: h.old_lines,
        new_start: h.new_start,
        new_lines: h.new_lines,
        header: h.header.clone(),
    }
}

fn push_event(events: &mut Vec<DiffEvent>, e: DiffEvent)
    requires
        lines_in_hunks(old(events)@),
        e is Line ==> old(events)@.len() > 0 && !(old(events)@.last() is FileStart),
    ensures
        final(events)@ == old(events)@.push(e),
        lines_in_hunks(final(events)@),
{
    let ghost before = events@;
    events.push(e);
    assert forall|i: int|
        0 <= i < events@.len() && (#[trigger] events@[i]) is Line implies i > 0 && !(events@[i
        - 1] is FileStart) by {
        if i < before.len() {
            assert(events@[i] == before[i]);
            assert(events@[i - 1] == before[i - 1]);
        } else {
            assert(events@[i - 1] == before.last());
        }
    }
}

/// The line stream of the patches: per file a boundary, then per hunk its
/// start and its lines, in order.
pub fn events_of(files: &Vec<FilePatch>) -> (r: Vec<DiffEvent>)
    ensures
        r@ == stream_of(files@),
        lines_in_hunks(r@),
{
    let mut events: Vec<DiffEvent> = Vec::new();
    let mut d: usize = 0;
    while d < files.len()
        invariant
            d <= files@.len(),
            events@ == stream_of(files@.subrange(0, d as int)),
            lines_in_hunks(events@),
        decreases files@.len() - d,
    {
        let f = &files[d];
        let ghost base = events@;
        push_event(&mut events, DiffEvent::FileStart);
        let mut h: usize = 0;
        assert(events@ =~= base + seq![DiffEvent::FileStart] + hunks_events(f.hunks@.subrange(0, 0)));
        while h < f.hunks.len()
            invariant
                h <= f.hunks@.len(),
                events@ == base + seq![DiffEvent::FileStart] + hunks_events(f.hunks@.subrange(0, h as int)),
                lines_in_hunks(events@),
            decreases f.hunks@.len() - h,
        {
            let hunk = &f.hunks[h];
            let ghost mid = events@;
            push_event(&mut events, DiffEvent::HunkStart(copy_header(&hunk.header)));
            let mut l: usize = 0;
            assert(events@ =~= mid + seq![DiffEvent::HunkStart(hunk.header)] + lines_events(hunk.lines@.subrange(0, 0)));
            while l < hunk.lines.len()
                invariant
                    l <= hunk.lines@.len(),
                    events@ == mid + seq![DiffEvent::HunkStart(hunk.header)] + lines_events(hunk.lines@.subrange(0, l as int)),
                    lines_in_hunks(events@),
                    events@.len() > 0,
                    !(events@.last() is FileStart),
                decreases hunk.lines@.len() - l,
            {
                push_event(&mut events, DiffEvent::Line(copy_line(&hunk.lines[l])));
                assert(events@ =~= mid + seq![DiffEvent::HunkStart(hunk.header)] + lines_events(hunk.lines@.subrange(0, l as int + 1)));
                l = l + 1;
            }
            assert(hunk.lines@.subrange(0, hunk.lines@.len() as int) =~= hunk.lines@);
            assert(f.hunks@.subrange(0, h as int + 1).drop_last() =~= f.hunks@.subrange(0, h as int));
            assert(events@ =~= base + seq![DiffEvent::FileStart] + hunks_events(f.hunks@.subrange(0, h as int + 1)));
            h = h + 1;
        }
        assert(f.hunks@.subrange(0, f.hunks@.len() as int) =~= f.hunks@);
        assert(files@.subrange(0, d as int + 1).drop_last() =~= files@.subrange(0, d as int));
        assert(events@ =~= stream_of(files@.subrange(0, d as int + 1)));
        d = d + 1;
    }
    assert(files@.subrange(0, files@.len() as int) =~= files@);
    events
}

fn copy_line(l: &DiffLine) -> (r: DiffLine)
    ensures
        r@ == l@,
        r == *l,
{
    DiffLine { origin: l.origin, content: l.content.clone() }
}

fn open_hunk(h: &HunkHeader) -> (r: DiffHunk)
    ensures
        r@ == opened(*h),
{
    let r = DiffHunk {
        old_start: h.old_start,
        old_lines: h.old_lines,
        new_start: h.new_start,
        new_lines: h.new_lines,
        header: h.header.clone(),
        lines: Vec::new(),
    };
    assert(r@.lines =~= Seq::<(char, Seq<char>)>::empty());
    r
}

fn push_line(h: &mut DiffHunk, l: DiffLine)
    ensures
        final(h)@ == with_line(old(h)@, l@),
{
    h.lines.push(l);
    assert(final(h)@.lines =~= old(h)@.lines.push(l@));
}

/// Groups a diff's line stream into hunks: a hunk opens at a hunk start when
/// none is open, gathers every later line and hunk header, and closes at the
/// next file boundary or at the end of the stream.
pub fn build_hunks(events: &Vec<DiffEvent>) -> (r: Vec<DiffHunk>)
    ensures
        hunk_models(r@) == assemble(events@),
{
    let mut hunks: Vec<DiffHunk> = Vec::new();
    let mut current: Option<DiffHunk> = None;
    let mut i: usize = 0;
    assert(hunk_models(hunks@) =~= Seq::<HunkModel>::empty());
    while i < events.len()
        invariant
            i <= events@.len(),
            hunk_models(hunks@) == fold(events@.subrange(0, i as int)).done,
            open_model(current) == fold(events@.subrange(0, i as int)).open,
        decreases events@.len() - i,
    {
        let ghost pre = events@.subrange(0, i as int);
        let ghost next = events@.subrange(0, i as int + 1);
        assert(next.drop_last() =~= pre);
        assert(next.last() == events@[i as int]);
        match &events[i] {
            DiffEvent::FileStart => {
                match current {
                    Some(h) => {
                        hunks.push(h);
                        current = None;
                    },
                    None => {},
                }
            },
            DiffEvent::HunkStart(h) => {
                match current {
                    Some(mut o) => {
                        push_line(&mut o, DiffLine { origin: HUNK_HEADER_ORIGIN, content: h.header.clone() });
                        current = Some(o);
                    },
                    None => {
                        current = Some(open_hunk(h));
                    },
                }
            },
            DiffEvent::Line(l) => {
                match current {
                    Some(mut o) => {
                        push_line(&mut o, copy_line(l));
                        current = Some(o);
                    },
                    None => {},
                }
            },
        }
        assert(hunk_models(hunks@) =~= fold(next).done);
        i = i + 1;
    }
    assert(events@.subrange(0, events@.len() as int) =~= events@);
    match current {
        Some(h) => {
            hunks.push(h);
        },
        None => {},
    }
    assert(hunk_models(hunks@) =~= assemble(events@));
    hunks
}

/// Joins every hunk's header and then its lines' text, in order: the diff as
/// one text body.
pub fn render_diff(hunks: &Vec<DiffHunk>) -> (r: String)
    ensures
        r@ == hunks_text(hunk_models(hunks@)),
{
    let mut out = String::new();
    let mut i: usize = 0;
    while i < hunks.len()
        invariant
            i <= hunks@.len(),
            out@ == hunks_text(hunk_models(hunks@.subrange(0, i as int))),
        decreases hunks@.len() - i,
    {
        let h = &hunks[i];
        let ghost before = out@;
        out.append(h.header.as_str());
        let mut j: usize = 0;
        while j < h.lines.len()
            invariant
                j <= h.lines@.len(),
                out@ == before + h.header@ + lines_text(h@.lines.subrange(0, j as int)),
            decreases h.lines@.len() - j,
        {
            let ghost mid = out@;
            out.append(h.lines[j].content.as_str());
            assert(h@.lines.subrange(0, j as int + 1).drop_last() =~= h@.lines.subrange(0, j as int));
            assert(out@ =~= before + h.header@ + lines_text(h@.lines.subrange(0, j as int + 1)));
            j = j + 1;
        }
        assert(h@.lines.subrange(0, h@.lines.len() as int) =~= h@.lines);
        assert(hunk_models(hunks@.subrange(0, i as int + 1)).drop_last() =~= hunk_models(hunks@.subrange(0, i as int)));
        assert(out@ =~= hunks_text(hunk_models(hunks@.subrange(0, i as int))) + hunk_text(h@));
        i = i + 1;
    }
    assert(hunks@.subrange(0, hunks@.len() as int) =~= hunks@);
    out
}

} // verus!
