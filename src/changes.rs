use vstd::prelude::*;
use vstd::string::*;

verus! {

/// Status flag: the path is new in the index.
pub const INDEX_NEW: u32 = 1;
/// Status flag: the path is modified in the index.
pub const INDEX_MODIFIED: u32 = 2;
/// Status flag: the path is deleted from the index.
pub const INDEX_DELETED: u32 = 4;
/// Status flag: the path is renamed in the index.
pub const INDEX_RENAMED: u32 = 8;
/// Status flag: the path changed type in the index.
pub const INDEX_TYPECHANGE: u32 = 16;

/// The five index flags together.
pub const STAGED_MASK: u32 = 31;

/// What stands in for a path that cannot be resolved.
pub const UNKNOWN_PATH: &'static str = "unknown";

/// One entry of the index-versus-HEAD status listing, as plain values.
#[derive(Debug, Clone)]
pub struct StatusEntry {
    /// The status flags of the entry.
    pub bits: u32,
    /// The entry's path, when it is valid text.
    pub path: Option<String>,
    /// For an entry with a HEAD-to-index delta: its old and new paths, when known.
    pub rename: Option<(Option<String>, Option<String>)>,
}

/// Aggregate size of a set of staged changes.
#[derive(Debug, Clone, Copy, Default, PartialEq, Eq, Structural)]
pub struct DiffStats {
    pub files_changed: usize,
    pub insertions: usize,
    pub deletions: usize,
}

/// The staged changes, classified by kind, with their aggregate size.
#[derive(Debug, Clone)]
pub struct StagedChanges {
    pub added: Vec<String>,
    pub modified: Vec<String>,
    pub deleted: Vec<String>,
    /// Renames as (old path, new path).
    pub renamed: Vec<(String, String)>,
    pub stats: DiffStats,
}

pub open spec fn has_flag(bits: u32, flag: u32) -> bool {
    bits & flag != 0
}

/// The kind a status entry is filed under; the first that applies wins.
pub open spec fn is_added(e: StatusEntry) -> bool {
    has_flag(e.bits, INDEX_NEW)
}

/// A change of content or of type.
pub open spec fn is_modified(e: StatusEntry) -> bool {
    !is_added(e) && (has_flag(e.bits, INDEX_MODIFIED) || has_flag(e.bits, INDEX_TYPECHANGE))
}

pub open spec fn is_deleted(e: StatusEntry) -> bool {
    !is_added(e) && !is_modified(e) && has_flag(e.bits, INDEX_DELETED)
}

pub open spec fn is_renamed(e: StatusEntry) -> bool {
    !is_added(e) && !is_modified(e) && !is_deleted(e) && has_flag(e.bits, INDEX_RENAMED)
}

/// Whether the entry records a change staged in the index.
pub open spec fn is_staged(e: StatusEntry) -> bool {
    has_flag(e.bits, INDEX_NEW) || has_flag(e.bits, INDEX_MODIFIED) || has_flag(
        e.bits,
        INDEX_DELETED,
    ) || has_flag(e.bits, INDEX_RENAMED) || has_flag(e.bits, INDEX_TYPECHANGE)
}

/// A path as text; a missing one is empty.
pub open spec fn path_text(p: Option<String>) -> Seq<char> {
    match p {
        Some(s) => s@,
        None => Seq::empty(),
    }
}

/// A rename side as text; a missing one is the placeholder.
pub open spec fn rename_text(p: Option<String>) -> Seq<char> {
    match p {
        Some(s) => s@,
        None => UNKNOWN_PATH@,
    }
}

/// The (old, new) paths of a rename; sides that cannot be resolved, or a
/// rename without its delta, give the placeholder.
pub open spec fn rename_texts(r: Option<(Option<String>, Option<String>)>) -> (Seq<char>, Seq<char>) {
    match r {
        Some((old, new)) => (rename_text(old), rename_text(new)),
        None => (UNKNOWN_PATH@, UNKNOWN_PATH@),
    }
}

/// Every staged entry is filed under exactly one of the four kinds, and an
/// entry that is not staged under none.
pub proof fn lemma_staged_filed_once(e: StatusEntry)
    ensures
        is_staged(e) ==> (is_added(e) || is_modified(e) || is_deleted(e) || is_renamed(e)),
        !(is_added(e) && is_modified(e)) && !(is_added(e) && is_deleted(e)) && !(is_added(e)
            && is_renamed(e)) && !(is_modified(e) && is_deleted(e)) && !(is_modified(e)
            && is_renamed(e)) && !(is_deleted(e) && is_renamed(e)),
        !is_staged(e) ==> !(is_added(e) || is_modified(e) || is_deleted(e) || is_renamed(e)),
{
}

/// The number of staged entries.
pub open spec fn staged_count(entries: Seq<StatusEntry>) -> nat
    decreases entries.len(),
{
    if entries.len() == 0 {
        0
    } else {
        staged_count(entries.drop_last()) + if is_staged(entries.last()) {
            1nat
        } else {
            0nat
        }
    }
}

/// The files counted are exactly the staged entries.
pub proof fn lemma_count_is_staged(entries: Seq<StatusEntry>)
    ensures
        classified_count(entries) == staged_count(entries),
    decreases entries.len(),
{
    if entries.len() > 0 {
        lemma_count_is_staged(entries.drop_last());
        lemma_staged_filed_once(entries.last());
    }
}

/// The paths of the entries that satisfy `f`, in order.
pub open spec fn paths_where(entries: Seq<StatusEntry>, f: spec_fn(StatusEntry) -> bool) -> Seq<
    Seq<char>,
>
    decreases entries.len(),
{
    if entries.len() == 0 {
        Seq::empty()
    } else {
        let prev = paths_where(entries.drop_last(), f);
        if f(entries.last()) {
            prev.push(path_text(entries.last().path))
        } else {
            prev
        }
    }
}

/// The (old, new) paths of the renamed entries, in order.
pub open spec fn renames_of(entries: Seq<StatusEntry>) -> Seq<(Seq<char>, Seq<char>)>
    decreases entries.len(),
{
    if entries.len() == 0 {
        Seq::empty()
    } else {
        let prev = renames_of(entries.drop_last());
        let e = entries.last();
        if is_renamed(e) {
            prev.push(rename_texts(e.rename))
        } else {
            prev
        }
    }
}

/// The number of entries filed under one of the four kinds.
pub open spec fn classified_count(entries: Seq<StatusEntry>) -> nat
    decreases entries.len(),
{
    if entries.len() == 0 {
        0
    } else {
        let e = entries.last();
        classified_count(entries.drop_last()) + if is_added(e) || is_modified(e) || is_deleted(e)
            || is_renamed(e) {
            1nat
        } else {
            0nat
        }
    }
}

/// Whether any entry records a staged change.
pub open spec fn any_staged(entries: Seq<StatusEntry>) -> bool {
    exists|i: int| 0 <= i < entries.len() && is_staged(#[trigger] entries[i])
}

pub open spec fn texts(v: Seq<String>) -> Seq<Seq<char>> {
    v.map_values(|s: String| s@)
}

pub open spec fn pair_texts(v: Seq<(String, String)>) -> Seq<(Seq<char>, Seq<char>)> {
    v.map_values(|p: (String, String)| (p.0@, p.1@))
}

impl StagedChanges {
    /// The classification of `entries`, before line counts are known.
    pub open spec fn classifies(self, entries: Seq<StatusEntry>) -> bool {
        &&& texts(self.added@) == paths_where(entries, |e: StatusEntry| is_added(e))
        &&& texts(self.modified@) == paths_where(entries, |e: StatusEntry| is_modified(e))
        &&& texts(self.deleted@) == paths_where(entries, |e: StatusEntry| is_deleted(e))
        &&& pair_texts(self.renamed@) == renames_of(entries)
        &&& self.stats.files_changed == classified_count(entries)
    }

    /// The number of files across the four kinds.
    pub open spec fn file_total(self) -> nat {
        (self.added@.len() + self.modified@.len() + self.deleted@.len()
            + self.renamed@.len()) as nat
    }
}

/// The number of changed files equals the number of paths filed as added,
/// modified or deleted plus the number of renames, for every status listing.
pub proof fn lemma_files_changed_is_total(entries: Seq<StatusEntry>)
    ensures
        classified_count(entries) == paths_where(entries, |e: StatusEntry| is_added(e)).len()
            + paths_where(entries, |e: StatusEntry| is_modified(e)).len() + paths_where(
            entries,
            |e: StatusEntry| is_deleted(e),
        ).len() + renames_of(entries).len(),
    decreases entries.len(),
{
    if entries.len() > 0 {
        lemma_files_changed_is_total(entries.drop_last());
    }
}

fn text_of(p: &Option<String>) -> (r: String)
    ensures
        r@ == path_text(*p),
{
    match p {
        Some(s) => s.clone(),
        None => String::new(),
    }
}

fn rename_side(p: &Option<String>) -> (r: String)
    ensures
        r@ == rename_text(*p),
{
    match p {
        Some(s) => s.clone(),
        None => String::from_str(UNKNOWN_PATH),
    }
}

/// Files each staged status entry under exactly one of added, modified
/// (content or type change), deleted or renamed (the first that applies, in
/// that order) and counts the files filed.
pub fn classify_statuses(entries: &Vec<StatusEntry>) -> (r: StagedChanges)
    ensures
        r.classifies(entries@),
        r.stats.insertions == 0,
        r.stats.deletions == 0,
        r.stats.files_changed == r.file_total(),
        r.stats.files_changed == staged_count(entries@),
{
    proof {
        lemma_count_is_staged(entries@);
    }
    let mut r = StagedChanges {
        added: Vec::new(),
        modified: Vec::new(),
        deleted: Vec::new(),
        renamed: Vec::new(),
        stats: DiffStats { files_changed: 0, insertions: 0, deletions: 0 },
    };
    let mut i: usize = 0;
    assert(entries@.subrange(0, 0) =~= Seq::<StatusEntry>::empty());
    assert(texts(r.added@) =~= Seq::empty());
    assert(texts(r.modified@) =~= Seq::empty());
    assert(texts(r.deleted@) =~= Seq::empty());
    assert(pair_texts(r.renamed@) =~= Seq::empty());
    while i < entries.len()
        invariant
            i <= entries@.len(),
            r.classifies(entries@.subrange(0, i as int)),
            r.stats.insertions == 0,
            r.stats.deletions == 0,
            r.stats.files_changed == r.file_total(),
            r.stats.files_changed <= i,
        decreases entries@.len() - i,
    {
        let e = &entries[i];
        let ghost pre = entries@.subrange(0, i as int);
        let ghost next = entries@.subrange(0, i as int + 1);
        assert(next.drop_last() =~= pre);
        assert(next.last() == *e);
        if e.bits & INDEX_NEW != 0 {
            r.added.push(text_of(&e.path));
            r.stats.files_changed = r.stats.files_changed + 1;
        } else if e.bits & INDEX_MODIFIED != 0 || e.bits & INDEX_TYPECHANGE != 0 {
            r.modified.push(text_of(&e.path));
            r.stats.files_changed = r.stats.files_changed + 1;
        } else if e.bits & INDEX_DELETED != 0 {
            r.deleted.push(text_of(&e.path));
            r.stats.files_changed = r.stats.files_changed + 1;
        } else if e.bits & INDEX_RENAMED != 0 {
            match &e.rename {
                Some((old, new)) => {
                    r.renamed.push((rename_side(old), rename_side(new)));
                },
                None => {
                    r.renamed.push((String::from_str(UNKNOWN_PATH), String::from_str(UNKNOWN_PATH)));
                },
            }
            r.stats.files_changed = r.stats.files_changed + 1;
        }
        assert(texts(r.added@) =~= paths_where(next, |e: StatusEntry| is_added(e)));
        assert(texts(r.modified@) =~= paths_where(next, |e: StatusEntry| is_modified(e)));
        assert(texts(r.deleted@) =~= paths_where(next, |e: StatusEntry| is_deleted(e)));
        assert(pair_texts(r.renamed@) =~= renames_of(next));
        i = i + 1;
    }
    assert(entries@.subrange(0, entries@.len() as int) =~= entries@);
    r
}

/// Whether any status entry records a change staged in the index.
pub fn has_staged_entry(entries: &Vec<StatusEntry>) -> (r: bool)
    ensures
        r == any_staged(entries@),
{
    let mut i: usize = 0;
    while i < entries.len()
        invariant
            i <= entries@.len(),
            forall|j: int| 0 <= j < i ==> !is_staged(#[trigger] entries@[j]),
        decreases entries@.len() - i,
    {
        let b = entries[i].bits;
        if b & STAGED_MASK != 0 {
            assert((b & 31u32 != 0) == (b & 1u32 != 0 || b & 2u32 != 0 || b & 4u32 != 0 || b & 8u32
                != 0 || b & 16u32 != 0)) by (bit_vector);
            assert(is_staged(entries@[i as int]));
            return true;
        }
        assert((b & 31u32 != 0) == (b & 1u32 != 0 || b & 2u32 != 0 || b & 4u32 != 0 || b & 8u32
            != 0 || b & 16u32 != 0)) by (bit_vector);
        i = i + 1;
    }
    false
}

} // verus!
