//! The diff classifier: a single forward pass over the events of a tree diff
//! (file, then its hunks, then their lines) that accumulates one
//! [`FileChange`] per file.

use vstd::prelude::*;

use crate::model::{fresh_change, FileChange, FileChangeModel};

verus! {

/// One event of a diff enumeration, in the order the diff engine reports them.
#[derive(Debug)]
pub enum DiffEvent {
    /// A new file delta begins; `path` is its post-change path.
    File { path: String },
    /// A hunk of the current file, with its old-side and new-side line counts.
    Hunk { old_lines: u32, new_lines: u32 },
    /// A line of the current hunk, with its old and new line numbers if present.
    Line { old_lineno: Option<u32>, new_lineno: Option<u32> },
}

/// The enumeration broke its nesting contract: an event arrived before any file.
#[derive(Clone, Copy, Debug, PartialEq, Eq, Structural)]
pub enum ClassifyError {
    HunkOutsideFile,
    LineOutsideFile,
}

/// State of the classifier: finished records, and the record of the open file.
pub struct ClassifierModel {
    pub done: Seq<FileChangeModel>,
    pub open: Option<FileChangeModel>,
}

/// The record after one hunk with the given line counts.
pub open spec fn count_hunk(c: FileChangeModel, old_lines: nat, new_lines: nat) -> FileChangeModel {
    if old_lines == 0 {
        FileChangeModel { hunks_added: c.hunks_added + 1, ..c }
    } else if new_lines == 0 {
        FileChangeModel { hunks_removed: c.hunks_removed + 1, ..c }
    } else {
        FileChangeModel { hunks_modified: c.hunks_modified + 1, ..c }
    }
}

/// The record after one line with the given old and new line numbers.
pub open spec fn count_line(
    c: FileChangeModel,
    old_lineno: Option<u32>,
    new_lineno: Option<u32>,
) -> FileChangeModel {
    match (old_lineno, new_lineno) {
        (None, Some(_)) => FileChangeModel { lines_added: c.lines_added + 1, ..c },
        (Some(_), None) => FileChangeModel { lines_removed: c.lines_removed + 1, ..c },
        (Some(_), Some(_)) => FileChangeModel { lines_modified: c.lines_modified + 1, ..c },
        (None, None) => c,
    }
}

/// The finished records once the open one, if any, is closed.
pub open spec fn closed(s: ClassifierModel) -> Seq<FileChangeModel> {
    match s.open {
        Some(c) => s.done.push(c),
        None => s.done,
    }
}

/// One classification step; `None` where a hunk or line arrives with no open file.
pub open spec fn step(s: ClassifierModel, e: DiffEvent) -> Option<ClassifierModel> {
    match e {
        DiffEvent::File { path } => Some(
            ClassifierModel { done: closed(s), open: Some(fresh_change(path@)) },
        ),
        DiffEvent::Hunk { old_lines, new_lines } => match s.open {
            Some(c) => Some(
                ClassifierModel {
                    done: s.done,
                    open: Some(count_hunk(c, old_lines as nat, new_lines as nat)),
                },
            ),
            None => None,
        },
        DiffEvent::Line { old_lineno, new_lineno } => match s.open {
            Some(c) => Some(
                ClassifierModel { done: s.done, open: Some(count_line(c, old_lineno, new_lineno)) },
            ),
            None => None,
        },
    }
}

/// The state before any event.
pub open spec fn initial() -> ClassifierModel {
    ClassifierModel { done: Seq::empty(), open: None }
}

/// The state after all of `ev`, or `None` if some step failed.
pub open spec fn run(ev: Seq<DiffEvent>) -> Option<ClassifierModel>
    decreases ev.len(),
{
    if ev.len() == 0 {
        Some(initial())
    } else {
        match run(ev.drop_last()) {
            Some(s) => step(s, ev.last()),
            None => None,
        }
    }
}

/// The records a whole diff classifies into, or `None` on a nesting violation.
pub open spec fn classified(ev: Seq<DiffEvent>) -> Option<Seq<FileChangeModel>> {
    match run(ev) {
        Some(s) => Some(closed(s)),
        None => None,
    }
}

/// The paths of the file events of `ev`, in order.
pub open spec fn file_paths(ev: Seq<DiffEvent>) -> Seq<Seq<char>>
    decreases ev.len(),
{
    if ev.len() == 0 {
        Seq::empty()
    } else {
        match ev.last() {
            DiffEvent::File { path } => file_paths(ev.drop_last()).push(path@),
            _ => file_paths(ev.drop_last()),
        }
    }
}

/// A nesting violation: the diff opens with something other than a file.
pub open spec fn starts_outside_file(ev: Seq<DiffEvent>) -> bool {
    ev.len() > 0 && !(ev[0] is File)
}

/// Every counter of the open record, if any, is at most `n`.
pub open spec fn counters_at_most(s: ClassifierModel, n: nat) -> bool {
    match s.open {
        Some(c) => c.lines_added <= n && c.lines_removed <= n && c.lines_modified <= n
            && c.hunks_added <= n && c.hunks_removed <= n && c.hunks_modified <= n,
        None => true,
    }
}

/// A run fails exactly when the diff starts outside a file; a successful run
/// over a non-empty diff leaves a file open.
pub proof fn lemma_run_fails_iff(ev: Seq<DiffEvent>)
    ensures
        run(ev) is None <==> starts_outside_file(ev),
        run(ev) is Some && ev.len() > 0 ==> run(ev)->Some_0.open is Some,
    decreases ev.len(),
{
    if ev.len() > 0 {
        let pre = ev.drop_last();
        lemma_run_fails_iff(pre);
        if pre.len() > 0 {
            assert(pre[0] == ev[0]);
        }
    }
}

/// Room for one more increment of every counter of the open record.
pub open spec fn has_room(s: ClassifierModel) -> bool {
    counters_at_most(s, (u32::MAX - 1) as nat)
}

/// The push-style accumulator: finished records plus a one-slot holder for
/// the record of the file being enumerated.
pub struct Classifier {
    files: Vec<FileChange>,
    current: Option<FileChange>,
}

impl View for Classifier {
    type V = ClassifierModel;

    closed spec fn view(&self) -> ClassifierModel {
        ClassifierModel {
            done: self.files@.map_values(|c: FileChange| c@),
            open: match self.current {
                Some(c) => Some(c@),
                None => None,
            },
        }
    }
}

impl Classifier {
    /// A classifier with no records and no open file.
    pub fn new() -> (r: Classifier)
        ensures
            r@ == initial(),
    {
        let r = Classifier { files: Vec::new(), current: None };
        assert(r@.done =~= Seq::<FileChangeModel>::empty());
        r
    }

    /// Closes the open record, if any, and opens a fresh one for `path`.
    pub fn on_file(&mut self, path: String)
        ensures
            Some(final(self)@) == step(old(self)@, DiffEvent::File { path }),
    {
        let fresh = FileChange::new(path);
        let prev = self.current.take();
        match prev {
            Some(c) => {
                self.files.push(c);
            },
            None => {},
        }
        self.current = Some(fresh);
        assert(self@.done =~= closed(old(self)@));
    }

    /// Counts one hunk of the open file as added, removed or modified.
    pub fn on_hunk(&mut self, old_lines: u32, new_lines: u32) -> (r: Result<(), ClassifyError>)
        requires
            has_room(old(self)@),
        ensures
            step(old(self)@, DiffEvent::Hunk { old_lines, new_lines }) matches Some(t)
                ==> r is Ok && final(self)@ == t,
            step(old(self)@, DiffEvent::Hunk { old_lines, new_lines }) is None
                ==> r == Err::<(), ClassifyError>(ClassifyError::HunkOutsideFile)
                && final(self)@ == old(self)@,
    {
        match &mut self.current {
            Some(c) => {
                if old_lines == 0 {
                    c.hunks_added = c.hunks_added + 1;
                } else if new_lines == 0 {
                    c.hunks_removed = c.hunks_removed + 1;
                } else {
                    c.hunks_modified = c.hunks_modified + 1;
                }
                Ok(())
            },
            None => Err(ClassifyError::HunkOutsideFile),
        }
    }

    /// Counts one line of the open file as added, removed or modified.
    pub fn on_line(&mut self, old_lineno: Option<u32>, new_lineno: Option<u32>) -> (r: Result<(), ClassifyError>)
        requires
            has_room(old(self)@),
        ensures
            step(old(self)@, DiffEvent::Line { old_lineno, new_lineno }) matches Some(t)
                ==> r is Ok && final(self)@ == t,
            step(old(self)@, DiffEvent::Line { old_lineno, new_lineno }) is None
                ==> r == Err::<(), ClassifyError>(ClassifyError::LineOutsideFile)
                && final(self)@ == old(self)@,
    {
        match &mut self.current {
            Some(c) => {
                match (old_lineno, new_lineno) {
                    (None, Some(_)) => {
                        c.lines_added = c.lines_added + 1;
                    },
                    (Some(_), None) => {
                        c.lines_removed = c.lines_removed + 1;
                    },
                    (Some(_), Some(_)) => {
                        c.lines_modified = c.lines_modified + 1;
                    },
                    (None, None) => {},
                }
                Ok(())
            },
            None => Err(ClassifyError::LineOutsideFile),
        }
    }

    /// Applies one event of the enumeration.
    pub fn feed(&mut self, e: &DiffEvent) -> (r: Result<(), ClassifyError>)
        requires
            has_room(old(self)@),
        ensures
            step(old(self)@, *e) matches Some(t) ==> r is Ok && final(self)@ == t,
            step(old(self)@, *e) is None ==> r is Err && final(self)@ == old(self)@,
    {
        match e {
            DiffEvent::File { path } => {
                self.on_file(path.clone());
                Ok(())
            },
            DiffEvent::Hunk { old_lines, new_lines } => self.on_hunk(*old_lines, *new_lines),
            DiffEvent::Line { old_lineno, new_lineno } => self.on_line(*old_lineno, *new_lineno),
        }
    }

    /// The finished records, the open one closed last.
    pub fn finish(self) -> (r: Vec<FileChange>)
        ensures
            r@.map_values(|c: FileChange| c@) == closed(self@),
    {
        let mut files = self.files;
        match self.current {
            Some(c) => {
                files.push(c);
            },
            None => {},
        }
        assert(files@.map_values(|c: FileChange| c@) =~= closed(self@));
        files
    }
}

/// Classifies a whole diff, given as its enumeration events, into one record
/// per file in enumeration order. Fails exactly when a hunk or a line comes
/// before the first file.
pub fn classify(events: &Vec<DiffEvent>) -> (r: Result<Vec<FileChange>, ClassifyError>)
    requires
        events@.len() <= u32::MAX,
    ensures
        r is Err <==> starts_outside_file(events@),
        r matches Ok(v) ==> classified(events@) == Some(v@.map_values(|c: FileChange| c@)),
        r is Err ==> classified(events@) is None,
{
    let mut c = Classifier::new();
    let mut i: usize = 0;
    while i < events.len()
        invariant
            i <= events@.len(),
            events@.len() <= u32::MAX,
            run(events@.take(i as int)) == Some(c@),
            counters_at_most(c@, i as nat),
        decreases events@.len() - i,
    {
        assert(events@.take(i + 1).drop_last() =~= events@.take(i as int));
        let r = c.feed(&events[i]);
        match r {
            Err(e) => {
                proof {
                    lemma_run_fails_iff(events@.take(i + 1));
                    lemma_run_fails_iff(events@);
                }
                return Err(e);
            },
            Ok(()) => {},
        }
        i = i + 1;
    }
    assert(events@.take(i as int) =~= events@);
    proof {
        lemma_run_fails_iff(events@);
    }
    Ok(c.finish())
}

/// The path a file delta is recorded under: its post-change path, or else its
/// pre-change path (a deleted file has only the latter).
pub open spec fn delta_path_of(new_path: Option<String>, old_path: Option<String>) -> Option<Seq<char>> {
    match new_path {
        Some(p) => Some(p@),
        None => match old_path {
            Some(p) => Some(p@),
            None => None,
        },
    }
}

/// Picks the path of a file delta; `None` where the delta has neither side.
pub fn delta_path(new_path: Option<String>, old_path: Option<String>) -> (r: Option<String>)
    ensures
        r is Some <==> delta_path_of(new_path, old_path) is Some,
        r matches Some(p) ==> delta_path_of(new_path, old_path) == Some(p@),
{
    match new_path {
        Some(p) => Some(p),
        None => old_path,
    }
}

/// The paths of the records a successful run has produced so far, the open
/// one included.
pub open spec fn record_paths(s: ClassifierModel) -> Seq<Seq<char>> {
    closed(s).map_values(|c: FileChangeModel| c.path)
}

proof fn lemma_run_paths(ev: Seq<DiffEvent>)
    requires
        run(ev) is Some,
    ensures
        record_paths(run(ev)->Some_0) == file_paths(ev),
    decreases ev.len(),
{
    if ev.len() > 0 {
        let pre = ev.drop_last();
        lemma_run_paths(pre);
        let s = run(pre)->Some_0;
        let t = run(ev)->Some_0;
        match ev.last() {
            DiffEvent::File { path } => {
                assert(record_paths(t) =~= record_paths(s).push(path@));
            },
            _ => {
                assert(record_paths(t) =~= record_paths(s));
            },
        }
    } else {
        assert(record_paths(initial()) =~= Seq::<Seq<char>>::empty());
    }
}

/// A classified diff has exactly one record per file event, carrying that
/// event's path, in enumeration order: no record for a file the diff did not
/// mention.
pub proof fn one_record_per_file(ev: Seq<DiffEvent>)
    requires
        classified(ev) is Some,
    ensures
        classified(ev)->Some_0.len() == file_paths(ev).len(),
        classified(ev)->Some_0.map_values(|c: FileChangeModel| c.path) == file_paths(ev),
{
    lemma_run_paths(ev);
}

/// Counters never decrease during classification: a step keeps every finished
/// record, and a hunk or line event keeps the open file's path and leaves each
/// of its counters equal or one higher.
pub proof fn counters_never_decrease(s: ClassifierModel, e: DiffEvent)
    requires
        step(s, e) is Some,
    ensures
        step(s, e)->Some_0.done.len() >= s.done.len(),
        step(s, e)->Some_0.done.subrange(0, s.done.len() as int) == s.done,
        !(e is File) ==> ({
            let c = s.open->Some_0;
            let d = step(s, e)->Some_0.open->Some_0;
            &&& d.path == c.path
            &&& c.lines_added <= d.lines_added <= c.lines_added + 1
            &&& c.lines_removed <= d.lines_removed <= c.lines_removed + 1
            &&& c.lines_modified <= d.lines_modified <= c.lines_modified + 1
            &&& c.hunks_added <= d.hunks_added <= c.hunks_added + 1
            &&& c.hunks_removed <= d.hunks_removed <= c.hunks_removed + 1
            &&& c.hunks_modified <= d.hunks_modified <= c.hunks_modified + 1
        }),
{
    let t = step(s, e)->Some_0;
    assert(t.done.subrange(0, s.done.len() as int) =~= s.done);
}

/// A hunk raises exactly one hunk counter of the open file by one: added when
/// its old-side count is zero, else removed when its new-side count is zero,
/// else modified. Nothing else of the record changes.
pub proof fn hunk_counted_once(s: ClassifierModel, old_lines: u32, new_lines: u32)
    requires
        s.open is Some,
    ensures
        ({
            let c = s.open->Some_0;
            let t = step(s, DiffEvent::Hunk { old_lines, new_lines })->Some_0;
            let d = t.open->Some_0;
            &&& t.done == s.done
            &&& d.path == c.path
            &&& d.lines_added == c.lines_added
            &&& d.lines_removed == c.lines_removed
            &&& d.lines_modified == c.lines_modified
            &&& old_lines == 0 ==> d.hunks_added == c.hunks_added + 1
                && d.hunks_removed == c.hunks_removed && d.hunks_modified == c.hunks_modified
            &&& old_lines != 0 && new_lines == 0 ==> d.hunks_removed == c.hunks_removed + 1
                && d.hunks_added == c.hunks_added && d.hunks_modified == c.hunks_modified
            &&& old_lines != 0 && new_lines != 0 ==> d.hunks_modified == c.hunks_modified + 1
                && d.hunks_added == c.hunks_added && d.hunks_removed == c.hunks_removed
        }),
{
}

} // verus!
