//! Projection of a commit record into one flat row per changed file.

use vstd::prelude::*;

use crate::model::{Commit, CommitModel, FileChangeModel, FlatCommit, FlatCommitModel};

verus! {

/// The rows of a commit: one per change, in order, each with the commit's
/// scalar fields.
pub open spec fn flat_rows(c: CommitModel) -> Seq<FlatCommitModel> {
    c.changes.map_values(|fc: FileChangeModel| FlatCommitModel { meta: c.meta, change: fc })
}

/// A commit with `k` changes flattens into exactly `k` rows; every row carries
/// the same commit-level fields, and row `i` carries the path and counters of
/// change `i`.
pub proof fn rows_share_commit_fields(c: CommitModel)
    ensures
        flat_rows(c).len() == c.changes.len(),
        forall|i: int| 0 <= i < flat_rows(c).len() ==> #[trigger] flat_rows(c)[i].meta == c.meta,
        forall|i: int|
            0 <= i < flat_rows(c).len() ==> #[trigger] flat_rows(c)[i].change == c.changes[i],
        forall|i: int, j: int|
            0 <= i < flat_rows(c).len() && 0 <= j < flat_rows(c).len() ==> #[trigger] flat_rows(
                c,
            )[i].meta == #[trigger] flat_rows(c)[j].meta,
{
}

/// One flat row per entry of `c.changes`, in order.
pub fn flatten(c: &Commit) -> (r: Vec<FlatCommit>)
    ensures
        r@.map_values(|f: FlatCommit| f@) == flat_rows(c@),
{
    let mut rows: Vec<FlatCommit> = Vec::new();
    let mut i: usize = 0;
    while i < c.changes.len()
        invariant
            i <= c.changes@.len(),
            rows@.len() == i,
            rows@.map_values(|f: FlatCommit| f@) == flat_rows(c@).take(i as int),
        decreases c.changes@.len() - i,
    {
        let change = &c.changes[i];
        let row = FlatCommit {
            id: c.id.clone(),
            repo_url: c.repo_url.clone(),
            timestamp: c.timestamp,
            author_name: c.author_name.clone(),
            author_email: c.author_email.clone(),
            message: c.message.clone(),
            kind: c.kind,
            path: change.path.clone(),
            lines_added: change.lines_added,
            lines_removed: change.lines_removed,
            lines_modified: change.lines_modified,
            hunks_added: change.hunks_added,
            hunks_removed: change.hunks_removed,
            hunks_modified: change.hunks_modified,
        };
        let ghost prev = rows@;
        rows.push(row);
        proof {
            assert forall|j: int| 0 <= j < i implies #[trigger] rows@[j]@ == flat_rows(c@)[j] by {
                assert(rows@[j] == prev[j]);
                assert(prev.map_values(|f: FlatCommit| f@)[j] == flat_rows(c@).take(i as int)[j]);
            }
        }
        i = i + 1;
        assert(rows@.map_values(|f: FlatCommit| f@) =~= flat_rows(c@).take(i as int));
    }
    assert(flat_rows(c@).take(i as int) =~= flat_rows(c@));
    rows
}

} // verus!
