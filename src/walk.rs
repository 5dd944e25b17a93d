//! Per-commit decisions of the commit walk, and assembly of the commit record
//! from the commit's metadata and the events of its diff.

use vstd::prelude::*;

use crate::classify::{classified, classify, starts_outside_file, ClassifyError, DiffEvent};
use crate::flatten::{flat_rows, flatten};
use crate::model::{Commit, CommitMeta, CommitModel, CommitType, FileChange, FileChangeModel, FlatCommit, FlatCommitModel};

verus! {

/// The tree a commit's own tree is compared with.
#[derive(Clone, Copy, Debug, PartialEq, Eq, Structural)]
pub enum DiffBase {
    /// The commit has no parent: compare with an empty tree.
    EmptyTree,
    /// Compare with the tree of the first parent.
    FirstParent,
}

/// What to do with a commit before its record can be built.
#[derive(Clone, Copy, Debug, PartialEq, Eq, Structural)]
pub enum CommitPlan {
    /// A merge: no diff is computed and no change is recorded.
    SkipMerge,
    /// Compute the diff from the given base to the commit's tree.
    Diff(DiffBase),
}

/// The plan for a commit with `parent_count` parents.
pub open spec fn plan_of(parent_count: nat) -> CommitPlan {
    if parent_count > 1 {
        CommitPlan::SkipMerge
    } else if parent_count == 1 {
        CommitPlan::Diff(DiffBase::FirstParent)
    } else {
        CommitPlan::Diff(DiffBase::EmptyTree)
    }
}

/// Decides whether a commit is diffed, and against which tree: a merge is not
/// diffed, a commit with one parent is diffed against that parent's tree, and
/// a root commit against an empty tree.
pub fn plan_commit(parent_count: usize) -> (r: CommitPlan)
    ensures
        r == plan_of(parent_count as nat),
{
    if parent_count > 1 {
        CommitPlan::SkipMerge
    } else if parent_count == 1 {
        CommitPlan::Diff(DiffBase::FirstParent)
    } else {
        CommitPlan::Diff(DiffBase::EmptyTree)
    }
}

/// What the repository reports of a commit, as plain values. An absent name,
/// e-mail or message is `None`.
#[derive(Debug)]
pub struct CommitHeader {
    pub id: String,
    pub timestamp: i64,
    pub author_name: Option<String>,
    pub author_email: Option<String>,
    pub message: Option<String>,
    pub parent_count: usize,
}

/// The text of a field, or the sentinel `"unknown"` where it is absent.
pub open spec fn or_unknown(s: Option<String>) -> Seq<char> {
    match s {
        Some(t) => t@,
        None => "unknown"@,
    }
}

/// Returns the text, or `"unknown"` for an absent field.
pub fn text_or_unknown(s: Option<String>) -> (r: String)
    ensures
        r@ == or_unknown(s),
{
    match s {
        Some(t) => t,
        None => "unknown".to_owned(),
    }
}

/// The commit-level fields recorded for `h` in a run over `repo_url`.
pub open spec fn header_meta(repo_url: Seq<char>, h: CommitHeader, kind: CommitType) -> CommitMeta {
    CommitMeta {
        id: h.id@,
        repo_url,
        timestamp: h.timestamp as int,
        author_name: or_unknown(h.author_name),
        author_email: or_unknown(h.author_email),
        message: or_unknown(h.message),
        kind,
    }
}

/// The record of a commit: a merge with no changes when it has two or more
/// parents, whatever its diff holds; otherwise an ordinary commit carrying the
/// classification of its diff, or `None` where that diff breaks its nesting.
pub open spec fn commit_of(repo_url: Seq<char>, h: CommitHeader, ev: Seq<DiffEvent>) -> Option<CommitModel> {
    if h.parent_count > 1 {
        Some(CommitModel { meta: header_meta(repo_url, h, CommitType::Merge), changes: Seq::empty() })
    } else {
        match classified(ev) {
            Some(fs) => Some(CommitModel { meta: header_meta(repo_url, h, CommitType::Normal), changes: fs }),
            None => None,
        }
    }
}

/// Builds the record of one commit from its header and the events of its diff
/// (ignored for a merge).
pub fn build_commit(repo_url: &String, header: CommitHeader, diff: &Vec<DiffEvent>) -> (r: Result<Commit, ClassifyError>)
    requires
        diff@.len() <= u32::MAX,
    ensures
        r is Err <==> header.parent_count <= 1 && starts_outside_file(diff@),
        r matches Ok(c) ==> commit_of(repo_url@, header, diff@) == Some(c@),
        r is Err ==> commit_of(repo_url@, header, diff@) is None,
        header.parent_count > 1 ==> r is Ok && r->Ok_0.kind == CommitType::Merge && r->Ok_0.changes@.len() == 0,
        header.parent_count <= 1 && r is Ok ==> r->Ok_0.kind == CommitType::Normal,
{
    let ghost h = header;
    let kind = if header.parent_count > 1 {
        CommitType::Merge
    } else {
        CommitType::Normal
    };
    let changes: Vec<FileChange> = if header.parent_count > 1 {
        Vec::new()
    } else {
        match classify(diff) {
            Ok(v) => v,
            Err(e) => {
                return Err(e);
            },
        }
    };
    let c = Commit {
        id: header.id,
        repo_url: repo_url.clone(),
        timestamp: header.timestamp,
        author_name: text_or_unknown(header.author_name),
        author_email: text_or_unknown(header.author_email),
        message: text_or_unknown(header.message),
        kind,
        changes,
    };
    assert(h.parent_count > 1 ==> c@.changes =~= Seq::<FileChangeModel>::empty());
    Ok(c)
}

/// The rows emitted for a commit, or `None` where its diff breaks its nesting.
pub open spec fn rows_of(repo_url: Seq<char>, h: CommitHeader, ev: Seq<DiffEvent>) -> Option<Seq<FlatCommitModel>> {
    match commit_of(repo_url, h, ev) {
        Some(c) => Some(flat_rows(c)),
        None => None,
    }
}

/// Builds the record of one commit and flattens it into its rows. A merge
/// yields no row.
pub fn commit_rows(repo_url: &String, header: CommitHeader, diff: &Vec<DiffEvent>) -> (r: Result<Vec<FlatCommit>, ClassifyError>)
    requires
        diff@.len() <= u32::MAX,
    ensures
        r is Err <==> header.parent_count <= 1 && starts_outside_file(diff@),
        r matches Ok(rows) ==> rows_of(repo_url@, header, diff@) == Some(rows@.map_values(|f: FlatCommit| f@)),
        r is Err ==> rows_of(repo_url@, header, diff@) is None,
        header.parent_count > 1 ==> r is Ok && r->Ok_0@.len() == 0,
{
    match build_commit(repo_url, header, diff) {
        Ok(c) => {
            let rows = flatten(&c);
            assert(rows@.map_values(|f: FlatCommit| f@).len() == rows@.len());
            Ok(rows)
        },
        Err(e) => Err(e),
    }
}

/// A starting point of the walk other than the head: a local branch.
#[derive(Debug)]
pub struct BranchTip {
    pub is_head: bool,
    /// The commit the branch points at, if it resolves to one.
    pub target: Option<String>,
}

/// The targets pushed as extra starting points: those of the branches that
/// are not the head and resolve to a commit, in order.
pub open spec fn extra_starts(bs: Seq<BranchTip>) -> Seq<Seq<char>>
    decreases bs.len(),
{
    if bs.len() == 0 {
        Seq::empty()
    } else {
        let b = bs.last();
        let rest = extra_starts(bs.drop_last());
        if !b.is_head && b.target is Some {
            rest.push(b.target->Some_0@)
        } else {
            rest
        }
    }
}

/// Selects the branch targets to add to the walk beside the head.
pub fn branch_starts(branches: &Vec<BranchTip>) -> (r: Vec<String>)
    ensures
        r@.map_values(|s: String| s@) == extra_starts(branches@),
{
    let mut r: Vec<String> = Vec::new();
    let mut i: usize = 0;
    while i < branches.len()
        invariant
            i <= branches@.len(),
            r@.map_values(|s: String| s@) == extra_starts(branches@.take(i as int)),
        decreases branches@.len() - i,
    {
        assert(branches@.take(i + 1).drop_last() =~= branches@.take(i as int));
        let b = &branches[i];
        if !b.is_head {
            match &b.target {
                Some(t) => {
                    r.push(t.clone());
                },
                None => {},
            }
        }
        i = i + 1;
        assert(r@.map_values(|s: String| s@) =~= extra_starts(branches@.take(i as int)));
    }
    assert(branches@.take(i as int) =~= branches@);
    r
}

} // verus!
