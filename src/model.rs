//! Records produced for each visited commit, and their mathematical views.

use vstd::prelude::*;

verus! {

/// One file's change summary within one commit.
#[derive(Debug)]
pub struct FileChange {
    pub path: String,
    pub lines_added: u32,
    pub lines_removed: u32,
    pub lines_modified: u32,
    pub hunks_added: u32,
    pub hunks_removed: u32,
    pub hunks_modified: u32,
}

/// View of a [`FileChange`]: the path as characters, the counters as naturals.
pub struct FileChangeModel {
    pub path: Seq<char>,
    pub lines_added: nat,
    pub lines_removed: nat,
    pub lines_modified: nat,
    pub hunks_added: nat,
    pub hunks_removed: nat,
    pub hunks_modified: nat,
}

impl View for FileChange {
    type V = FileChangeModel;

    open spec fn view(&self) -> FileChangeModel {
        FileChangeModel {
            path: self.path@,
            lines_added: self.lines_added as nat,
            lines_removed: self.lines_removed as nat,
            lines_modified: self.lines_modified as nat,
            hunks_added: self.hunks_added as nat,
            hunks_removed: self.hunks_removed as nat,
            hunks_modified: self.hunks_modified as nat,
        }
    }
}

/// A record for `path` with every counter at zero.
pub open spec fn fresh_change(path: Seq<char>) -> FileChangeModel {
    FileChangeModel {
        path,
        lines_added: 0,
        lines_removed: 0,
        lines_modified: 0,
        hunks_added: 0,
        hunks_removed: 0,
        hunks_modified: 0,
    }
}

impl FileChange {
    /// A zero-initialised record for the file at `path`.
    pub fn new(path: String) -> (r: FileChange)
        ensures
            r@ == fresh_change(path@),
    {
        FileChange {
            path,
            lines_added: 0,
            lines_removed: 0,
            lines_modified: 0,
            hunks_added: 0,
            hunks_removed: 0,
            hunks_modified: 0,
        }
    }

    /// A field-by-field copy of this record.
    pub fn duplicate(&self) -> (r: FileChange)
        ensures
            r@ == self@,
    {
        FileChange {
            path: self.path.clone(),
            lines_added: self.lines_added,
            lines_removed: self.lines_removed,
            lines_modified: self.lines_modified,
            hunks_added: self.hunks_added,
            hunks_removed: self.hunks_removed,
            hunks_modified: self.hunks_modified,
        }
    }
}

/// How a commit is recorded: an ordinary commit, or a merge (two or more
/// parents), whose changes are not recorded.
#[derive(Clone, Copy, Debug, PartialEq, Eq, Structural)]
pub enum CommitType {
    Normal,
    Merge,
}

/// One traversed commit with its per-file changes.
#[derive(Debug)]
pub struct Commit {
    pub id: String,
    pub repo_url: String,
    pub timestamp: i64,
    pub author_name: String,
    pub author_email: String,
    pub message: String,
    pub kind: CommitType,
    pub changes: Vec<FileChange>,
}

/// One emitted row: the scalar fields of a commit merged with one file's change.
#[derive(Debug)]
pub struct FlatCommit {
    pub id: String,
    pub repo_url: String,
    pub timestamp: i64,
    pub author_name: String,
    pub author_email: String,
    pub message: String,
    pub kind: CommitType,
    pub path: String,
    pub lines_added: u32,
    pub lines_removed: u32,
    pub lines_modified: u32,
    pub hunks_added: u32,
    pub hunks_removed: u32,
    pub hunks_modified: u32,
}

/// The commit-level scalar fields shared by a commit and all its rows.
pub struct CommitMeta {
    pub id: Seq<char>,
    pub repo_url: Seq<char>,
    pub timestamp: int,
    pub author_name: Seq<char>,
    pub author_email: Seq<char>,
    pub message: Seq<char>,
    pub kind: CommitType,
}

/// View of a [`Commit`].
pub struct CommitModel {
    pub meta: CommitMeta,
    pub changes: Seq<FileChangeModel>,
}

/// View of a [`FlatCommit`].
pub struct FlatCommitModel {
    pub meta: CommitMeta,
    pub change: FileChangeModel,
}

impl View for Commit {
    type V = CommitModel;

    open spec fn view(&self) -> CommitModel {
        CommitModel {
            meta: CommitMeta {
                id: self.id@,
                repo_url: self.repo_url@,
                timestamp: self.timestamp as int,
                author_name: self.author_name@,
                author_email: self.author_email@,
                message: self.message@,
                kind: self.kind,
            },
            changes: self.changes@.map_values(|c: FileChange| c@),
        }
    }
}

impl View for FlatCommit {
    type V = FlatCommitModel;

    open spec fn view(&self) -> FlatCommitModel {
        FlatCommitModel {
            meta: CommitMeta {
                id: self.id@,
                repo_url: self.repo_url@,
                timestamp: self.timestamp as int,
                author_name: self.author_name@,
                author_email: self.author_email@,
                message: self.message@,
                kind: self.kind,
            },
            change: FileChangeModel {
                path: self.path@,
                lines_added: self.lines_added as nat,
                lines_removed: self.lines_removed as nat,
                lines_modified: self.lines_modified as nat,
                hunks_added: self.hunks_added as nat,
                hunks_removed: self.hunks_removed as nat,
                hunks_modified: self.hunks_modified as nat,
            },
        }
    }
}

} // verus!
