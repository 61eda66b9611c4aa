//! Whether there are local changes to commit.

use crate::error::SyncError;
use crate::sync::step::{
    attempt, follows, git_failed, lemma_first_reply, misfit_error, unfit, Attempt, GitOp, Outcome,
    Procedure, Reply, Scripted, StatusEntry, Step,
};
use vstd::prelude::*;

verus! {

pub const INDEX_NEW: u32 = 1;

pub const INDEX_MODIFIED: u32 = 2;

pub const INDEX_DELETED: u32 = 4;

pub const INDEX_RENAMED: u32 = 8;

pub const INDEX_TYPECHANGE: u32 = 16;

pub const WT_NEW: u32 = 128;

pub const WT_MODIFIED: u32 = 256;

pub const WT_DELETED: u32 = 512;

pub const WT_TYPECHANGE: u32 = 1024;

pub const WT_RENAMED: u32 = 2048;

/// The flags of a change that is staged.
pub const STAGED: u32 = INDEX_NEW | INDEX_MODIFIED | INDEX_DELETED | INDEX_RENAMED
    | INDEX_TYPECHANGE;

/// The flags of a change to a tracked file that is not staged.
pub const UNSTAGED: u32 = WT_MODIFIED | WT_DELETED | WT_TYPECHANGE | WT_RENAMED;

/// Whether a file with the given flags has a change to commit. New files count where they are
/// synced.
pub open spec fn is_change(flags: u32, new_files: bool) -> bool {
    ||| flags & STAGED != 0
    ||| flags & UNSTAGED != 0
    ||| new_files && flags & WT_NEW != 0
}

/// Whether any file has a change to commit.
pub open spec fn any_change(entries: Seq<StatusEntry>, new_files: bool) -> bool {
    exists|i: int| 0 <= i < entries.len() && is_change(#[trigger] entries[i].flags, new_files)
}

/// Whether there are local changes to commit.
#[verifier::opaque]
pub open spec fn local_changes_script(new_files: bool, h: Seq<Reply>) -> Outcome<Attempt<bool>> {
    if h.len() == 0 {
        Outcome::Ask(GitOp::Statuses { untracked: new_files })
    } else {
        match h[0] {
            Reply::Statuses(Ok(entries)) => Outcome::Done(
                Ok(any_change(entries@, new_files)),
                h.skip(1),
            ),
            Reply::Statuses(Err(e)) => git_failed(e, h.skip(1)),
            _ => unfit(h.skip(1)),
        }
    }
}

/// Whether there are local changes, under way.
#[derive(Debug)]
pub struct ChangesRun {
    pub new_files: bool,
}

impl ChangesRun {
    /// Asks whether there are local changes to commit.
    pub fn start(new_files: bool) -> (step: Step<ChangesRun, Result<bool, SyncError>>)
        ensures
            follows(|h: Seq<Reply>| local_changes_script(new_files, h), step),
            step is Ask,
    {
        proof {
            reveal(local_changes_script);
        }
        Step::Ask(ChangesRun { new_files }, GitOp::Statuses { untracked: new_files })
    }
}

impl Scripted for ChangesRun {
    type Output = Result<bool, SyncError>;

    type Outline = Attempt<bool>;

    open spec fn outline(output: Self::Output) -> Self::Outline {
        attempt(output)
    }

    closed spec fn script(self, h: Seq<Reply>) -> Outcome<Self::Outline> {
        local_changes_script(self.new_files, h)
    }
}

/// Whether any file has a change to commit.
fn has_change(entries: &Vec<StatusEntry>, new_files: bool) -> (r: bool)
    ensures
        r == any_change(entries@, new_files),
{
    let mut i: usize = 0;
    while i < entries.len()
        invariant
            i <= entries@.len(),
            forall|j: int|
                0 <= j < i ==> !is_change(#[trigger] entries@[j].flags, new_files),
        decreases entries@.len() - i,
    {
        let flags: u32 = entries[i].flags;
        if flags & STAGED != 0 || flags & UNSTAGED != 0 || (new_files && flags & WT_NEW != 0) {
            assert(is_change(entries@[i as int].flags, new_files));
            return true;
        }
        i = i + 1;
    }
    false
}

impl Procedure for ChangesRun {
    fn resume(self, reply: Reply) -> (next: Step<Self, Self::Output>) {
        broadcast use lemma_first_reply;

        proof {
            reveal(local_changes_script);
        }

        match reply {
            Reply::Statuses(Ok(entries)) => Step::Done(Ok(has_change(&entries, self.new_files))),
            Reply::Statuses(Err(e)) => Step::Done(Err(SyncError::GitError(e))),
            _ => Step::Done(Err(misfit_error())),
        }
    }
}

} // verus!
