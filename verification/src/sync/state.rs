//! What state a repository is in.

use crate::error::SyncError;
use crate::sync::step::{
    attempt, follows, git_failed, lemma_first_reply, misfit_error, unfit, Attempt, GitOp, Operation,
    Outcome, Procedure, Reply, Scripted, Step,
};
use vstd::prelude::*;

verus! {

/// Whether a repository can be synchronized.
#[derive(Debug, Clone, Copy, PartialEq, Eq, Structural)]
pub enum RepositoryState {
    /// Nothing is in progress, and nothing has changed
    Clean,
    /// Nothing is in progress, and there are uncommitted changes
    Dirty,
    /// In the middle of a rebase
    Rebasing,
    /// In the middle of a merge
    Merging,
    /// In the middle of a cherry-pick
    CherryPicking,
    /// In the middle of a revert
    Reverting,
    /// In the middle of a bisection
    Bisecting,
    /// In the middle of applying patches
    ApplyingPatches,
    /// HEAD names no branch
    DetachedHead,
}

/// The state of a repository in which the given operation is in progress.
pub open spec fn state_during(operation: Operation) -> Option<RepositoryState> {
    match operation {
        Operation::Clean => None,
        Operation::Merge => Some(RepositoryState::Merging),
        Operation::Rebase | Operation::RebaseInteractive | Operation::RebaseMerge => Some(
            RepositoryState::Rebasing,
        ),
        Operation::CherryPick | Operation::CherryPickSequence => Some(
            RepositoryState::CherryPicking,
        ),
        Operation::Revert | Operation::RevertSequence => Some(RepositoryState::Reverting),
        Operation::Bisect => Some(RepositoryState::Bisecting),
        Operation::ApplyMailbox | Operation::ApplyMailboxOrRebase => Some(
            RepositoryState::ApplyingPatches,
        ),
    }
}

/// The state of the repository: a detached HEAD first, then what is in progress, then whether
/// anything has changed, new files included.
#[verifier::opaque]
pub open spec fn repository_state_script(h: Seq<Reply>) -> Outcome<Attempt<RepositoryState>> {
    if h.len() == 0 {
        Outcome::Ask(GitOp::HeadDetached)
    } else {
        match h[0] {
            Reply::Flag(Ok(true)) => Outcome::Done(Ok(RepositoryState::DetachedHead), h.skip(1)),
            Reply::Flag(Ok(false)) => operation_script(h.skip(1)),
            Reply::Flag(Err(e)) => git_failed(e, h.skip(1)),
            _ => unfit(h.skip(1)),
        }
    }
}

pub open spec fn operation_script(h: Seq<Reply>) -> Outcome<Attempt<RepositoryState>> {
    if h.len() == 0 {
        Outcome::Ask(GitOp::Operation)
    } else {
        match h[0] {
            Reply::Operation(operation) => match state_during(operation) {
                Some(state) => Outcome::Done(Ok(state), h.skip(1)),
                None => dirty_script(h.skip(1)),
            },
            _ => unfit(h.skip(1)),
        }
    }
}

pub open spec fn dirty_script(h: Seq<Reply>) -> Outcome<Attempt<RepositoryState>> {
    if h.len() == 0 {
        Outcome::Ask(GitOp::Statuses { untracked: true })
    } else {
        match h[0] {
            Reply::Statuses(Ok(entries)) => Outcome::Done(
                Ok(
                    if entries@.len() == 0 {
                        RepositoryState::Clean
                    } else {
                        RepositoryState::Dirty
                    },
                ),
                h.skip(1),
            ),
            Reply::Statuses(Err(e)) => git_failed(e, h.skip(1)),
            _ => unfit(h.skip(1)),
        }
    }
}

/// The state of the repository, under way.
#[derive(Debug)]
pub enum StateRun {
    Detached,
    Operation,
    Dirty,
}

impl StateRun {
    /// Asks for the state of the repository.
    pub fn start() -> (step: Step<StateRun, Result<RepositoryState, SyncError>>)
        ensures
            follows(|h: Seq<Reply>| repository_state_script(h), step),
            step is Ask,
    {
        proof {
            reveal(repository_state_script);
        }
        Step::Ask(StateRun::Detached, GitOp::HeadDetached)
    }
}

impl Scripted for StateRun {
    type Output = Result<RepositoryState, SyncError>;

    type Outline = Attempt<RepositoryState>;

    open spec fn outline(output: Self::Output) -> Self::Outline {
        attempt(output)
    }

    closed spec fn script(self, h: Seq<Reply>) -> Outcome<Self::Outline> {
        match self {
            StateRun::Detached => repository_state_script(h),
            StateRun::Operation => operation_script(h),
            StateRun::Dirty => dirty_script(h),
        }
    }
}

impl Procedure for StateRun {
    fn resume(self, reply: Reply) -> (next: Step<Self, Self::Output>) {
        broadcast use lemma_first_reply;

        proof {
            reveal(repository_state_script);
        }

        match self {
            StateRun::Detached => match reply {
                Reply::Flag(Ok(true)) => Step::Done(Ok(RepositoryState::DetachedHead)),
                Reply::Flag(Ok(false)) => Step::Ask(StateRun::Operation, GitOp::Operation),
                Reply::Flag(Err(e)) => Step::Done(Err(SyncError::GitError(e))),
                _ => Step::Done(Err(misfit_error())),
            },
            StateRun::Operation => match reply {
                Reply::Operation(operation) => match operation {
                    Operation::Clean => Step::Ask(
                        StateRun::Dirty,
                        GitOp::Statuses { untracked: true },
                    ),
                    Operation::Merge => Step::Done(Ok(RepositoryState::Merging)),
                    Operation::Rebase | Operation::RebaseInteractive | Operation::RebaseMerge => {
                        Step::Done(Ok(RepositoryState::Rebasing))
                    },
                    Operation::CherryPick | Operation::CherryPickSequence => Step::Done(
                        Ok(RepositoryState::CherryPicking),
                    ),
                    Operation::Revert | Operation::RevertSequence => Step::Done(
                        Ok(RepositoryState::Reverting),
                    ),
                    Operation::Bisect => Step::Done(Ok(RepositoryState::Bisecting)),
                    Operation::ApplyMailbox | Operation::ApplyMailboxOrRebase => Step::Done(
                        Ok(RepositoryState::ApplyingPatches),
                    ),
                },
                _ => Step::Done(Err(misfit_error())),
            },
            StateRun::Dirty => match reply {
                Reply::Statuses(Ok(entries)) => if entries.len() == 0 {
                    Step::Done(Ok(RepositoryState::Clean))
                } else {
                    Step::Done(Ok(RepositoryState::Dirty))
                },
                Reply::Statuses(Err(e)) => Step::Done(Err(SyncError::GitError(e))),
                _ => Step::Done(Err(misfit_error())),
            },
        }
    }
}

} // verus!
