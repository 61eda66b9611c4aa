//! Applying the commits of a rebase.

use crate::error::SyncError;
use crate::sync::step::{
    attempt, follows, git_failed, lemma_first_reply, misfit_error, unfit, Attempt, GitOp, Outcome,
    Procedure, RebaseStep, Reply, Scripted, Step,
};
use vstd::prelude::*;

verus! {

/// Applies the commits of a rebase one by one and completes it, with the working tree as HEAD
/// has it then. The first conflict gives the rebase up. Results in whether it was completed.
#[verifier::opaque]
pub open spec fn replay_script(h: Seq<Reply>) -> Outcome<Attempt<bool>>
    decreases h.len(),
{
    if h.len() == 0 {
        Outcome::Ask(GitOp::NextRebaseStep)
    } else {
        match h[0] {
            Reply::Rebase(Ok(RebaseStep::Finished)) => finish_script(h.skip(1)),
            Reply::Rebase(Ok(RebaseStep::Applied { conflicts })) => if conflicts {
                abort_script(h.skip(1))
            } else {
                replay_commit_script(h.skip(1))
            },
            Reply::Rebase(Err(e)) => git_failed(e, h.skip(1)),
            _ => unfit(h.skip(1)),
        }
    }
}

pub open spec fn replay_commit_script(h: Seq<Reply>) -> Outcome<Attempt<bool>>
    decreases h.len(),
{
    if h.len() == 0 {
        Outcome::Ask(GitOp::CommitRebaseStep)
    } else {
        match h[0] {
            Reply::Done(Ok(_)) => replay_script(h.skip(1)),
            Reply::Done(Err(e)) => git_failed(e, h.skip(1)),
            _ => unfit(h.skip(1)),
        }
    }
}

pub open spec fn abort_script(h: Seq<Reply>) -> Outcome<Attempt<bool>> {
    if h.len() == 0 {
        Outcome::Ask(GitOp::AbortRebase)
    } else {
        match h[0] {
            Reply::Done(Ok(_)) => Outcome::Done(Ok(false), h.skip(1)),
            Reply::Done(Err(e)) => git_failed(e, h.skip(1)),
            _ => unfit(h.skip(1)),
        }
    }
}

pub open spec fn finish_script(h: Seq<Reply>) -> Outcome<Attempt<bool>> {
    if h.len() == 0 {
        Outcome::Ask(GitOp::FinishRebase)
    } else {
        match h[0] {
            Reply::Done(Ok(_)) => settle_script(h.skip(1)),
            Reply::Done(Err(e)) => git_failed(e, h.skip(1)),
            _ => unfit(h.skip(1)),
        }
    }
}

pub open spec fn settle_script(h: Seq<Reply>) -> Outcome<Attempt<bool>> {
    if h.len() == 0 {
        Outcome::Ask(GitOp::HeadCommit)
    } else {
        match h[0] {
            Reply::Text(Ok(oid)) => settle_checkout_script(oid@, h.skip(1)),
            Reply::Text(Err(e)) => git_failed(e, h.skip(1)),
            _ => unfit(h.skip(1)),
        }
    }
}

pub open spec fn settle_checkout_script(oid: Seq<char>, h: Seq<Reply>) -> Outcome<Attempt<bool>> {
    if h.len() == 0 {
        Outcome::Ask(GitOp::CheckoutTree { oid })
    } else {
        match h[0] {
            Reply::Done(Ok(_)) => Outcome::Done(Ok(true), h.skip(1)),
            Reply::Done(Err(e)) => git_failed(e, h.skip(1)),
            _ => unfit(h.skip(1)),
        }
    }
}

/// The commits of a rebase, under way.
#[derive(Debug)]
pub enum ReplayRun {
    Next,
    Commit,
    Abort,
    Finish,
    Settle,
    Checkout { oid: String },
}

impl ReplayRun {
    /// Applies the commits of a rebase that was begun.
    pub fn start() -> (step: Step<ReplayRun, Result<bool, SyncError>>)
        ensures
            follows(|h: Seq<Reply>| replay_script(h), step),
            step is Ask,
    {
        proof {
            reveal(replay_script);
        }
        Step::Ask(ReplayRun::Next, GitOp::NextRebaseStep)
    }
}

impl Scripted for ReplayRun {
    type Output = Result<bool, SyncError>;

    type Outline = Attempt<bool>;

    open spec fn outline(output: Self::Output) -> Self::Outline {
        attempt(output)
    }

    closed spec fn script(self, h: Seq<Reply>) -> Outcome<Self::Outline> {
        match self {
            ReplayRun::Next => replay_script(h),
            ReplayRun::Commit => replay_commit_script(h),
            ReplayRun::Abort => abort_script(h),
            ReplayRun::Finish => finish_script(h),
            ReplayRun::Settle => settle_script(h),
            ReplayRun::Checkout { oid } => settle_checkout_script(oid@, h),
        }
    }
}

impl Procedure for ReplayRun {
    fn resume(self, reply: Reply) -> (next: Step<Self, Self::Output>) {
        broadcast use lemma_first_reply;

        proof {
            reveal(replay_script);
        }

        match self {
            ReplayRun::Next => match reply {
                Reply::Rebase(Ok(RebaseStep::Finished)) => Step::Ask(
                    ReplayRun::Finish,
                    GitOp::FinishRebase,
                ),
                Reply::Rebase(Ok(RebaseStep::Applied { conflicts })) => if conflicts {
                    Step::Ask(ReplayRun::Abort, GitOp::AbortRebase)
                } else {
                    Step::Ask(ReplayRun::Commit, GitOp::CommitRebaseStep)
                },
                Reply::Rebase(Err(e)) => Step::Done(Err(SyncError::GitError(e))),
                _ => Step::Done(Err(misfit_error())),
            },
            ReplayRun::Commit => match reply {
                Reply::Done(Ok(_)) => Step::Ask(ReplayRun::Next, GitOp::NextRebaseStep),
                Reply::Done(Err(e)) => Step::Done(Err(SyncError::GitError(e))),
                _ => Step::Done(Err(misfit_error())),
            },
            ReplayRun::Abort => match reply {
                Reply::Done(Ok(_)) => Step::Done(Ok(false)),
                Reply::Done(Err(e)) => Step::Done(Err(SyncError::GitError(e))),
                _ => Step::Done(Err(misfit_error())),
            },
            ReplayRun::Finish => match reply {
                Reply::Done(Ok(_)) => Step::Ask(ReplayRun::Settle, GitOp::HeadCommit),
                Reply::Done(Err(e)) => Step::Done(Err(SyncError::GitError(e))),
                _ => Step::Done(Err(misfit_error())),
            },
            ReplayRun::Settle => match reply {
                Reply::Text(Ok(oid)) => {
                    let op: GitOp = GitOp::CheckoutTree { oid: oid.clone() };
                    Step::Ask(ReplayRun::Checkout { oid }, op)
                },
                Reply::Text(Err(e)) => Step::Done(Err(SyncError::GitError(e))),
                _ => Step::Done(Err(misfit_error())),
            },
            ReplayRun::Checkout { oid } => match reply {
                Reply::Done(Ok(_)) => Step::Done(Ok(true)),
                Reply::Done(Err(e)) => Step::Done(Err(SyncError::GitError(e))),
                _ => Step::Done(Err(misfit_error())),
            },
        }
    }
}

} // verus!
