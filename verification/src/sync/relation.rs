//! How a branch relates to its upstream.

use crate::error::SyncError;
use crate::sync::branch::{current_branch_script, BranchRun, CurrentBranch};
use crate::sync::step::{
    asks, attempt, follows, git_failed, lemma_first_reply, misfit_error, unfit, Attempt, GitOp,
    Outcome, Procedure, Reply, Scripted, Step,
};
use vstd::prelude::*;
use vstd::string::*;

verus! {

/// How a branch relates to its upstream.
#[derive(Debug, Clone, Copy, PartialEq, Eq, Structural)]
pub enum SyncState {
    /// They are equal
    Equal,
    /// The branch has commits that its upstream has not
    Ahead(usize),
    /// The upstream has commits that the branch has not
    Behind(usize),
    /// Each has commits that the other has not
    Diverged { ahead: usize, behind: usize },
    /// The branch has no upstream
    NoUpstream,
}

/// The relation of two branches, of which each has the given number of commits that the other
/// has not.
pub open spec fn relation(ahead: usize, behind: usize) -> SyncState {
    if ahead == 0 && behind == 0 {
        SyncState::Equal
    } else if behind == 0 {
        SyncState::Ahead(ahead)
    } else if ahead == 0 {
        SyncState::Behind(behind)
    } else {
        SyncState::Diverged { ahead, behind }
    }
}

/// How the branch that is checked out relates to its upstream.
#[verifier::opaque]
pub open spec fn sync_state_script(h: Seq<Reply>) -> Outcome<Attempt<SyncState>> {
    compare_branch(current_branch_script(h))
}

pub open spec fn compare_branch(o: Outcome<Attempt<CurrentBranch<Seq<char>>>>) -> Outcome<
    Attempt<SyncState>,
> {
    match o {
        Outcome::Ask(op) => Outcome::Ask(op),
        Outcome::Done(Err(e), rest) => Outcome::Done(Err(e), rest),
        Outcome::Done(Ok(branch), rest) => local_oid_script(branch.name, rest),
    }
}

pub open spec fn local_oid_script(branch: Seq<char>, h: Seq<Reply>) -> Outcome<
    Attempt<SyncState>,
> {
    if h.len() == 0 {
        Outcome::Ask(GitOp::BranchOid { branch })
    } else {
        match h[0] {
            Reply::Maybe(Ok(local)) => upstream_oid_script(branch, local, h.skip(1)),
            Reply::Maybe(Err(e)) => git_failed(e, h.skip(1)),
            _ => unfit(h.skip(1)),
        }
    }
}

pub open spec fn upstream_oid_script(
    branch: Seq<char>,
    local: Option<String>,
    h: Seq<Reply>,
) -> Outcome<Attempt<SyncState>> {
    if h.len() == 0 {
        Outcome::Ask(GitOp::UpstreamOid { branch })
    } else {
        match h[0] {
            Reply::Maybe(Err(_)) => Outcome::Done(Ok(SyncState::NoUpstream), h.skip(1)),
            Reply::Maybe(Ok(upstream)) => match (local, upstream) {
                (None, _) => Outcome::Done(
                    Err(SyncError::Other("Could not get local branch OID"@)),
                    h.skip(1),
                ),
                (Some(_), None) => Outcome::Done(
                    Err(SyncError::Other("Could not get upstream branch OID"@)),
                    h.skip(1),
                ),
                (Some(local), Some(upstream)) => if local@ == upstream@ {
                    Outcome::Done(Ok(SyncState::Equal), h.skip(1))
                } else {
                    count_script(local@, upstream@, h.skip(1))
                },
            },
            _ => unfit(h.skip(1)),
        }
    }
}

pub open spec fn count_script(local: Seq<char>, upstream: Seq<char>, h: Seq<Reply>) -> Outcome<
    Attempt<SyncState>,
> {
    if h.len() == 0 {
        Outcome::Ask(GitOp::AheadBehind { local, upstream })
    } else {
        match h[0] {
            Reply::Counts(Ok((ahead, behind))) => Outcome::Done(
                Ok(relation(ahead, behind)),
                h.skip(1),
            ),
            Reply::Counts(Err(e)) => git_failed(e, h.skip(1)),
            _ => unfit(h.skip(1)),
        }
    }
}

/// How the branch that is checked out relates to its upstream, under way.
#[allow(inconsistent_fields)]
#[derive(Debug)]
pub enum SyncStateRun {
    Branch(BranchRun),
    Local { branch: String },
    Upstream { branch: String, local: Option<String> },
    Count { local: String, upstream: String },
}

impl SyncStateRun {
    /// Asks how the branch that is checked out relates to its upstream.
    pub fn start() -> (step: Step<SyncStateRun, Result<SyncState, SyncError>>)
        ensures
            follows(|h: Seq<Reply>| sync_state_script(h), step),
            step is Ask,
    {
        proof {
            reveal(sync_state_script);
        }
        Self::branch(BranchRun::start())
    }

    fn branch(step: Step<BranchRun, Result<CurrentBranch, SyncError>>) -> (next: Step<
        SyncStateRun,
        Result<SyncState, SyncError>,
    >)
        ensures
            match step {
                Step::Ask(run, op) => asks(next, SyncStateRun::Branch(run), op),
                Step::Done(Ok(branch)) => follows(
                    |h: Seq<Reply>| local_oid_script(branch.name@, h),
                    next,
                ),
                Step::Done(Err(e)) => next == Step::<
                    SyncStateRun,
                    Result<SyncState, SyncError>,
                >::Done(Err(e)),
            },
    {
        match step {
            Step::Ask(run, op) => Step::Ask(SyncStateRun::Branch(run), op),
            Step::Done(Ok(branch)) => {
                let op: GitOp = GitOp::BranchOid { branch: branch.name.clone() };
                Step::Ask(SyncStateRun::Local { branch: branch.name }, op)
            },
            Step::Done(Err(e)) => Step::Done(Err(e)),
        }
    }
}

impl Scripted for SyncStateRun {
    type Output = Result<SyncState, SyncError>;

    type Outline = Attempt<SyncState>;

    open spec fn outline(output: Self::Output) -> Self::Outline {
        attempt(output)
    }

    closed spec fn script(self, h: Seq<Reply>) -> Outcome<Self::Outline> {
        match self {
            SyncStateRun::Branch(run) => compare_branch(run.script(h)),
            SyncStateRun::Local { branch } => local_oid_script(branch@, h),
            SyncStateRun::Upstream { branch, local } => upstream_oid_script(branch@, local, h),
            SyncStateRun::Count { local, upstream } => count_script(local@, upstream@, h),
        }
    }
}

impl Procedure for SyncStateRun {
    fn resume(self, reply: Reply) -> (next: Step<Self, Self::Output>) {
        broadcast use lemma_first_reply;

        proof {
            reveal(sync_state_script);
        }

        match self {
            SyncStateRun::Branch(run) => Self::branch(run.resume(reply)),
            SyncStateRun::Local { branch } => match reply {
                Reply::Maybe(Ok(local)) => {
                    let op: GitOp = GitOp::UpstreamOid { branch: branch.clone() };
                    Step::Ask(SyncStateRun::Upstream { branch, local }, op)
                },
                Reply::Maybe(Err(e)) => Step::Done(Err(SyncError::GitError(e))),
                _ => Step::Done(Err(misfit_error())),
            },
            SyncStateRun::Upstream { branch, local } => match reply {
                Reply::Maybe(Err(_)) => Step::Done(Ok(SyncState::NoUpstream)),
                Reply::Maybe(Ok(upstream)) => match (local, upstream) {
                    (None, _) => Step::Done(
                        Err(SyncError::Other("Could not get local branch OID".to_string())),
                    ),
                    (Some(_), None) => Step::Done(
                        Err(SyncError::Other("Could not get upstream branch OID".to_string())),
                    ),
                    (Some(local), Some(upstream)) => if local == upstream {
                        Step::Done(Ok(SyncState::Equal))
                    } else {
                        let op: GitOp = GitOp::AheadBehind {
                            local: local.clone(),
                            upstream: upstream.clone(),
                        };
                        Step::Ask(SyncStateRun::Count { local, upstream }, op)
                    },
                },
                _ => Step::Done(Err(misfit_error())),
            },
            SyncStateRun::Count { local, upstream } => match reply {
                Reply::Counts(Ok((ahead, behind))) => {
                    let state: SyncState = if ahead == 0 && behind == 0 {
                        SyncState::Equal
                    } else if behind == 0 {
                        SyncState::Ahead(ahead)
                    } else if ahead == 0 {
                        SyncState::Behind(behind)
                    } else {
                        SyncState::Diverged { ahead, behind }
                    };
                    Step::Done(Ok(state))
                },
                Reply::Counts(Err(e)) => Step::Done(Err(SyncError::GitError(e))),
                _ => Step::Done(Err(misfit_error())),
            },
        }
    }
}

} // verus!
