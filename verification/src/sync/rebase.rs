//! Rebasing a branch onto its upstream.

use crate::error::SyncError;
use crate::sync::SyncConfig;
use crate::sync::branch::{current_branch_script, BranchRun, CurrentBranch};
use crate::sync::conflict::{conflict_script, ConflictRun};
use crate::sync::replay::{replay_script, ReplayRun};
use crate::sync::step::{
    asks, attempt, ends, follows, git_failed, lemma_first_reply, misfit_error, unfit, Attempt,
    GitOp, Outcome, Procedure, Reply, Scripted, Step,
};
use vstd::prelude::*;

verus! {

/// Rebases the branch that is checked out onto its upstream. Conflicts give the rebase up and
/// lead to a fallback branch where the configuration allows for one.
#[verifier::opaque]
pub open spec fn rebase_script(c: SyncConfig<Seq<char>>, h: Seq<Reply>) -> Outcome<Attempt<()>> {
    rebase_branch(c, current_branch_script(h))
}

pub open spec fn rebase_branch(
    c: SyncConfig<Seq<char>>,
    o: Outcome<Attempt<CurrentBranch<Seq<char>>>>,
) -> Outcome<Attempt<()>> {
    match o {
        Outcome::Ask(op) => Outcome::Ask(op),
        Outcome::Done(Err(e), rest) => Outcome::Done(Err(e), rest),
        Outcome::Done(Ok(branch), rest) => rebase_upstream_script(c, branch.name, rest),
    }
}

pub open spec fn rebase_upstream_script(
    c: SyncConfig<Seq<char>>,
    branch: Seq<char>,
    h: Seq<Reply>,
) -> Outcome<Attempt<()>> {
    if h.len() == 0 {
        Outcome::Ask(GitOp::UpstreamCommit { branch })
    } else {
        match h[0] {
            Reply::Text(Ok(upstream)) => rebase_local_script(c, branch, upstream@, h.skip(1)),
            Reply::Text(Err(e)) => git_failed(e, h.skip(1)),
            _ => unfit(h.skip(1)),
        }
    }
}

pub open spec fn rebase_local_script(
    c: SyncConfig<Seq<char>>,
    branch: Seq<char>,
    upstream: Seq<char>,
    h: Seq<Reply>,
) -> Outcome<Attempt<()>> {
    if h.len() == 0 {
        Outcome::Ask(GitOp::BranchCommit { branch })
    } else {
        match h[0] {
            Reply::Text(Ok(local)) => rebase_base_script(c, branch, upstream, local@, h.skip(1)),
            Reply::Text(Err(e)) => git_failed(e, h.skip(1)),
            _ => unfit(h.skip(1)),
        }
    }
}

pub open spec fn rebase_base_script(
    c: SyncConfig<Seq<char>>,
    branch: Seq<char>,
    upstream: Seq<char>,
    local: Seq<char>,
    h: Seq<Reply>,
) -> Outcome<Attempt<()>> {
    if h.len() == 0 {
        Outcome::Ask(GitOp::MergeBase { one: local, two: upstream })
    } else {
        match h[0] {
            Reply::Text(Ok(_)) => rebase_begin_script(c, branch, h.skip(1)),
            Reply::Text(Err(e)) => git_failed(e, h.skip(1)),
            _ => unfit(h.skip(1)),
        }
    }
}

pub open spec fn rebase_begin_script(
    c: SyncConfig<Seq<char>>,
    branch: Seq<char>,
    h: Seq<Reply>,
) -> Outcome<Attempt<()>> {
    if h.len() == 0 {
        Outcome::Ask(GitOp::StartRebaseOntoUpstream { branch })
    } else {
        match h[0] {
            Reply::Done(Ok(_)) => replayed(c, replay_script(h.skip(1))),
            Reply::Done(Err(e)) => git_failed(e, h.skip(1)),
            _ => unfit(h.skip(1)),
        }
    }
}

pub open spec fn replayed(c: SyncConfig<Seq<char>>, o: Outcome<Attempt<bool>>) -> Outcome<
    Attempt<()>,
> {
    match o {
        Outcome::Ask(op) => Outcome::Ask(op),
        Outcome::Done(Err(e), rest) => Outcome::Done(Err(e), rest),
        Outcome::Done(Ok(completed), rest) => if completed {
            Outcome::Done(Ok(()), rest)
        } else {
            conflict_script(c, rest)
        },
    }
}

/// A rebase that is under way.
#[allow(inconsistent_fields)]
#[derive(Debug)]
pub enum RebaseRun {
    Branch { config: SyncConfig, run: BranchRun },
    Upstream { config: SyncConfig, branch: String },
    Local { config: SyncConfig, branch: String, upstream: String },
    Base { config: SyncConfig, branch: String, upstream: String, local: String },
    Begin { config: SyncConfig, branch: String },
    Replay { config: SyncConfig, run: ReplayRun },
    Conflict(ConflictRun),
}

impl RebaseRun {
    /// Rebases the branch that is checked out onto its upstream.
    pub fn start(config: SyncConfig) -> (step: Step<RebaseRun, Result<(), SyncError>>)
        ensures
            follows(|h: Seq<Reply>| rebase_script(config@, h), step),
            step is Ask,
    {
        proof {
            reveal(rebase_script);
        }
        Self::branch(config, BranchRun::start())
    }

    fn branch(
        config: SyncConfig,
        step: Step<BranchRun, Result<CurrentBranch, SyncError>>,
    ) -> (next: Step<RebaseRun, Result<(), SyncError>>)
        ensures
            match step {
                Step::Ask(run, op) => asks(next, RebaseRun::Branch { config, run }, op),
                Step::Done(Ok(branch)) => follows(
                    |h: Seq<Reply>| rebase_upstream_script(config@, branch.name@, h),
                    next,
                ),
                Step::Done(Err(e)) => ends(next, Err(e)),
            },
    {
        match step {
            Step::Ask(run, op) => Step::Ask(RebaseRun::Branch { config, run }, op),
            Step::Done(Ok(branch)) => {
                let op: GitOp = GitOp::UpstreamCommit { branch: branch.name.clone() };
                Step::Ask(RebaseRun::Upstream { config, branch: branch.name }, op)
            },
            Step::Done(Err(e)) => Step::Done(Err(e)),
        }
    }

    fn replay(config: SyncConfig, step: Step<ReplayRun, Result<bool, SyncError>>) -> (next: Step<
        RebaseRun,
        Result<(), SyncError>,
    >)
        ensures
            match step {
                Step::Ask(run, op) => asks(next, RebaseRun::Replay { config, run }, op),
                Step::Done(Ok(completed)) => if completed {
                    ends(next, Ok(()))
                } else {
                    follows(|h: Seq<Reply>| conflict_script(config@, h), next)
                },
                Step::Done(Err(e)) => ends(next, Err(e)),
            },
    {
        match step {
            Step::Ask(run, op) => Step::Ask(RebaseRun::Replay { config, run }, op),
            Step::Done(Ok(completed)) => if completed {
                Step::Done(Ok(()))
            } else {
                Self::conflict(ConflictRun::start(config))
            },
            Step::Done(Err(e)) => Step::Done(Err(e)),
        }
    }

    fn conflict(step: Step<ConflictRun, Result<(), SyncError>>) -> (next: Step<
        RebaseRun,
        Result<(), SyncError>,
    >)
        ensures
            match step {
                Step::Ask(run, op) => asks(next, RebaseRun::Conflict(run), op),
                Step::Done(r) => ends(next, r),
            },
    {
        match step {
            Step::Ask(run, op) => Step::Ask(RebaseRun::Conflict(run), op),
            Step::Done(r) => Step::Done(r),
        }
    }
}

impl Scripted for RebaseRun {
    type Output = Result<(), SyncError>;

    type Outline = Attempt<()>;

    open spec fn outline(output: Self::Output) -> Self::Outline {
        attempt(output)
    }

    closed spec fn script(self, h: Seq<Reply>) -> Outcome<Self::Outline> {
        match self {
            RebaseRun::Branch { config, run } => rebase_branch(config@, run.script(h)),
            RebaseRun::Upstream { config, branch } => rebase_upstream_script(config@, branch@, h),
            RebaseRun::Local { config, branch, upstream } => rebase_local_script(
                config@,
                branch@,
                upstream@,
                h,
            ),
            RebaseRun::Base { config, branch, upstream, local } => rebase_base_script(
                config@,
                branch@,
                upstream@,
                local@,
                h,
            ),
            RebaseRun::Begin { config, branch } => rebase_begin_script(config@, branch@, h),
            RebaseRun::Replay { config, run } => replayed(config@, run.script(h)),
            RebaseRun::Conflict(run) => run.script(h),
        }
    }
}

impl Procedure for RebaseRun {
    fn resume(self, reply: Reply) -> (next: Step<Self, Self::Output>) {
        broadcast use lemma_first_reply;

        proof {
            reveal(rebase_script);
        }

        match self {
            RebaseRun::Branch { config, run } => Self::branch(config, run.resume(reply)),
            RebaseRun::Upstream { config, branch } => match reply {
                Reply::Text(Ok(upstream)) => {
                    let op: GitOp = GitOp::BranchCommit { branch: branch.clone() };
                    Step::Ask(RebaseRun::Local { config, branch, upstream }, op)
                },
                Reply::Text(Err(e)) => Step::Done(Err(SyncError::GitError(e))),
                _ => Step::Done(Err(misfit_error())),
            },
            RebaseRun::Local { config, branch, upstream } => match reply {
                Reply::Text(Ok(local)) => {
                    let op: GitOp = GitOp::MergeBase { one: local.clone(), two: upstream.clone() };
                    Step::Ask(RebaseRun::Base { config, branch, upstream, local }, op)
                },
                Reply::Text(Err(e)) => Step::Done(Err(SyncError::GitError(e))),
                _ => Step::Done(Err(misfit_error())),
            },
            RebaseRun::Base { config, branch, upstream, local } => match reply {
                Reply::Text(Ok(_)) => {
                    let op: GitOp = GitOp::StartRebaseOntoUpstream { branch: branch.clone() };
                    Step::Ask(RebaseRun::Begin { config, branch }, op)
                },
                Reply::Text(Err(e)) => Step::Done(Err(SyncError::GitError(e))),
                _ => Step::Done(Err(misfit_error())),
            },
            RebaseRun::Begin { config, branch } => match reply {
                Reply::Done(Ok(_)) => Self::replay(config, ReplayRun::start()),
                Reply::Done(Err(e)) => Step::Done(Err(SyncError::GitError(e))),
                _ => Step::Done(Err(misfit_error())),
            },
            RebaseRun::Replay { config, run } => Self::replay(config, run.resume(reply)),
            RebaseRun::Conflict(run) => Self::conflict(run.resume(reply)),
        }
    }
}

} // verus!
