//! Moving a branch forward to its upstream.

use crate::error::SyncError;
use crate::sync::branch::{current_branch_script, BranchRun, CurrentBranch};
use crate::sync::step::{
    asks, attempt, ends, follows, git_failed, lemma_first_reply, misfit_error, unfit, Attempt,
    GitOp, Outcome, Procedure, Reply, Scripted, Step,
};
use vstd::prelude::*;
use vstd::string::*;

verus! {

/// The reference of a local branch.
pub open spec fn branch_ref(branch: Seq<char>) -> Seq<char> {
    "refs/heads/"@ + branch
}

/// The reference of a local branch.
pub fn branch_reference(branch: &str) -> (name: String)
    ensures
        name@ == branch_ref(branch@),
{
    "refs/heads/".to_string().concat(branch)
}

/// Moves the branch that is checked out to its upstream, and the working tree with it.
#[verifier::opaque]
pub open spec fn fast_forward_script(h: Seq<Reply>) -> Outcome<Attempt<()>> {
    forward_branch(current_branch_script(h))
}

pub open spec fn forward_branch(o: Outcome<Attempt<CurrentBranch<Seq<char>>>>) -> Outcome<
    Attempt<()>,
> {
    match o {
        Outcome::Ask(op) => Outcome::Ask(op),
        Outcome::Done(Err(e), rest) => Outcome::Done(Err(e), rest),
        Outcome::Done(Ok(branch), rest) => forward_oid_script(branch.name, rest),
    }
}

pub open spec fn forward_oid_script(branch: Seq<char>, h: Seq<Reply>) -> Outcome<Attempt<()>> {
    if h.len() == 0 {
        Outcome::Ask(GitOp::UpstreamOid { branch })
    } else {
        match h[0] {
            Reply::Maybe(Ok(Some(oid))) => forward_move_script(branch, oid@, h.skip(1)),
            Reply::Maybe(Ok(None)) => Outcome::Done(
                Err(SyncError::Other("Could not get upstream OID"@)),
                h.skip(1),
            ),
            Reply::Maybe(Err(e)) => git_failed(e, h.skip(1)),
            _ => unfit(h.skip(1)),
        }
    }
}

pub open spec fn forward_move_script(
    branch: Seq<char>,
    oid: Seq<char>,
    h: Seq<Reply>,
) -> Outcome<Attempt<()>> {
    if h.len() == 0 {
        Outcome::Ask(GitOp::SetHeadTarget { oid, message: "fast-forward merge"@ })
    } else {
        match h[0] {
            Reply::Done(Ok(_)) => forward_checkout_script(branch, oid, h.skip(1)),
            Reply::Done(Err(e)) => git_failed(e, h.skip(1)),
            _ => unfit(h.skip(1)),
        }
    }
}

pub open spec fn forward_checkout_script(
    branch: Seq<char>,
    oid: Seq<char>,
    h: Seq<Reply>,
) -> Outcome<Attempt<()>> {
    if h.len() == 0 {
        Outcome::Ask(GitOp::CheckoutTree { oid })
    } else {
        match h[0] {
            Reply::Done(Ok(_)) => forward_head_script(branch, h.skip(1)),
            Reply::Done(Err(e)) => git_failed(e, h.skip(1)),
            _ => unfit(h.skip(1)),
        }
    }
}

pub open spec fn forward_head_script(branch: Seq<char>, h: Seq<Reply>) -> Outcome<Attempt<()>> {
    if h.len() == 0 {
        Outcome::Ask(GitOp::SetHead { name: branch_ref(branch) })
    } else {
        match h[0] {
            Reply::Done(Ok(_)) => Outcome::Done(Ok(()), h.skip(1)),
            Reply::Done(Err(e)) => git_failed(e, h.skip(1)),
            _ => unfit(h.skip(1)),
        }
    }
}

/// A fast-forward that is under way.
#[derive(Debug)]
pub enum ForwardRun {
    Branch(BranchRun),
    Upstream { branch: String },
    Move { branch: String, oid: String },
    Checkout { branch: String, oid: String },
    Head { branch: String },
}

impl ForwardRun {
    /// Moves the branch that is checked out to its upstream.
    pub fn start() -> (step: Step<ForwardRun, Result<(), SyncError>>)
        ensures
            follows(|h: Seq<Reply>| fast_forward_script(h), step),
            step is Ask,
    {
        proof {
            reveal(fast_forward_script);
        }
        Self::branch(BranchRun::start())
    }

    fn branch(step: Step<BranchRun, Result<CurrentBranch, SyncError>>) -> (next: Step<
        ForwardRun,
        Result<(), SyncError>,
    >)
        ensures
            match step {
                Step::Ask(run, op) => asks(next, ForwardRun::Branch(run), op),
                Step::Done(Ok(branch)) => follows(
                    |h: Seq<Reply>| forward_oid_script(branch.name@, h),
                    next,
                ),
                Step::Done(Err(e)) => ends(next, Err(e)),
            },
    {
        match step {
            Step::Ask(run, op) => Step::Ask(ForwardRun::Branch(run), op),
            Step::Done(Ok(branch)) => {
                let op: GitOp = GitOp::UpstreamOid { branch: branch.name.clone() };
                Step::Ask(ForwardRun::Upstream { branch: branch.name }, op)
            },
            Step::Done(Err(e)) => Step::Done(Err(e)),
        }
    }
}

impl Scripted for ForwardRun {
    type Output = Result<(), SyncError>;

    type Outline = Attempt<()>;

    open spec fn outline(output: Self::Output) -> Self::Outline {
        attempt(output)
    }

    closed spec fn script(self, h: Seq<Reply>) -> Outcome<Self::Outline> {
        match self {
            ForwardRun::Branch(run) => forward_branch(run.script(h)),
            ForwardRun::Upstream { branch } => forward_oid_script(branch@, h),
            ForwardRun::Move { branch, oid } => forward_move_script(branch@, oid@, h),
            ForwardRun::Checkout { branch, oid } => forward_checkout_script(branch@, oid@, h),
            ForwardRun::Head { branch } => forward_head_script(branch@, h),
        }
    }
}

impl Procedure for ForwardRun {
    fn resume(self, reply: Reply) -> (next: Step<Self, Self::Output>) {
        broadcast use lemma_first_reply;

        proof {
            reveal(fast_forward_script);
        }

        match self {
            ForwardRun::Branch(run) => Self::branch(run.resume(reply)),
            ForwardRun::Upstream { branch } => match reply {
                Reply::Maybe(Ok(Some(oid))) => {
                    let op: GitOp = GitOp::SetHeadTarget {
                        oid: oid.clone(),
                        message: "fast-forward merge".to_string(),
                    };
                    Step::Ask(ForwardRun::Move { branch, oid }, op)
                },
                Reply::Maybe(Ok(None)) => Step::Done(
                    Err(SyncError::Other("Could not get upstream OID".to_string())),
                ),
                Reply::Maybe(Err(e)) => Step::Done(Err(SyncError::GitError(e))),
                _ => Step::Done(Err(misfit_error())),
            },
            ForwardRun::Move { branch, oid } => match reply {
                Reply::Done(Ok(_)) => {
                    let op: GitOp = GitOp::CheckoutTree { oid: oid.clone() };
                    Step::Ask(ForwardRun::Checkout { branch, oid }, op)
                },
                Reply::Done(Err(e)) => Step::Done(Err(SyncError::GitError(e))),
                _ => Step::Done(Err(misfit_error())),
            },
            ForwardRun::Checkout { branch, oid } => match reply {
                Reply::Done(Ok(_)) => {
                    let op: GitOp = GitOp::SetHead { name: branch_reference(branch.as_str()) };
                    Step::Ask(ForwardRun::Head { branch }, op)
                },
                Reply::Done(Err(e)) => Step::Done(Err(SyncError::GitError(e))),
                _ => Step::Done(Err(misfit_error())),
            },
            ForwardRun::Head { branch } => match reply {
                Reply::Done(Ok(_)) => Step::Done(Ok(())),
                Reply::Done(Err(e)) => Step::Done(Err(SyncError::GitError(e))),
                _ => Step::Done(Err(misfit_error())),
            },
        }
    }
}

} // verus!
