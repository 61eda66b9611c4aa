//! Which branch is checked out.

use crate::error::{GitError, GitErrorCode, SyncError};
use crate::sync::step::{
    follows, git_failed, lemma_first_reply, misfit_error, unfit, Attempt, GitOp, Outcome, Procedure,
    Reply, Scripted, Step,
};
use crate::text;
use vstd::prelude::*;
use vstd::string::*;

verus! {

/// The branch that HEAD names.
#[derive(Debug, Clone)]
pub struct CurrentBranch<S = String> {
    pub name: S,
    /// Whether the branch has no commit yet
    pub unborn: bool,
}

impl View for CurrentBranch {
    type V = CurrentBranch<Seq<char>>;

    open spec fn view(&self) -> CurrentBranch<Seq<char>> {
        CurrentBranch { name: self.name@, unborn: self.unborn }
    }
}

pub open spec fn attempt_branch(r: Result<CurrentBranch, SyncError>) -> Attempt<
    CurrentBranch<Seq<char>>,
> {
    match r {
        Ok(branch) => Ok(branch@),
        Err(e) => Err(e@),
    }
}

/// The branch that is checked out. A branch without commits is one too: HEAD names it although
/// it does not exist yet.
#[verifier::opaque]
pub open spec fn current_branch_script(h: Seq<Reply>) -> Outcome<
    Attempt<CurrentBranch<Seq<char>>>,
> {
    if h.len() == 0 {
        Outcome::Ask(GitOp::Head)
    } else {
        match h[0] {
            Reply::Head(Ok(head)) => if !head.is_branch {
                Outcome::Done(Err(SyncError::DetachedHead), h.skip(1))
            } else {
                match head.shorthand {
                    Some(name) => Outcome::Done(
                        Ok(CurrentBranch { name: name@, unborn: false }),
                        h.skip(1),
                    ),
                    None => Outcome::Done(
                        Err(SyncError::Other("Could not get branch name"@)),
                        h.skip(1),
                    ),
                }
            },
            Reply::Head(Err(e)) => if e.code == GitErrorCode::UnbornBranch {
                unborn_branch_script(e, h.skip(1))
            } else {
                git_failed(e, h.skip(1))
            },
            _ => unfit(h.skip(1)),
        }
    }
}

/// The branch without commits that HEAD names, or the error that HEAD gave.
pub open spec fn unborn_branch_script(unborn: GitError, h: Seq<Reply>) -> Outcome<
    Attempt<CurrentBranch<Seq<char>>>,
> {
    if h.len() == 0 {
        Outcome::Ask(GitOp::HeadSymbolicTarget)
    } else {
        match h[0] {
            Reply::Maybe(Ok(Some(name))) => if text::has_prefix(name@, "refs/heads/"@) {
                Outcome::Done(
                    Ok(
                        CurrentBranch {
                            name: name@.skip("refs/heads/"@.len() as int),
                            unborn: true,
                        },
                    ),
                    h.skip(1),
                )
            } else {
                git_failed(unborn, h.skip(1))
            },
            Reply::Maybe(_) => git_failed(unborn, h.skip(1)),
            _ => unfit(h.skip(1)),
        }
    }
}

/// The branch that is checked out, under way.
#[derive(Debug)]
pub enum BranchRun {
    Head,
    Unborn(GitError),
}

impl BranchRun {
    /// Asks for the branch that is checked out.
    pub fn start() -> (step: Step<BranchRun, Result<CurrentBranch, SyncError>>)
        ensures
            follows(|h: Seq<Reply>| current_branch_script(h), step),
            step is Ask,
    {
        proof {
            reveal(current_branch_script);
        }
        Step::Ask(BranchRun::Head, GitOp::Head)
    }
}

impl Scripted for BranchRun {
    type Output = Result<CurrentBranch, SyncError>;

    type Outline = Attempt<CurrentBranch<Seq<char>>>;

    open spec fn outline(output: Self::Output) -> Self::Outline {
        attempt_branch(output)
    }

    closed spec fn script(self, h: Seq<Reply>) -> Outcome<Self::Outline> {
        match self {
            BranchRun::Head => current_branch_script(h),
            BranchRun::Unborn(e) => unborn_branch_script(e, h),
        }
    }
}

impl Procedure for BranchRun {
    fn resume(self, reply: Reply) -> (next: Step<Self, Self::Output>) {
        broadcast use lemma_first_reply;

        proof {
            reveal(current_branch_script);
        }

        match self {
            BranchRun::Head => match reply {
                Reply::Head(Ok(head)) => if !head.is_branch {
                    Step::Done(Err(SyncError::DetachedHead))
                } else {
                    match head.shorthand {
                        Some(name) => Step::Done(Ok(CurrentBranch { name, unborn: false })),
                        None => Step::Done(
                            Err(SyncError::Other("Could not get branch name".to_string())),
                        ),
                    }
                },
                Reply::Head(Err(e)) => if e.code == GitErrorCode::UnbornBranch {
                    Step::Ask(BranchRun::Unborn(e), GitOp::HeadSymbolicTarget)
                } else {
                    Step::Done(Err(SyncError::GitError(e)))
                },
                _ => Step::Done(Err(misfit_error())),
            },
            BranchRun::Unborn(e) => match reply {
                Reply::Maybe(Ok(Some(name))) => {
                    match text::strip_prefix(name.as_str(), "refs/heads/") {
                        Some(name) => Step::Done(Ok(CurrentBranch { name, unborn: true })),
                        None => Step::Done(Err(SyncError::GitError(e))),
                    }
                },
                Reply::Maybe(_) => Step::Done(Err(SyncError::GitError(e))),
                _ => Step::Done(Err(misfit_error())),
            },
        }
    }
}

} // verus!
