//! Which branch the repository should be on.

use crate::error::SyncError;
use crate::sync::branch::{current_branch_script, BranchRun, CurrentBranch};
use crate::sync::step::{
    asks, attempt_text, ends, follows, lemma_first_reply, misfit_error, unfit, Attempt, GitOp,
    Outcome, Procedure, Reply, Scripted, Step,
};
use crate::text;
use crate::text::option_view;
use vstd::prelude::*;
use vstd::string::*;

verus! {

/// The default branch of the repository: the one that the head of `origin` names, else `main` or
/// `master`, whichever exists here or at `origin`, else the branch that is checked out.
#[verifier::opaque]
pub open spec fn default_branch_script(h: Seq<Reply>) -> Outcome<Attempt<Seq<char>>> {
    if h.len() == 0 {
        Outcome::Ask(GitOp::ResolvedShorthand { name: "refs/remotes/origin/HEAD"@ })
    } else {
        match h[0] {
            Reply::Maybe(Ok(Some(name))) => if text::has_prefix(name@, "origin/"@) {
                Outcome::Done(Ok(name@.skip("origin/"@.len() as int)), h.skip(1))
            } else {
                main_script(h.skip(1))
            },
            Reply::Maybe(_) => main_script(h.skip(1)),
            _ => unfit(h.skip(1)),
        }
    }
}

pub open spec fn main_script(h: Seq<Reply>) -> Outcome<Attempt<Seq<char>>> {
    if h.len() == 0 {
        Outcome::Ask(GitOp::BranchExists { branch: "main"@ })
    } else {
        match h[0] {
            Reply::Flag(Ok(true)) => Outcome::Done(Ok("main"@), h.skip(1)),
            Reply::Flag(_) => remote_main_script(h.skip(1)),
            _ => unfit(h.skip(1)),
        }
    }
}

pub open spec fn remote_main_script(h: Seq<Reply>) -> Outcome<Attempt<Seq<char>>> {
    if h.len() == 0 {
        Outcome::Ask(GitOp::ReferenceExists { name: "refs/remotes/origin/main"@ })
    } else {
        match h[0] {
            Reply::Flag(Ok(true)) => Outcome::Done(Ok("main"@), h.skip(1)),
            Reply::Flag(_) => master_script(h.skip(1)),
            _ => unfit(h.skip(1)),
        }
    }
}

pub open spec fn master_script(h: Seq<Reply>) -> Outcome<Attempt<Seq<char>>> {
    if h.len() == 0 {
        Outcome::Ask(GitOp::BranchExists { branch: "master"@ })
    } else {
        match h[0] {
            Reply::Flag(Ok(true)) => Outcome::Done(Ok("master"@), h.skip(1)),
            Reply::Flag(_) => remote_master_script(h.skip(1)),
            _ => unfit(h.skip(1)),
        }
    }
}

pub open spec fn remote_master_script(h: Seq<Reply>) -> Outcome<Attempt<Seq<char>>> {
    if h.len() == 0 {
        Outcome::Ask(GitOp::ReferenceExists { name: "refs/remotes/origin/master"@ })
    } else {
        match h[0] {
            Reply::Flag(Ok(true)) => Outcome::Done(Ok("master"@), h.skip(1)),
            Reply::Flag(_) => branch_name_of(current_branch_script(h.skip(1))),
            _ => unfit(h.skip(1)),
        }
    }
}

/// The name of the branch that was asked for.
pub open spec fn branch_name_of(o: Outcome<Attempt<CurrentBranch<Seq<char>>>>) -> Outcome<
    Attempt<Seq<char>>,
> {
    match o {
        Outcome::Ask(op) => Outcome::Ask(op),
        Outcome::Done(Ok(branch), rest) => Outcome::Done(Ok(branch.name), rest),
        Outcome::Done(Err(e), rest) => Outcome::Done(Err(e), rest),
    }
}

/// The branch that the repository should be on: the configured one, else the default branch.
#[verifier::opaque]
pub open spec fn target_branch_script(configured: Option<Seq<char>>, h: Seq<Reply>) -> Outcome<
    Attempt<Seq<char>>,
> {
    match configured {
        Some(target) => if target.len() > 0 {
            Outcome::Done(Ok(target), h)
        } else {
            default_branch_script(h)
        },
        None => default_branch_script(h),
    }
}

/// The default branch of the repository, under way.
#[derive(Debug)]
pub enum DefaultBranchRun {
    RemoteHead,
    Main,
    RemoteMain,
    Master,
    RemoteMaster,
    Current(BranchRun),
}

impl DefaultBranchRun {
    /// Asks for the default branch of the repository.
    pub fn start() -> (step: Step<DefaultBranchRun, Result<String, SyncError>>)
        ensures
            follows(|h: Seq<Reply>| default_branch_script(h), step),
            step is Ask,
    {
        proof {
            reveal(default_branch_script);
            reveal(target_branch_script);
        }
        Step::Ask(
            DefaultBranchRun::RemoteHead,
            GitOp::ResolvedShorthand { name: "refs/remotes/origin/HEAD".to_string() },
        )
    }

    /// Asks for the branch that the repository should be on.
    pub fn start_target(configured: &Option<String>) -> (step: Step<
        DefaultBranchRun,
        Result<String, SyncError>,
    >)
        ensures
            follows(|h: Seq<Reply>| target_branch_script(option_view(*configured), h), step),
    {
        proof {
            reveal(default_branch_script);
            reveal(target_branch_script);
        }
        if let Some(target) = configured {
            if !target.as_str().is_empty() {
                return Step::Done(Ok(target.clone()));
            }
        }
        DefaultBranchRun::start()
    }

    fn current(step: Step<BranchRun, Result<CurrentBranch, SyncError>>) -> (next: Step<
        DefaultBranchRun,
        Result<String, SyncError>,
    >)
        ensures
            match step {
                Step::Ask(run, op) => asks(next, DefaultBranchRun::Current(run), op),
                Step::Done(Ok(branch)) => ends(next, Ok(branch.name)),
                Step::Done(Err(e)) => ends(next, Err(e)),
            },
    {
        match step {
            Step::Ask(run, op) => Step::Ask(DefaultBranchRun::Current(run), op),
            Step::Done(Ok(branch)) => Step::Done(Ok(branch.name)),
            Step::Done(Err(e)) => Step::Done(Err(e)),
        }
    }
}

impl Scripted for DefaultBranchRun {
    type Output = Result<String, SyncError>;

    type Outline = Attempt<Seq<char>>;

    open spec fn outline(output: Self::Output) -> Self::Outline {
        attempt_text(output)
    }

    closed spec fn script(self, h: Seq<Reply>) -> Outcome<Self::Outline> {
        match self {
            DefaultBranchRun::RemoteHead => default_branch_script(h),
            DefaultBranchRun::Main => main_script(h),
            DefaultBranchRun::RemoteMain => remote_main_script(h),
            DefaultBranchRun::Master => master_script(h),
            DefaultBranchRun::RemoteMaster => remote_master_script(h),
            DefaultBranchRun::Current(run) => branch_name_of(run.script(h)),
        }
    }
}

impl Procedure for DefaultBranchRun {
    fn resume(self, reply: Reply) -> (next: Step<Self, Self::Output>) {
        broadcast use lemma_first_reply;

        proof {
            reveal(default_branch_script);
            reveal(target_branch_script);
        }

        match self {
            DefaultBranchRun::RemoteHead => {
                let main: Step<Self, Self::Output> = Step::Ask(
                    DefaultBranchRun::Main,
                    GitOp::BranchExists { branch: "main".to_string() },
                );
                match reply {
                    Reply::Maybe(Ok(Some(name))) => {
                        match text::strip_prefix(name.as_str(), "origin/") {
                            Some(branch) => Step::Done(Ok(branch)),
                            None => main,
                        }
                    },
                    Reply::Maybe(_) => main,
                    _ => Step::Done(Err(misfit_error())),
                }
            },
            DefaultBranchRun::Main => match reply {
                Reply::Flag(Ok(true)) => Step::Done(Ok("main".to_string())),
                Reply::Flag(_) => Step::Ask(
                    DefaultBranchRun::RemoteMain,
                    GitOp::ReferenceExists { name: "refs/remotes/origin/main".to_string() },
                ),
                _ => Step::Done(Err(misfit_error())),
            },
            DefaultBranchRun::RemoteMain => match reply {
                Reply::Flag(Ok(true)) => Step::Done(Ok("main".to_string())),
                Reply::Flag(_) => Step::Ask(
                    DefaultBranchRun::Master,
                    GitOp::BranchExists { branch: "master".to_string() },
                ),
                _ => Step::Done(Err(misfit_error())),
            },
            DefaultBranchRun::Master => match reply {
                Reply::Flag(Ok(true)) => Step::Done(Ok("master".to_string())),
                Reply::Flag(_) => Step::Ask(
                    DefaultBranchRun::RemoteMaster,
                    GitOp::ReferenceExists { name: "refs/remotes/origin/master".to_string() },
                ),
                _ => Step::Done(Err(misfit_error())),
            },
            DefaultBranchRun::RemoteMaster => match reply {
                Reply::Flag(Ok(true)) => Step::Done(Ok("master".to_string())),
                Reply::Flag(_) => Self::current(BranchRun::start()),
                _ => Step::Done(Err(misfit_error())),
            },
            DefaultBranchRun::Current(run) => Self::current(run.resume(reply)),
        }
    }
}

} // verus!
