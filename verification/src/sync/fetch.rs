//! Fetching what a synchronization needs.

use crate::error::SyncError;
use crate::sync::SyncConfig;
use crate::sync::remote::{fetch_command, remote_script, RemoteRun};
use crate::sync::step::{
    asks, attempt, ends, follows, lemma_first_reply, Attempt, Outcome, Procedure, Reply, Scripted,
    Step,
};
use crate::sync::target::{target_branch_script, DefaultBranchRun};
use crate::text;
use vstd::prelude::*;
use vstd::string::*;

verus! {

/// Whether the remote has no such branch.
pub open spec fn branch_missing(r: Attempt<()>) -> bool {
    r matches Err(SyncError::RemoteBranchNotFound { .. })
}

/// Fetches the branch of the configuration and, where conflicts lead to fallback branches, the
/// branch that the repository should be on. Only the first of the two has to succeed; and where
/// `unborn` holds, the remote need not have the branch yet.
#[verifier::opaque]
pub open spec fn fetch_script(c: SyncConfig<Seq<char>>, unborn: bool, h: Seq<Reply>) -> Outcome<
    Attempt<()>,
> {
    fetched(c, unborn, remote_script(fetch_command(c, c.branch_name), h))
}

pub open spec fn fetched(
    c: SyncConfig<Seq<char>>,
    unborn: bool,
    o: Outcome<Attempt<()>>,
) -> Outcome<Attempt<()>> {
    match o {
        Outcome::Ask(op) => Outcome::Ask(op),
        Outcome::Done(r, rest) => if r is Err && !(unborn && branch_missing(r)) {
            Outcome::Done(r, rest)
        } else if !c.conflict_branch {
            Outcome::Done(Ok(()), rest)
        } else {
            target_known(c, target_branch_script(c.target_branch, rest))
        },
    }
}

pub open spec fn target_known(
    c: SyncConfig<Seq<char>>,
    o: Outcome<Attempt<Seq<char>>>,
) -> Outcome<Attempt<()>> {
    match o {
        Outcome::Ask(op) => Outcome::Ask(op),
        Outcome::Done(Err(_), rest) => Outcome::Done(Ok(()), rest),
        Outcome::Done(Ok(target), rest) => if target == c.branch_name {
            Outcome::Done(Ok(()), rest)
        } else {
            regardless(remote_script(fetch_command(c, target), rest))
        },
    }
}

/// Success, whatever the result was.
pub open spec fn regardless(o: Outcome<Attempt<()>>) -> Outcome<Attempt<()>> {
    match o {
        Outcome::Ask(op) => Outcome::Ask(op),
        Outcome::Done(_, rest) => Outcome::Done(Ok(()), rest),
    }
}

/// A fetch that is under way.
#[allow(inconsistent_fields)]
#[derive(Debug)]
pub enum FetchRun {
    Branch { config: SyncConfig, unborn: bool, run: RemoteRun },
    Target { config: SyncConfig, run: DefaultBranchRun },
    TargetFetch(RemoteRun),
}

impl FetchRun {
    /// Fetches what a synchronization needs.
    pub fn start(config: SyncConfig, unborn: bool) -> (step: Step<FetchRun, Result<(), SyncError>>)
        ensures
            follows(|h: Seq<Reply>| fetch_script(config@, unborn, h), step),
            step is Ask,
    {
        proof {
            reveal(fetch_script);
        }
        let step = RemoteRun::fetch(&config, config.branch_name.as_str());
        Self::branch(config, unborn, step)
    }

    fn branch(
        config: SyncConfig,
        unborn: bool,
        step: Step<RemoteRun, Result<(), SyncError>>,
    ) -> (next: Step<FetchRun, Result<(), SyncError>>)
        ensures
            match step {
                Step::Ask(run, op) => asks(next, FetchRun::Branch { config, unborn, run }, op),
                Step::Done(r) => follows(
                    |h: Seq<Reply>| fetched(config@, unborn, Outcome::Done(attempt(r), h)),
                    next,
                ),
            },
    {
        match step {
            Step::Ask(run, op) => Step::Ask(FetchRun::Branch { config, unborn, run }, op),
            Step::Done(r) => {
                match r {
                    Ok(()) => {},
                    Err(SyncError::RemoteBranchNotFound { .. }) if unborn => {},
                    Err(e) => {
                        return Step::Done(Err(e));
                    },
                }
                if !config.conflict_branch {
                    return Step::Done(Ok(()));
                }
                let step = DefaultBranchRun::start_target(&config.target_branch);
                Self::target(config, step)
            },
        }
    }

    fn target(
        config: SyncConfig,
        step: Step<DefaultBranchRun, Result<String, SyncError>>,
    ) -> (next: Step<FetchRun, Result<(), SyncError>>)
        ensures
            match step {
                Step::Ask(run, op) => asks(next, FetchRun::Target { config, run }, op),
                Step::Done(r) => follows(
                    |h: Seq<Reply>| target_known(
                        config@,
                        Outcome::Done(DefaultBranchRun::outline(r), h),
                    ),
                    next,
                ),
            },
    {
        match step {
            Step::Ask(run, op) => Step::Ask(FetchRun::Target { config, run }, op),
            Step::Done(Err(_)) => Step::Done(Ok(())),
            Step::Done(Ok(target)) => if text::same_text(
                target.as_str(),
                config.branch_name.as_str(),
            ) {
                Step::Done(Ok(()))
            } else {
                Self::target_fetch(RemoteRun::fetch(&config, target.as_str()))
            },
        }
    }

    fn target_fetch(step: Step<RemoteRun, Result<(), SyncError>>) -> (next: Step<
        FetchRun,
        Result<(), SyncError>,
    >)
        ensures
            match step {
                Step::Ask(run, op) => asks(next, FetchRun::TargetFetch(run), op),
                Step::Done(_) => ends(next, Ok(())),
            },
    {
        match step {
            Step::Ask(run, op) => Step::Ask(FetchRun::TargetFetch(run), op),
            Step::Done(_) => Step::Done(Ok(())),
        }
    }
}

impl Scripted for FetchRun {
    type Output = Result<(), SyncError>;

    type Outline = Attempt<()>;

    open spec fn outline(output: Self::Output) -> Self::Outline {
        attempt(output)
    }

    closed spec fn script(self, h: Seq<Reply>) -> Outcome<Self::Outline> {
        match self {
            FetchRun::Branch { config, unborn, run } => fetched(config@, unborn, run.script(h)),
            FetchRun::Target { config, run } => target_known(config@, run.script(h)),
            FetchRun::TargetFetch(run) => regardless(run.script(h)),
        }
    }
}

impl Procedure for FetchRun {
    fn resume(self, reply: Reply) -> (next: Step<Self, Self::Output>) {
        broadcast use lemma_first_reply;

        proof {
            reveal(fetch_script);
        }

        match self {
            FetchRun::Branch { config, unborn, run } => Self::branch(
                config,
                unborn,
                run.resume(reply),
            ),
            FetchRun::Target { config, run } => Self::target(config, run.resume(reply)),
            FetchRun::TargetFetch(run) => Self::target_fetch(run.resume(reply)),
        }
    }
}

} // verus!
