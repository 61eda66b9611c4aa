//! Handling the conflicts of a rebase.

use crate::error::SyncError;
use crate::sync::SyncConfig;
use crate::sync::changes::{local_changes_script, ChangesRun};
use crate::sync::commit::{auto_commit_script, AutoCommitRun};
use crate::sync::create::{create_fallback_script, CreateRun};
use crate::sync::remote::{push_upstream_command, remote_script, RemoteRun};
use crate::sync::step::{
    asks, attempt, attempt_text, ends, follows, lemma_first_reply, Attempt, Outcome, Procedure,
    Reply, Scripted, Step,
};
use vstd::prelude::*;
use vstd::string::*;

verus! {

/// The error of conflicts that nothing is configured to handle.
pub open spec fn rebase_conflict() -> SyncError<Seq<char>> {
    SyncError::ManualInterventionRequired {
        reason: "Rebase conflicts detected. Please resolve manually."@,
    }
}

/// Handles the conflicts of a rebase that was given up: creates a fallback branch, commits what
/// is left to commit on it and pushes it. Without fallback branches there is nothing to do but
/// to report.
#[verifier::opaque]
pub open spec fn conflict_script(c: SyncConfig<Seq<char>>, h: Seq<Reply>) -> Outcome<Attempt<()>> {
    if !c.conflict_branch {
        Outcome::Done(Err(rebase_conflict()), h)
    } else {
        fallback_created(c, create_fallback_script(h))
    }
}

pub open spec fn fallback_created(
    c: SyncConfig<Seq<char>>,
    o: Outcome<Attempt<Seq<char>>>,
) -> Outcome<Attempt<()>> {
    match o {
        Outcome::Ask(op) => Outcome::Ask(op),
        Outcome::Done(Err(e), rest) => Outcome::Done(Err(e), rest),
        Outcome::Done(Ok(branch), rest) => fallback_changes(
            c,
            branch,
            local_changes_script(c.sync_new_files, rest),
        ),
    }
}

pub open spec fn fallback_changes(
    c: SyncConfig<Seq<char>>,
    branch: Seq<char>,
    o: Outcome<Attempt<bool>>,
) -> Outcome<Attempt<()>> {
    match o {
        Outcome::Ask(op) => Outcome::Ask(op),
        Outcome::Done(Err(e), rest) => Outcome::Done(Err(e), rest),
        Outcome::Done(Ok(changes), rest) => if changes {
            fallback_committed(c, branch, auto_commit_script(c, rest))
        } else {
            remote_script(push_upstream_command(c, branch), rest)
        },
    }
}

pub open spec fn fallback_committed(
    c: SyncConfig<Seq<char>>,
    branch: Seq<char>,
    o: Outcome<Attempt<()>>,
) -> Outcome<Attempt<()>> {
    match o {
        Outcome::Ask(op) => Outcome::Ask(op),
        Outcome::Done(Err(e), rest) => Outcome::Done(Err(e), rest),
        Outcome::Done(Ok(_), rest) => remote_script(push_upstream_command(c, branch), rest),
    }
}

/// The handling of conflicts, under way.
#[allow(inconsistent_fields)]
#[derive(Debug)]
pub enum ConflictRun {
    Create { config: SyncConfig, run: CreateRun },
    Changes { config: SyncConfig, branch: String, run: ChangesRun },
    Commit { config: SyncConfig, branch: String, run: AutoCommitRun },
    Push(RemoteRun),
}

impl ConflictRun {
    /// Handles the conflicts of a rebase that was given up.
    pub fn start(config: SyncConfig) -> (step: Step<ConflictRun, Result<(), SyncError>>)
        ensures
            follows(|h: Seq<Reply>| conflict_script(config@, h), step),
    {
        proof {
            reveal(conflict_script);
        }
        if !config.conflict_branch {
            return Step::Done(
                Err(
                    SyncError::ManualInterventionRequired {
                        reason: "Rebase conflicts detected. Please resolve manually.".to_string(),
                    },
                ),
            );
        }
        Self::create(config, CreateRun::start())
    }

    fn create(config: SyncConfig, step: Step<CreateRun, Result<String, SyncError>>) -> (next: Step<
        ConflictRun,
        Result<(), SyncError>,
    >)
        ensures
            match step {
                Step::Ask(run, op) => asks(next, ConflictRun::Create { config, run }, op),
                Step::Done(r) => follows(
                    |h: Seq<Reply>| fallback_created(config@, Outcome::Done(attempt_text(r), h)),
                    next,
                ),
            },
    {
        match step {
            Step::Ask(run, op) => Step::Ask(ConflictRun::Create { config, run }, op),
            Step::Done(Ok(branch)) => {
                let step = ChangesRun::start(config.sync_new_files);
                Self::changes(config, branch, step)
            },
            Step::Done(Err(e)) => Step::Done(Err(e)),
        }
    }

    fn changes(
        config: SyncConfig,
        branch: String,
        step: Step<ChangesRun, Result<bool, SyncError>>,
    ) -> (next: Step<ConflictRun, Result<(), SyncError>>)
        ensures
            match step {
                Step::Ask(run, op) => asks(next, ConflictRun::Changes { config, branch, run }, op),
                Step::Done(r) => follows(
                    |h: Seq<Reply>| fallback_changes(
                        config@,
                        branch@,
                        Outcome::Done(attempt(r), h),
                    ),
                    next,
                ),
            },
    {
        match step {
            Step::Ask(run, op) => Step::Ask(ConflictRun::Changes { config, branch, run }, op),
            Step::Done(Ok(changes)) => if changes {
                let copy: SyncConfig = config.copy();
                Self::commit(config, branch, AutoCommitRun::start(copy))
            } else {
                Self::push(RemoteRun::push_upstream(&config, branch.as_str()))
            },
            Step::Done(Err(e)) => Step::Done(Err(e)),
        }
    }

    fn commit(
        config: SyncConfig,
        branch: String,
        step: Step<AutoCommitRun, Result<(), SyncError>>,
    ) -> (next: Step<ConflictRun, Result<(), SyncError>>)
        ensures
            match step {
                Step::Ask(run, op) => asks(next, ConflictRun::Commit { config, branch, run }, op),
                Step::Done(r) => follows(
                    |h: Seq<Reply>| fallback_committed(
                        config@,
                        branch@,
                        Outcome::Done(attempt(r), h),
                    ),
                    next,
                ),
            },
    {
        match step {
            Step::Ask(run, op) => Step::Ask(ConflictRun::Commit { config, branch, run }, op),
            Step::Done(Ok(_)) => Self::push(RemoteRun::push_upstream(&config, branch.as_str())),
            Step::Done(Err(e)) => Step::Done(Err(e)),
        }
    }

    fn push(step: Step<RemoteRun, Result<(), SyncError>>) -> (next: Step<
        ConflictRun,
        Result<(), SyncError>,
    >)
        ensures
            match step {
                Step::Ask(run, op) => asks(next, ConflictRun::Push(run), op),
                Step::Done(r) => ends(next, r),
            },
    {
        match step {
            Step::Ask(run, op) => Step::Ask(ConflictRun::Push(run), op),
            Step::Done(r) => Step::Done(r),
        }
    }
}

impl Scripted for ConflictRun {
    type Output = Result<(), SyncError>;

    type Outline = Attempt<()>;

    open spec fn outline(output: Self::Output) -> Self::Outline {
        attempt(output)
    }

    closed spec fn script(self, h: Seq<Reply>) -> Outcome<Self::Outline> {
        match self {
            ConflictRun::Create { config, run } => fallback_created(config@, run.script(h)),
            ConflictRun::Changes { config, branch, run } => fallback_changes(
                config@,
                branch@,
                run.script(h),
            ),
            ConflictRun::Commit { config, branch, run } => fallback_committed(
                config@,
                branch@,
                run.script(h),
            ),
            ConflictRun::Push(run) => run.script(h),
        }
    }
}

impl Procedure for ConflictRun {
    fn resume(self, reply: Reply) -> (next: Step<Self, Self::Output>) {
        broadcast use lemma_first_reply;

        proof {
            reveal(conflict_script);
        }

        match self {
            ConflictRun::Create { config, run } => Self::create(config, run.resume(reply)),
            ConflictRun::Changes { config, branch, run } => Self::changes(
                config,
                branch,
                run.resume(reply),
            ),
            ConflictRun::Commit { config, branch, run } => Self::commit(
                config,
                branch,
                run.resume(reply),
            ),
            ConflictRun::Push(run) => Self::push(run.resume(reply)),
        }
    }
}

} // verus!
