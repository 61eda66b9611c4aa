//! A synchronization that looks around first.

use crate::error::SyncError;
use crate::sync::RepositorySynchronizer;
use crate::sync::back::Model;
use crate::sync::branch::{attempt_branch, current_branch_script, BranchRun, CurrentBranch};
use crate::sync::relation::{sync_state_script, SyncState, SyncStateRun};
use crate::sync::run::{sync_script, synced, synced_view, SyncRun, Synced};
use crate::sync::state::{repository_state_script, RepositoryState, StateRun};
use crate::sync::step::{
    asks, attempt, ends, follows, lemma_first_reply, Attempt, Outcome, Procedure, Reply, Scripted,
    Step,
};
use vstd::prelude::*;

verus! {

/// Synchronizes a repository, or only checks whether that can be done, once it is known which
/// branch is checked out, what state the repository is in and how the branch relates to its
/// upstream.
#[verifier::opaque]
pub open spec fn inspect_script(s: Model, check_only: bool, h: Seq<Reply>) -> Outcome<
    Synced<Seq<char>>,
> {
    branch_inspected(s, check_only, current_branch_script(h))
}

pub open spec fn branch_inspected(
    s: Model,
    check_only: bool,
    o: Outcome<Attempt<CurrentBranch<Seq<char>>>>,
) -> Outcome<Synced<Seq<char>>> {
    match o {
        Outcome::Ask(op) => Outcome::Ask(op),
        Outcome::Done(Err(e), rest) => synced(Err(e), s, rest),
        Outcome::Done(Ok(_), rest) => state_inspected(s, check_only, repository_state_script(rest)),
    }
}

pub open spec fn state_inspected(
    s: Model,
    check_only: bool,
    o: Outcome<Attempt<RepositoryState>>,
) -> Outcome<Synced<Seq<char>>> {
    match o {
        Outcome::Ask(op) => Outcome::Ask(op),
        Outcome::Done(Err(e), rest) => synced(Err(e), s, rest),
        Outcome::Done(Ok(_), rest) => relation_inspected(s, check_only, sync_state_script(rest)),
    }
}

pub open spec fn relation_inspected(
    s: Model,
    check_only: bool,
    o: Outcome<Attempt<SyncState>>,
) -> Outcome<Synced<Seq<char>>> {
    match o {
        Outcome::Ask(op) => Outcome::Ask(op),
        Outcome::Done(Err(e), rest) => synced(Err(e), s, rest),
        Outcome::Done(Ok(_), rest) => sync_script(s, check_only, rest),
    }
}

/// The same, under way.
#[allow(inconsistent_fields)]
#[derive(Debug)]
pub enum InspectRun {
    Branch { synchronizer: RepositorySynchronizer, check_only: bool, run: BranchRun },
    State { synchronizer: RepositorySynchronizer, check_only: bool, run: StateRun },
    Relation { synchronizer: RepositorySynchronizer, check_only: bool, run: SyncStateRun },
    Sync(SyncRun),
}

impl InspectRun {
    /// Synchronizes a repository, or only checks whether that can be done.
    pub fn start(synchronizer: RepositorySynchronizer, check_only: bool) -> (step: Step<
        InspectRun,
        Synced<String>,
    >)
        ensures
            follows(|h: Seq<Reply>| inspect_script(synchronizer@, check_only, h), step),
            step is Ask,
    {
        proof {
            reveal(inspect_script);
        }
        Self::branch(synchronizer, check_only, BranchRun::start())
    }

    fn branch(
        synchronizer: RepositorySynchronizer,
        check_only: bool,
        step: Step<BranchRun, Result<CurrentBranch, SyncError>>,
    ) -> (next: Step<InspectRun, Synced<String>>)
        ensures
            match step {
                Step::Ask(run, op) => asks(
                    next,
                    InspectRun::Branch { synchronizer, check_only, run },
                    op,
                ),
                Step::Done(r) => follows(
                    |h: Seq<Reply>| branch_inspected(
                        synchronizer@,
                        check_only,
                        Outcome::Done(attempt_branch(r), h),
                    ),
                    next,
                ),
            },
    {
        match step {
            Step::Ask(run, op) => Step::Ask(
                InspectRun::Branch { synchronizer, check_only, run },
                op,
            ),
            Step::Done(Err(e)) => Step::Done((Err(e), synchronizer)),
            Step::Done(Ok(_)) => Self::state(synchronizer, check_only, StateRun::start()),
        }
    }

    fn state(
        synchronizer: RepositorySynchronizer,
        check_only: bool,
        step: Step<StateRun, Result<RepositoryState, SyncError>>,
    ) -> (next: Step<InspectRun, Synced<String>>)
        ensures
            match step {
                Step::Ask(run, op) => asks(
                    next,
                    InspectRun::State { synchronizer, check_only, run },
                    op,
                ),
                Step::Done(r) => follows(
                    |h: Seq<Reply>| state_inspected(
                        synchronizer@,
                        check_only,
                        Outcome::Done(attempt(r), h),
                    ),
                    next,
                ),
            },
    {
        match step {
            Step::Ask(run, op) => Step::Ask(InspectRun::State { synchronizer, check_only, run }, op),
            Step::Done(Err(e)) => Step::Done((Err(e), synchronizer)),
            Step::Done(Ok(_)) => Self::relation(synchronizer, check_only, SyncStateRun::start()),
        }
    }

    fn relation(
        synchronizer: RepositorySynchronizer,
        check_only: bool,
        step: Step<SyncStateRun, Result<SyncState, SyncError>>,
    ) -> (next: Step<InspectRun, Synced<String>>)
        ensures
            match step {
                Step::Ask(run, op) => asks(
                    next,
                    InspectRun::Relation { synchronizer, check_only, run },
                    op,
                ),
                Step::Done(r) => follows(
                    |h: Seq<Reply>| relation_inspected(
                        synchronizer@,
                        check_only,
                        Outcome::Done(attempt(r), h),
                    ),
                    next,
                ),
            },
    {
        match step {
            Step::Ask(run, op) => Step::Ask(
                InspectRun::Relation { synchronizer, check_only, run },
                op,
            ),
            Step::Done(Err(e)) => Step::Done((Err(e), synchronizer)),
            Step::Done(Ok(_)) => Self::sync(SyncRun::start(synchronizer, check_only)),
        }
    }

    fn sync(step: Step<SyncRun, Synced<String>>) -> (next: Step<InspectRun, Synced<String>>)
        ensures
            match step {
                Step::Ask(run, op) => asks(next, InspectRun::Sync(run), op),
                Step::Done(r) => ends(next, r),
            },
    {
        match step {
            Step::Ask(run, op) => Step::Ask(InspectRun::Sync(run), op),
            Step::Done(r) => Step::Done(r),
        }
    }
}

impl Scripted for InspectRun {
    type Output = Synced<String>;

    type Outline = Synced<Seq<char>>;

    open spec fn outline(output: Self::Output) -> Self::Outline {
        synced_view(output)
    }

    closed spec fn script(self, h: Seq<Reply>) -> Outcome<Self::Outline> {
        match self {
            InspectRun::Branch { synchronizer, check_only, run } => branch_inspected(
                synchronizer@,
                check_only,
                run.script(h),
            ),
            InspectRun::State { synchronizer, check_only, run } => state_inspected(
                synchronizer@,
                check_only,
                run.script(h),
            ),
            InspectRun::Relation { synchronizer, check_only, run } => relation_inspected(
                synchronizer@,
                check_only,
                run.script(h),
            ),
            InspectRun::Sync(run) => run.script(h),
        }
    }
}

impl Procedure for InspectRun {
    fn resume(self, reply: Reply) -> (next: Step<Self, Self::Output>) {
        broadcast use lemma_first_reply;

        match self {
            InspectRun::Branch { synchronizer, check_only, run } => Self::branch(
                synchronizer,
                check_only,
                run.resume(reply),
            ),
            InspectRun::State { synchronizer, check_only, run } => Self::state(
                synchronizer,
                check_only,
                run.resume(reply),
            ),
            InspectRun::Relation { synchronizer, check_only, run } => Self::relation(
                synchronizer,
                check_only,
                run.resume(reply),
            ),
            InspectRun::Sync(run) => Self::sync(run.resume(reply)),
        }
    }
}

} // verus!
