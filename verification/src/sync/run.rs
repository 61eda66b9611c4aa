//! A whole synchronization, from the first check to the last.

use crate::error::SyncError;
use crate::sync::RepositorySynchronizer;
use crate::sync::back::{return_script, return_view, with_branch, Model, Return, ReturnRun};
use crate::sync::branch::{attempt_branch, current_branch_script, BranchRun, CurrentBranch};
use crate::sync::changes::{local_changes_script, ChangesRun};
use crate::sync::commit::{auto_commit_script, AutoCommitRun};
use crate::sync::create::{in_fallback_mode, is_fallback_mode};
use crate::sync::fetch::{fetch_script, FetchRun};
use crate::sync::forward::{fast_forward_script, ForwardRun};
use crate::sync::rebase::{rebase_script, RebaseRun};
use crate::sync::relation::{sync_state_script, SyncState, SyncStateRun};
use crate::sync::remote::{push_command, push_upstream_command, remote_script, RemoteRun};
use crate::sync::state::{repository_state_script, RepositoryState, StateRun};
use crate::sync::step::{
    asks, attempt, follows, lemma_first_reply, Attempt, Outcome, Procedure, Reply, Scripted, Step,
};
use crate::sync::unhandled::{
    unhandled_files_script, unhandled_view, UnhandledFileState, UnhandledRun,
};
use vstd::prelude::*;
use vstd::string::*;

verus! {

/// Whether a synchronization succeeded, and the synchronizer from then on.
pub type Synced<S> = (Result<(), SyncError<S>>, RepositorySynchronizer<S>);

pub open spec fn synced_view(r: Synced<String>) -> Synced<Seq<char>> {
    (attempt(r.0), r.1@)
}

/// The end of a synchronization.
pub open spec fn synced(r: Attempt<()>, s: Model, rest: Seq<Reply>) -> Outcome<Synced<Seq<char>>> {
    Outcome::Done((r, s), rest)
}

/// The name of a state, as errors write it.
pub open spec fn state_name(state: RepositoryState) -> Seq<char> {
    match state {
        RepositoryState::Clean => "Clean"@,
        RepositoryState::Dirty => "Dirty"@,
        RepositoryState::Rebasing => "Rebasing"@,
        RepositoryState::Merging => "Merging"@,
        RepositoryState::CherryPicking => "CherryPicking"@,
        RepositoryState::Reverting => "Reverting"@,
        RepositoryState::Bisecting => "Bisecting"@,
        RepositoryState::ApplyingPatches => "ApplyingPatches"@,
        RepositoryState::DetachedHead => "DetachedHead"@,
    }
}

impl RepositoryState {
    /// The name of the state, as errors write it.
    pub fn name(&self) -> (name: String)
        ensures
            name@ == state_name(*self),
    {
        let name: &str = match self {
            RepositoryState::Clean => "Clean",
            RepositoryState::Dirty => "Dirty",
            RepositoryState::Rebasing => "Rebasing",
            RepositoryState::Merging => "Merging",
            RepositoryState::CherryPicking => "CherryPicking",
            RepositoryState::Reverting => "Reverting",
            RepositoryState::Bisecting => "Bisecting",
            RepositoryState::ApplyingPatches => "ApplyingPatches",
            RepositoryState::DetachedHead => "DetachedHead",
        };
        name.to_string()
    }
}

/// Why a repository in the given state cannot be synchronized, if it cannot.
pub open spec fn obstacle(state: RepositoryState) -> Option<SyncError<Seq<char>>> {
    match state {
        RepositoryState::Clean => None,
        RepositoryState::Dirty => None,
        RepositoryState::DetachedHead => Some(SyncError::DetachedHead),
        _ => Some(SyncError::UnsafeRepositoryState { state: state_name(state) }),
    }
}

/// The error of a file that prevents a synchronization.
pub open spec fn unhandled_error(u: UnhandledFileState<Seq<char>>) -> SyncError<Seq<char>> {
    match u {
        UnhandledFileState::Conflicted { path } => SyncError::ManualInterventionRequired {
            reason: "Conflicted file: "@ + path,
        },
    }
}

/// The error of a synchronization that left the branch apart from its upstream.
pub open spec fn not_in_sync() -> SyncError<Seq<char>> {
    SyncError::Other("Sync completed but repository is not in sync"@)
}

/// Synchronizes the branch that is checked out with its upstream:
///
/// 1. makes sure that the repository is in a state to be touched,
/// 2. fetches,
/// 3. commits local changes,
/// 4. returns from a fallback branch, where there may be one and nothing stands in the way,
/// 5. pushes, moves forward or rebases and pushes, whichever the upstream calls for,
/// 6. makes sure that the branch and its upstream are equal.
///
/// With `check_only` it ends after the first of these.
#[verifier::opaque]
pub open spec fn sync_script(s: Model, check_only: bool, h: Seq<Reply>) -> Outcome<
    Synced<Seq<char>>,
> {
    state_checked(s, check_only, repository_state_script(h))
}

pub open spec fn state_checked(
    s: Model,
    check_only: bool,
    o: Outcome<Attempt<RepositoryState>>,
) -> Outcome<Synced<Seq<char>>> {
    match o {
        Outcome::Ask(op) => Outcome::Ask(op),
        Outcome::Done(Err(e), rest) => synced(Err(e), s, rest),
        Outcome::Done(Ok(state), rest) => match obstacle(state) {
            Some(e) => synced(Err(e), s, rest),
            None => files_checked(s, check_only, unhandled_files_script(rest)),
        },
    }
}

pub open spec fn files_checked(
    s: Model,
    check_only: bool,
    o: Outcome<Attempt<Option<UnhandledFileState<Seq<char>>>>>,
) -> Outcome<Synced<Seq<char>>> {
    match o {
        Outcome::Ask(op) => Outcome::Ask(op),
        Outcome::Done(Err(e), rest) => synced(Err(e), s, rest),
        Outcome::Done(Ok(Some(u)), rest) => synced(Err(unhandled_error(u)), s, rest),
        Outcome::Done(Ok(None), rest) => if check_only {
            synced(Ok(()), s, rest)
        } else {
            branch_known(s, current_branch_script(rest))
        },
    }
}

pub open spec fn branch_known(s: Model, o: Outcome<Attempt<CurrentBranch<Seq<char>>>>) -> Outcome<
    Synced<Seq<char>>,
> {
    match o {
        Outcome::Ask(op) => Outcome::Ask(op),
        Outcome::Done(Err(e), rest) => synced(Err(e), s, rest),
        Outcome::Done(Ok(branch), rest) => {
            let s = with_branch(s, branch.name);
            fetch_done(s, branch.unborn, fetch_script(s.config, branch.unborn, rest))
        },
    }
}

pub open spec fn fetch_done(s: Model, unborn: bool, o: Outcome<Attempt<()>>) -> Outcome<
    Synced<Seq<char>>,
> {
    match o {
        Outcome::Ask(op) => Outcome::Ask(op),
        Outcome::Done(Err(e), rest) => synced(Err(e), s, rest),
        Outcome::Done(Ok(_), rest) => changes_known(
            s,
            unborn,
            local_changes_script(s.config.sync_new_files, rest),
        ),
    }
}

pub open spec fn changes_known(s: Model, unborn: bool, o: Outcome<Attempt<bool>>) -> Outcome<
    Synced<Seq<char>>,
> {
    match o {
        Outcome::Ask(op) => Outcome::Ask(op),
        Outcome::Done(Err(e), rest) => synced(Err(e), s, rest),
        Outcome::Done(Ok(changes), rest) => if changes {
            commit_done(s, unborn, auto_commit_script(s.config, rest))
        } else {
            committed_script(s, unborn, rest)
        },
    }
}

pub open spec fn commit_done(s: Model, unborn: bool, o: Outcome<Attempt<()>>) -> Outcome<
    Synced<Seq<char>>,
> {
    match o {
        Outcome::Ask(op) => Outcome::Ask(op),
        Outcome::Done(Err(e), rest) => synced(Err(e), s, rest),
        Outcome::Done(Ok(_), rest) => committed_script(s, unborn, rest),
    }
}

/// The rest of a synchronization, once nothing in the working tree can be lost.
pub open spec fn committed_script(s: Model, unborn: bool, h: Seq<Reply>) -> Outcome<
    Synced<Seq<char>>,
> {
    if s.config.conflict_branch {
        return_done(unborn, return_script(s, h))
    } else {
        relation_known(s, unborn, sync_state_script(h))
    }
}

pub open spec fn return_done(unborn: bool, o: Outcome<Return<Seq<char>>>) -> Outcome<
    Synced<Seq<char>>,
> {
    match o {
        Outcome::Ask(op) => Outcome::Ask(op),
        Outcome::Done((Err(e), s), rest) => synced(Err(e), s, rest),
        Outcome::Done((Ok(_), s), rest) => relation_known(s, unborn, sync_state_script(rest)),
    }
}

pub open spec fn relation_known(s: Model, unborn: bool, o: Outcome<Attempt<SyncState>>) -> Outcome<
    Synced<Seq<char>>,
> {
    match o {
        Outcome::Ask(op) => Outcome::Ask(op),
        Outcome::Done(Err(e), rest) => synced(Err(e), s, rest),
        Outcome::Done(Ok(state), rest) => match state {
            SyncState::Equal => verdict(s, sync_state_script(rest)),
            SyncState::Ahead(_) => transferred(s, remote_script(push_command(s.config), rest)),
            SyncState::Behind(_) => transferred(s, fast_forward_script(rest)),
            SyncState::Diverged { .. } => rebased(s, rebase_script(s.config, rest)),
            SyncState::NoUpstream => publish(s, unborn, current_branch_script(rest)),
        },
    }
}

/// After a rebase: what is pushed is the branch that is checked out then, which is a fallback
/// branch where there were conflicts.
pub open spec fn rebased(s: Model, o: Outcome<Attempt<()>>) -> Outcome<Synced<Seq<char>>> {
    match o {
        Outcome::Ask(op) => Outcome::Ask(op),
        Outcome::Done(Err(e), rest) => synced(Err(e), s, rest),
        Outcome::Done(Ok(_), rest) => rebased_branch(s, current_branch_script(rest)),
    }
}

pub open spec fn rebased_branch(s: Model, o: Outcome<Attempt<CurrentBranch<Seq<char>>>>) -> Outcome<
    Synced<Seq<char>>,
> {
    match o {
        Outcome::Ask(op) => Outcome::Ask(op),
        Outcome::Done(Err(e), rest) => synced(Err(e), s, rest),
        Outcome::Done(Ok(branch), rest) => {
            let s = with_branch(s, branch.name);
            transferred(s, remote_script(push_command(s.config), rest))
        },
    }
}

/// Without an upstream: in fallback mode the branch gets one, and so does a branch that had no
/// commits before.
pub open spec fn publish(
    s: Model,
    unborn: bool,
    o: Outcome<Attempt<CurrentBranch<Seq<char>>>>,
) -> Outcome<Synced<Seq<char>>> {
    match o {
        Outcome::Ask(op) => Outcome::Ask(op),
        Outcome::Done(Err(e), rest) => synced(Err(e), s, rest),
        Outcome::Done(Ok(branch), rest) => if unborn || in_fallback_mode(
            branch.name,
            s.config.target_branch,
        ) {
            transferred(s, remote_script(push_upstream_command(s.config, branch.name), rest))
        } else {
            synced(
                Err(SyncError::NoRemoteConfigured { branch: s.config.branch_name }),
                s,
                rest,
            )
        },
    }
}

pub open spec fn transferred(s: Model, o: Outcome<Attempt<()>>) -> Outcome<Synced<Seq<char>>> {
    match o {
        Outcome::Ask(op) => Outcome::Ask(op),
        Outcome::Done(Err(e), rest) => synced(Err(e), s, rest),
        Outcome::Done(Ok(_), rest) => verdict(s, sync_state_script(rest)),
    }
}

pub open spec fn verdict(s: Model, o: Outcome<Attempt<SyncState>>) -> Outcome<Synced<Seq<char>>> {
    match o {
        Outcome::Ask(op) => Outcome::Ask(op),
        Outcome::Done(Err(e), rest) => synced(Err(e), s, rest),
        Outcome::Done(Ok(state), rest) => if state == SyncState::Equal || state
            == SyncState::NoUpstream {
            synced(Ok(()), s, rest)
        } else {
            synced(Err(not_in_sync()), s, rest)
        },
    }
}

/// A synchronization that is under way.
#[allow(inconsistent_fields)]
#[derive(Debug)]
pub enum SyncRun {
    State { synchronizer: RepositorySynchronizer, check_only: bool, run: StateRun },
    Files { synchronizer: RepositorySynchronizer, check_only: bool, run: UnhandledRun },
    Branch { synchronizer: RepositorySynchronizer, run: BranchRun },
    Fetch { synchronizer: RepositorySynchronizer, unborn: bool, run: FetchRun },
    Changes { synchronizer: RepositorySynchronizer, unborn: bool, run: ChangesRun },
    Commit { synchronizer: RepositorySynchronizer, unborn: bool, run: AutoCommitRun },
    Return { unborn: bool, run: ReturnRun },
    Relation { synchronizer: RepositorySynchronizer, unborn: bool, run: SyncStateRun },
    Push { synchronizer: RepositorySynchronizer, run: RemoteRun },
    Forward { synchronizer: RepositorySynchronizer, run: ForwardRun },
    Rebase { synchronizer: RepositorySynchronizer, run: RebaseRun },
    Rebased { synchronizer: RepositorySynchronizer, run: BranchRun },
    Publish { synchronizer: RepositorySynchronizer, unborn: bool, run: BranchRun },
    Verdict { synchronizer: RepositorySynchronizer, run: SyncStateRun },
}

impl SyncRun {
    /// Synchronizes a repository, or only checks whether that can be done.
    pub fn start(synchronizer: RepositorySynchronizer, check_only: bool) -> (step: Step<
        SyncRun,
        Synced<String>,
    >)
        ensures
            follows(|h: Seq<Reply>| sync_script(synchronizer@, check_only, h), step),
            step is Ask,
    {
        proof {
            reveal(sync_script);
        }
        Self::state(synchronizer, check_only, StateRun::start())
    }

    fn state(
        synchronizer: RepositorySynchronizer,
        check_only: bool,
        step: Step<StateRun, Result<RepositoryState, SyncError>>,
    ) -> (next: Step<SyncRun, Synced<String>>)
        ensures
            match step {
                Step::Ask(run, op) => asks(
                    next,
                    SyncRun::State { synchronizer, check_only, run },
                    op,
                ),
                Step::Done(r) => follows(
                    |h: Seq<Reply>| state_checked(
                        synchronizer@,
                        check_only,
                        Outcome::Done(attempt(r), h),
                    ),
                    next,
                ),
            },
    {
        match step {
            Step::Ask(run, op) => Step::Ask(SyncRun::State { synchronizer, check_only, run }, op),
            Step::Done(Err(e)) => Step::Done((Err(e), synchronizer)),
            Step::Done(Ok(state)) => match state {
                RepositoryState::Clean | RepositoryState::Dirty => Self::files(
                    synchronizer,
                    check_only,
                    UnhandledRun::start(),
                ),
                RepositoryState::DetachedHead => Step::Done(
                    (Err(SyncError::DetachedHead), synchronizer),
                ),
                _ => Step::Done(
                    (
                        Err(SyncError::UnsafeRepositoryState { state: state.name() }),
                        synchronizer,
                    ),
                ),
            },
        }
    }

    fn files(
        synchronizer: RepositorySynchronizer,
        check_only: bool,
        step: Step<UnhandledRun, Result<Option<UnhandledFileState>, SyncError>>,
    ) -> (next: Step<SyncRun, Synced<String>>)
        ensures
            match step {
                Step::Ask(run, op) => asks(
                    next,
                    SyncRun::Files { synchronizer, check_only, run },
                    op,
                ),
                Step::Done(r) => follows(
                    |h: Seq<Reply>| files_checked(
                        synchronizer@,
                        check_only,
                        Outcome::Done(UnhandledRun::outline(r), h),
                    ),
                    next,
                ),
            },
    {
        match step {
            Step::Ask(run, op) => Step::Ask(SyncRun::Files { synchronizer, check_only, run }, op),
            Step::Done(Err(e)) => Step::Done((Err(e), synchronizer)),
            Step::Done(Ok(Some(UnhandledFileState::Conflicted { path }))) => Step::Done(
                (
                    Err(
                        SyncError::ManualInterventionRequired {
                            reason: "Conflicted file: ".to_string().concat(path.as_str()),
                        },
                    ),
                    synchronizer,
                ),
            ),
            Step::Done(Ok(None)) => if check_only {
                Step::Done((Ok(()), synchronizer))
            } else {
                Self::branch(synchronizer, BranchRun::start())
            },
        }
    }

    fn branch(
        synchronizer: RepositorySynchronizer,
        step: Step<BranchRun, Result<CurrentBranch, SyncError>>,
    ) -> (next: Step<SyncRun, Synced<String>>)
        ensures
            match step {
                Step::Ask(run, op) => asks(next, SyncRun::Branch { synchronizer, run }, op),
                Step::Done(r) => follows(
                    |h: Seq<Reply>| branch_known(
                        synchronizer@,
                        Outcome::Done(attempt_branch(r), h),
                    ),
                    next,
                ),
            },
    {
        match step {
            Step::Ask(run, op) => Step::Ask(SyncRun::Branch { synchronizer, run }, op),
            Step::Done(Err(e)) => Step::Done((Err(e), synchronizer)),
            Step::Done(Ok(branch)) => {
                let synchronizer: RepositorySynchronizer = synchronizer.moved_to(branch.name);
                let step = FetchRun::start(synchronizer.config.copy(), branch.unborn);
                Self::fetch(synchronizer, branch.unborn, step)
            },
        }
    }

    fn fetch(
        synchronizer: RepositorySynchronizer,
        unborn: bool,
        step: Step<FetchRun, Result<(), SyncError>>,
    ) -> (next: Step<SyncRun, Synced<String>>)
        ensures
            match step {
                Step::Ask(run, op) => asks(next, SyncRun::Fetch { synchronizer, unborn, run }, op),
                Step::Done(r) => follows(
                    |h: Seq<Reply>| fetch_done(
                        synchronizer@,
                        unborn,
                        Outcome::Done(attempt(r), h),
                    ),
                    next,
                ),
            },
    {
        match step {
            Step::Ask(run, op) => Step::Ask(SyncRun::Fetch { synchronizer, unborn, run }, op),
            Step::Done(Err(e)) => Step::Done((Err(e), synchronizer)),
            Step::Done(Ok(_)) => {
                let step = ChangesRun::start(synchronizer.config.sync_new_files);
                Self::changes(synchronizer, unborn, step)
            },
        }
    }

    fn comeback(unborn: bool, step: Step<ReturnRun, Return<String>>) -> (next: Step<
        SyncRun,
        Synced<String>,
    >)
        ensures
            match step {
                Step::Ask(run, op) => asks(next, SyncRun::Return { unborn, run }, op),
                Step::Done(r) => follows(
                    |h: Seq<Reply>| return_done(unborn, Outcome::Done(return_view(r), h)),
                    next,
                ),
            },
    {
        match step {
            Step::Ask(run, op) => Step::Ask(SyncRun::Return { unborn, run }, op),
            Step::Done((Err(e), synchronizer)) => Step::Done((Err(e), synchronizer)),
            Step::Done((Ok(_), synchronizer)) => Self::relation(
                synchronizer,
                unborn,
                SyncStateRun::start(),
            ),
        }
    }

    fn changes(
        synchronizer: RepositorySynchronizer,
        unborn: bool,
        step: Step<ChangesRun, Result<bool, SyncError>>,
    ) -> (next: Step<SyncRun, Synced<String>>)
        ensures
            match step {
                Step::Ask(run, op) => asks(
                    next,
                    SyncRun::Changes { synchronizer, unborn, run },
                    op,
                ),
                Step::Done(r) => follows(
                    |h: Seq<Reply>| changes_known(
                        synchronizer@,
                        unborn,
                        Outcome::Done(attempt(r), h),
                    ),
                    next,
                ),
            },
    {
        match step {
            Step::Ask(run, op) => Step::Ask(SyncRun::Changes { synchronizer, unborn, run }, op),
            Step::Done(Err(e)) => Step::Done((Err(e), synchronizer)),
            Step::Done(Ok(changes)) => if changes {
                let step = AutoCommitRun::start(synchronizer.config.copy());
                Self::commit(synchronizer, unborn, step)
            } else {
                Self::committed(synchronizer, unborn)
            },
        }
    }

    fn commit(
        synchronizer: RepositorySynchronizer,
        unborn: bool,
        step: Step<AutoCommitRun, Result<(), SyncError>>,
    ) -> (next: Step<SyncRun, Synced<String>>)
        ensures
            match step {
                Step::Ask(run, op) => asks(
                    next,
                    SyncRun::Commit { synchronizer, unborn, run },
                    op,
                ),
                Step::Done(r) => follows(
                    |h: Seq<Reply>| commit_done(
                        synchronizer@,
                        unborn,
                        Outcome::Done(attempt(r), h),
                    ),
                    next,
                ),
            },
    {
        match step {
            Step::Ask(run, op) => Step::Ask(SyncRun::Commit { synchronizer, unborn, run }, op),
            Step::Done(Err(e)) => Step::Done((Err(e), synchronizer)),
            Step::Done(Ok(_)) => Self::committed(synchronizer, unborn),
        }
    }

    fn committed(synchronizer: RepositorySynchronizer, unborn: bool) -> (next: Step<
        SyncRun,
        Synced<String>,
    >)
        ensures
            follows(|h: Seq<Reply>| committed_script(synchronizer@, unborn, h), next),
    {
        if synchronizer.config.conflict_branch {
            Self::comeback(unborn, ReturnRun::start(synchronizer))
        } else {
            Self::relation(synchronizer, unborn, SyncStateRun::start())
        }
    }

    fn relation(
        synchronizer: RepositorySynchronizer,
        unborn: bool,
        step: Step<SyncStateRun, Result<SyncState, SyncError>>,
    ) -> (next: Step<SyncRun, Synced<String>>)
        ensures
            match step {
                Step::Ask(run, op) => asks(
                    next,
                    SyncRun::Relation { synchronizer, unborn, run },
                    op,
                ),
                Step::Done(r) => follows(
                    |h: Seq<Reply>| relation_known(
                        synchronizer@,
                        unborn,
                        Outcome::Done(attempt(r), h),
                    ),
                    next,
                ),
            },
    {
        match step {
            Step::Ask(run, op) => Step::Ask(SyncRun::Relation { synchronizer, unborn, run }, op),
            Step::Done(Err(e)) => Step::Done((Err(e), synchronizer)),
            Step::Done(Ok(state)) => match state {
                SyncState::Equal => Self::verdict(synchronizer, SyncStateRun::start()),
                SyncState::Ahead(_) => {
                    let step = RemoteRun::push(&synchronizer.config);
                    Self::push(synchronizer, step)
                },
                SyncState::Behind(_) => Self::forward(synchronizer, ForwardRun::start()),
                SyncState::Diverged { .. } => {
                    let step = RebaseRun::start(synchronizer.config.copy());
                    Self::rebase(synchronizer, step)
                },
                SyncState::NoUpstream => Self::publish(synchronizer, unborn, BranchRun::start()),
            },
        }
    }

    fn push(
        synchronizer: RepositorySynchronizer,
        step: Step<RemoteRun, Result<(), SyncError>>,
    ) -> (next: Step<SyncRun, Synced<String>>)
        ensures
            match step {
                Step::Ask(run, op) => asks(next, SyncRun::Push { synchronizer, run }, op),
                Step::Done(r) => follows(
                    |h: Seq<Reply>| transferred(synchronizer@, Outcome::Done(attempt(r), h)),
                    next,
                ),
            },
    {
        match step {
            Step::Ask(run, op) => Step::Ask(SyncRun::Push { synchronizer, run }, op),
            Step::Done(Err(e)) => Step::Done((Err(e), synchronizer)),
            Step::Done(Ok(_)) => Self::verdict(synchronizer, SyncStateRun::start()),
        }
    }

    fn forward(
        synchronizer: RepositorySynchronizer,
        step: Step<ForwardRun, Result<(), SyncError>>,
    ) -> (next: Step<SyncRun, Synced<String>>)
        ensures
            match step {
                Step::Ask(run, op) => asks(next, SyncRun::Forward { synchronizer, run }, op),
                Step::Done(r) => follows(
                    |h: Seq<Reply>| transferred(synchronizer@, Outcome::Done(attempt(r), h)),
                    next,
                ),
            },
    {
        match step {
            Step::Ask(run, op) => Step::Ask(SyncRun::Forward { synchronizer, run }, op),
            Step::Done(Err(e)) => Step::Done((Err(e), synchronizer)),
            Step::Done(Ok(_)) => Self::verdict(synchronizer, SyncStateRun::start()),
        }
    }

    fn rebase(
        synchronizer: RepositorySynchronizer,
        step: Step<RebaseRun, Result<(), SyncError>>,
    ) -> (next: Step<SyncRun, Synced<String>>)
        ensures
            match step {
                Step::Ask(run, op) => asks(next, SyncRun::Rebase { synchronizer, run }, op),
                Step::Done(r) => follows(
                    |h: Seq<Reply>| rebased(synchronizer@, Outcome::Done(attempt(r), h)),
                    next,
                ),
            },
    {
        match step {
            Step::Ask(run, op) => Step::Ask(SyncRun::Rebase { synchronizer, run }, op),
            Step::Done(Err(e)) => Step::Done((Err(e), synchronizer)),
            Step::Done(Ok(_)) => Self::rebased(synchronizer, BranchRun::start()),
        }
    }

    fn rebased(
        synchronizer: RepositorySynchronizer,
        step: Step<BranchRun, Result<CurrentBranch, SyncError>>,
    ) -> (next: Step<SyncRun, Synced<String>>)
        ensures
            match step {
                Step::Ask(run, op) => asks(next, SyncRun::Rebased { synchronizer, run }, op),
                Step::Done(r) => follows(
                    |h: Seq<Reply>| rebased_branch(
                        synchronizer@,
                        Outcome::Done(attempt_branch(r), h),
                    ),
                    next,
                ),
            },
    {
        match step {
            Step::Ask(run, op) => Step::Ask(SyncRun::Rebased { synchronizer, run }, op),
            Step::Done(Err(e)) => Step::Done((Err(e), synchronizer)),
            Step::Done(Ok(branch)) => {
                let synchronizer: RepositorySynchronizer = synchronizer.moved_to(branch.name);
                let step = RemoteRun::push(&synchronizer.config);
                Self::push(synchronizer, step)
            },
        }
    }

    fn publish(
        synchronizer: RepositorySynchronizer,
        unborn: bool,
        step: Step<BranchRun, Result<CurrentBranch, SyncError>>,
    ) -> (next: Step<SyncRun, Synced<String>>)
        ensures
            match step {
                Step::Ask(run, op) => asks(
                    next,
                    SyncRun::Publish { synchronizer, unborn, run },
                    op,
                ),
                Step::Done(r) => follows(
                    |h: Seq<Reply>| publish(
                        synchronizer@,
                        unborn,
                        Outcome::Done(attempt_branch(r), h),
                    ),
                    next,
                ),
            },
    {
        match step {
            Step::Ask(run, op) => Step::Ask(SyncRun::Publish { synchronizer, unborn, run }, op),
            Step::Done(Err(e)) => Step::Done((Err(e), synchronizer)),
            Step::Done(Ok(branch)) => if unborn || is_fallback_mode(
                branch.name.as_str(),
                &synchronizer.config.target_branch,
            ) {
                let step = RemoteRun::push_upstream(&synchronizer.config, branch.name.as_str());
                Self::push(synchronizer, step)
            } else {
                let branch: String = synchronizer.config.branch_name.clone();
                Step::Done((Err(SyncError::NoRemoteConfigured { branch }), synchronizer))
            },
        }
    }

    fn verdict(
        synchronizer: RepositorySynchronizer,
        step: Step<SyncStateRun, Result<SyncState, SyncError>>,
    ) -> (next: Step<SyncRun, Synced<String>>)
        ensures
            match step {
                Step::Ask(run, op) => asks(next, SyncRun::Verdict { synchronizer, run }, op),
                Step::Done(r) => follows(
                    |h: Seq<Reply>| verdict(synchronizer@, Outcome::Done(attempt(r), h)),
                    next,
                ),
            },
    {
        match step {
            Step::Ask(run, op) => Step::Ask(SyncRun::Verdict { synchronizer, run }, op),
            Step::Done(Err(e)) => Step::Done((Err(e), synchronizer)),
            Step::Done(Ok(state)) => match state {
                SyncState::Equal | SyncState::NoUpstream => Step::Done((Ok(()), synchronizer)),
                _ => Step::Done(
                    (
                        Err(
                            SyncError::Other(
                                "Sync completed but repository is not in sync".to_string(),
                            ),
                        ),
                        synchronizer,
                    ),
                ),
            },
        }
    }
}

impl Scripted for SyncRun {
    type Output = Synced<String>;

    type Outline = Synced<Seq<char>>;

    open spec fn outline(output: Self::Output) -> Self::Outline {
        synced_view(output)
    }

    closed spec fn script(self, h: Seq<Reply>) -> Outcome<Self::Outline> {
        match self {
            SyncRun::State { synchronizer, check_only, run } => state_checked(
                synchronizer@,
                check_only,
                run.script(h),
            ),
            SyncRun::Files { synchronizer, check_only, run } => files_checked(
                synchronizer@,
                check_only,
                run.script(h),
            ),
            SyncRun::Branch { synchronizer, run } => branch_known(synchronizer@, run.script(h)),
            SyncRun::Fetch { synchronizer, unborn, run } => fetch_done(
                synchronizer@,
                unborn,
                run.script(h),
            ),
            SyncRun::Return { unborn, run } => return_done(unborn, run.script(h)),
            SyncRun::Changes { synchronizer, unborn, run } => changes_known(
                synchronizer@,
                unborn,
                run.script(h),
            ),
            SyncRun::Commit { synchronizer, unborn, run } => commit_done(
                synchronizer@,
                unborn,
                run.script(h),
            ),
            SyncRun::Relation { synchronizer, unborn, run } => relation_known(
                synchronizer@,
                unborn,
                run.script(h),
            ),
            SyncRun::Push { synchronizer, run } => transferred(synchronizer@, run.script(h)),
            SyncRun::Forward { synchronizer, run } => transferred(synchronizer@, run.script(h)),
            SyncRun::Rebase { synchronizer, run } => rebased(synchronizer@, run.script(h)),
            SyncRun::Rebased { synchronizer, run } => rebased_branch(synchronizer@, run.script(h)),
            SyncRun::Publish { synchronizer, unborn, run } => publish(
                synchronizer@,
                unborn,
                run.script(h),
            ),
            SyncRun::Verdict { synchronizer, run } => verdict(synchronizer@, run.script(h)),
        }
    }
}

impl Procedure for SyncRun {
    fn resume(self, reply: Reply) -> (next: Step<Self, Self::Output>) {
        broadcast use lemma_first_reply;

        match self {
            SyncRun::State { synchronizer, check_only, run } => Self::state(
                synchronizer,
                check_only,
                run.resume(reply),
            ),
            SyncRun::Files { synchronizer, check_only, run } => Self::files(
                synchronizer,
                check_only,
                run.resume(reply),
            ),
            SyncRun::Branch { synchronizer, run } => Self::branch(synchronizer, run.resume(reply)),
            SyncRun::Fetch { synchronizer, unborn, run } => Self::fetch(
                synchronizer,
                unborn,
                run.resume(reply),
            ),
            SyncRun::Return { unborn, run } => Self::comeback(unborn, run.resume(reply)),
            SyncRun::Changes { synchronizer, unborn, run } => Self::changes(
                synchronizer,
                unborn,
                run.resume(reply),
            ),
            SyncRun::Commit { synchronizer, unborn, run } => Self::commit(
                synchronizer,
                unborn,
                run.resume(reply),
            ),
            SyncRun::Relation { synchronizer, unborn, run } => Self::relation(
                synchronizer,
                unborn,
                run.resume(reply),
            ),
            SyncRun::Push { synchronizer, run } => Self::push(synchronizer, run.resume(reply)),
            SyncRun::Forward { synchronizer, run } => Self::forward(
                synchronizer,
                run.resume(reply),
            ),
            SyncRun::Rebase { synchronizer, run } => Self::rebase(synchronizer, run.resume(reply)),
            SyncRun::Rebased { synchronizer, run } => Self::rebased(
                synchronizer,
                run.resume(reply),
            ),
            SyncRun::Publish { synchronizer, unborn, run } => Self::publish(
                synchronizer,
                unborn,
                run.resume(reply),
            ),
            SyncRun::Verdict { synchronizer, run } => Self::verdict(
                synchronizer,
                run.resume(reply),
            ),
        }
    }
}

} // verus!
