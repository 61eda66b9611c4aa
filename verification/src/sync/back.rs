//! Returning from a fallback branch to the branch that the repository should be on.

use crate::error::{GitError, SyncError};
use crate::sync::RepositorySynchronizer;
use crate::sync::branch::{attempt_branch, current_branch_script, BranchRun, CurrentBranch};
use crate::sync::create::{in_fallback_mode, is_fallback_mode};
use crate::sync::forward::{branch_ref, branch_reference};
use crate::sync::mergeable::{can_merge_script, remote_ref, remote_reference, MergeableRun};
use crate::sync::replay::{replay_script, ReplayRun};
use crate::sync::step::{
    asks, attempt, attempt_text, follows, lemma_first_reply, misfit, misfit_error, Attempt, GitOp,
    Outcome, Procedure, Reply, Scripted, Step,
};
use crate::sync::target::{target_branch_script, DefaultBranchRun};
use crate::text;
use vstd::pervasive::unreached;
use vstd::prelude::*;
use vstd::string::*;

verus! {

/// The synchronizer of a repository as scripts state it.
pub type Model = RepositorySynchronizer<Seq<char>>;

/// The synchronizer once another branch is checked out.
pub open spec fn with_branch(s: Model, branch: Seq<char>) -> Model {
    RepositorySynchronizer {
        config: crate::sync::SyncConfig { branch_name: branch, ..s.config },
        ..s
    }
}

/// The synchronizer that remembers, or has forgotten, where the target branch was when returning
/// to it was last found to be impossible.
pub open spec fn remembering(s: Model, oid: Option<Seq<char>>) -> Model {
    RepositorySynchronizer {
        fallback_state: crate::sync::FallbackState { last_checked_target_oid: oid },
        ..s
    }
}

/// Whether the branch that the repository should be on was returned to, and the synchronizer
/// from then on.
pub type Return<S> = (Result<bool, SyncError<S>>, RepositorySynchronizer<S>);

pub open spec fn return_view(r: Return<String>) -> Return<Seq<char>> {
    (attempt(r.0), r.1@)
}

/// The end of an attempt that failed, or for which there is nothing to do.
pub open spec fn returned(r: Attempt<bool>, s: Model, rest: Seq<Reply>) -> Outcome<
    Return<Seq<char>>,
> {
    Outcome::Done((r, s), rest)
}

/// A return for which nothing stands in the way: from the branch `current` to the branch
/// `target`.
#[derive(Debug)]
pub struct Journey<S = String> {
    pub synchronizer: RepositorySynchronizer<S>,
    pub target: S,
    pub current: S,
    /// Whether the current branch has commits to take along
    pub luggage: bool,
}

impl View for Journey {
    type V = Journey<Seq<char>>;

    open spec fn view(&self) -> Journey<Seq<char>> {
        Journey {
            synchronizer: self.synchronizer@,
            target: self.target@,
            current: self.current@,
            luggage: self.luggage,
        }
    }
}

/// Returns from a fallback branch to the branch that the repository should be on, where that can
/// be merged without conflicts, and takes the commits of the fallback branch along. Where it
/// cannot, nothing is tried again until the branch has moved on the remote; where it can, but the
/// commits conflict one by one, it is tried again the next time. The working tree becomes that of
/// the branch: nothing is asked about changes that are not committed.
#[verifier::opaque]
pub open spec fn return_script(s: Model, h: Seq<Reply>) -> Outcome<Return<Seq<char>>> {
    return_from(s, current_branch_script(h))
}

pub open spec fn return_from(
    s: Model,
    o: Outcome<Attempt<CurrentBranch<Seq<char>>>>,
) -> Outcome<Return<Seq<char>>> {
    match o {
        Outcome::Ask(op) => Outcome::Ask(op),
        Outcome::Done(Err(e), rest) => returned(Err(e), s, rest),
        Outcome::Done(Ok(branch), rest) => if in_fallback_mode(
            branch.name,
            s.config.target_branch,
        ) {
            return_to(s, branch.name, target_branch_script(s.config.target_branch, rest))
        } else {
            returned(Ok(false), s, rest)
        },
    }
}

pub open spec fn return_to(s: Model, from: Seq<char>, o: Outcome<Attempt<Seq<char>>>) -> Outcome<
    Return<Seq<char>>,
> {
    match o {
        Outcome::Ask(op) => Outcome::Ask(op),
        Outcome::Done(Err(e), rest) => returned(Err(e), s, rest),
        Outcome::Done(Ok(target), rest) => if target == from {
            returned(Ok(false), s, rest)
        } else {
            return_oid_script(s, target, rest)
        },
    }
}

pub open spec fn return_oid_script(s: Model, target: Seq<char>, h: Seq<Reply>) -> Outcome<
    Return<Seq<char>>,
> {
    if h.len() == 0 {
        Outcome::Ask(GitOp::ReferenceOid { name: remote_ref(s.config.remote_name, target) })
    } else {
        match h[0] {
            Reply::Maybe(Ok(Some(oid))) => if s.fallback_state.last_checked_target_oid == Some(
                oid@,
            ) {
                returned(Ok(false), s, h.skip(1))
            } else {
                return_check(
                    s,
                    target,
                    oid@,
                    can_merge_script(s.config.remote_name, target, h.skip(1)),
                )
            },
            Reply::Maybe(_) => returned(Ok(false), s, h.skip(1)),
            _ => returned(Err(misfit()), s, h.skip(1)),
        }
    }
}

pub open spec fn return_check(
    s: Model,
    target: Seq<char>,
    oid: Seq<char>,
    o: Outcome<Attempt<bool>>,
) -> Outcome<Return<Seq<char>>> {
    match o {
        Outcome::Ask(op) => Outcome::Ask(op),
        Outcome::Done(Err(e), rest) => returned(Err(e), s, rest),
        Outcome::Done(Ok(mergeable), rest) => if mergeable {
            return_branch(s, target, oid, current_branch_script(rest))
        } else {
            returned(Ok(false), remembering(s, Some(oid)), rest)
        },
    }
}

pub open spec fn return_branch(
    s: Model,
    target: Seq<char>,
    oid: Seq<char>,
    o: Outcome<Attempt<CurrentBranch<Seq<char>>>>,
) -> Outcome<Return<Seq<char>>> {
    match o {
        Outcome::Ask(op) => Outcome::Ask(op),
        Outcome::Done(Err(e), rest) => returned(Err(e), s, rest),
        Outcome::Done(Ok(branch), rest) => return_head_script(s, target, oid, branch.name, rest),
    }
}

pub open spec fn return_head_script(
    s: Model,
    target: Seq<char>,
    oid: Seq<char>,
    current: Seq<char>,
    h: Seq<Reply>,
) -> Outcome<Return<Seq<char>>> {
    if h.len() == 0 {
        Outcome::Ask(GitOp::HeadOid)
    } else {
        match h[0] {
            Reply::Maybe(Ok(Some(head))) => return_base_script(
                s,
                target,
                oid,
                current,
                head@,
                h.skip(1),
            ),
            Reply::Maybe(Ok(None)) => returned(
                Err(SyncError::Other("Current HEAD has no OID"@)),
                s,
                h.skip(1),
            ),
            Reply::Maybe(Err(e)) => returned(Err(SyncError::GitError(e@)), s, h.skip(1)),
            _ => returned(Err(misfit()), s, h.skip(1)),
        }
    }
}

pub open spec fn return_base_script(
    s: Model,
    target: Seq<char>,
    oid: Seq<char>,
    current: Seq<char>,
    head: Seq<char>,
    h: Seq<Reply>,
) -> Outcome<Return<Seq<char>>> {
    if h.len() == 0 {
        Outcome::Ask(GitOp::MergeBase { one: head, two: oid })
    } else {
        match h[0] {
            Reply::Text(Ok(base)) => return_count_script(
                s,
                target,
                oid,
                current,
                head,
                base@,
                h.skip(1),
            ),
            Reply::Text(Err(e)) => returned(Err(SyncError::GitError(e@)), s, h.skip(1)),
            _ => returned(Err(misfit()), s, h.skip(1)),
        }
    }
}

pub open spec fn return_count_script(
    s: Model,
    target: Seq<char>,
    oid: Seq<char>,
    current: Seq<char>,
    head: Seq<char>,
    base: Seq<char>,
    h: Seq<Reply>,
) -> Outcome<Return<Seq<char>>> {
    if h.len() == 0 {
        Outcome::Ask(GitOp::AheadBehind { local: head, upstream: base })
    } else {
        match h[0] {
            Reply::Counts(Ok((ahead, _))) => return_remote_script(
                Journey { synchronizer: s, target, current, luggage: ahead > 0 },
                h.skip(1),
            ),
            Reply::Counts(Err(e)) => returned(Err(SyncError::GitError(e@)), s, h.skip(1)),
            _ => returned(Err(misfit()), s, h.skip(1)),
        }
    }
}

pub open spec fn return_remote_script(j: Journey<Seq<char>>, h: Seq<Reply>) -> Outcome<
    Return<Seq<char>>,
> {
    let s = j.synchronizer;
    if h.len() == 0 {
        Outcome::Ask(GitOp::ReferenceOid { name: remote_ref(s.config.remote_name, j.target) })
    } else {
        match h[0] {
            Reply::Maybe(Ok(Some(oid))) => return_exists_script(j, oid@, h.skip(1)),
            Reply::Maybe(Ok(None)) => returned(
                Err(SyncError::Other("Remote target has no OID"@)),
                s,
                h.skip(1),
            ),
            Reply::Maybe(Err(e)) => returned(Err(SyncError::GitError(e@)), s, h.skip(1)),
            _ => returned(Err(misfit()), s, h.skip(1)),
        }
    }
}

pub open spec fn return_exists_script(
    j: Journey<Seq<char>>,
    oid: Seq<char>,
    h: Seq<Reply>,
) -> Outcome<Return<Seq<char>>> {
    if h.len() == 0 {
        Outcome::Ask(GitOp::ReferenceExists { name: branch_ref(j.target) })
    } else {
        match h[0] {
            Reply::Flag(found) => return_place_script(
                j,
                placement(j.target, oid, found == Ok::<bool, GitError>(true)),
                h.skip(1),
            ),
            _ => returned(Err(misfit()), j.synchronizer, h.skip(1)),
        }
    }
}

/// The operation that makes the local branch `target` point at `oid`, where it exists and where
/// it does not.
pub open spec fn placement(target: Seq<char>, oid: Seq<char>, exists_here: bool) -> GitOp<
    Seq<char>,
> {
    if exists_here {
        GitOp::ForceReference {
            name: branch_ref(target),
            oid,
            message: "git-sync: updating target branch before return"@,
        }
    } else {
        GitOp::CreateBranch { branch: target, oid }
    }
}

pub open spec fn return_place_script(
    j: Journey<Seq<char>>,
    op: GitOp<Seq<char>>,
    h: Seq<Reply>,
) -> Outcome<Return<Seq<char>>> {
    if h.len() == 0 {
        Outcome::Ask(op)
    } else {
        match h[0] {
            Reply::Done(Ok(_)) => return_switch_script(j, h.skip(1)),
            Reply::Done(Err(e)) => returned(
                Err(SyncError::GitError(e@)),
                j.synchronizer,
                h.skip(1),
            ),
            _ => returned(Err(misfit()), j.synchronizer, h.skip(1)),
        }
    }
}

pub open spec fn return_switch_script(j: Journey<Seq<char>>, h: Seq<Reply>) -> Outcome<
    Return<Seq<char>>,
> {
    if h.len() == 0 {
        Outcome::Ask(GitOp::SetHead { name: branch_ref(j.target) })
    } else {
        match h[0] {
            Reply::Done(Ok(_)) => return_checkout_script(j, h.skip(1)),
            Reply::Done(Err(e)) => returned(
                Err(SyncError::GitError(e@)),
                j.synchronizer,
                h.skip(1),
            ),
            _ => returned(Err(misfit()), j.synchronizer, h.skip(1)),
        }
    }
}

/// The synchronizer once the branch that it should be on is checked out.
pub open spec fn on_target(j: Journey<Seq<char>>) -> Model {
    with_branch(j.synchronizer, j.target)
}

pub open spec fn return_checkout_script(j: Journey<Seq<char>>, h: Seq<Reply>) -> Outcome<
    Return<Seq<char>>,
> {
    if h.len() == 0 {
        Outcome::Ask(GitOp::CheckoutHead)
    } else {
        match h[0] {
            Reply::Done(Ok(_)) => if j.luggage {
                return_begin_script(j, h.skip(1))
            } else {
                returned(Ok(true), remembering(on_target(j), None), h.skip(1))
            },
            Reply::Done(Err(e)) => returned(
                Err(SyncError::GitError(e@)),
                j.synchronizer,
                h.skip(1),
            ),
            _ => returned(Err(misfit()), j.synchronizer, h.skip(1)),
        }
    }
}

pub open spec fn return_begin_script(j: Journey<Seq<char>>, h: Seq<Reply>) -> Outcome<
    Return<Seq<char>>,
> {
    if h.len() == 0 {
        Outcome::Ask(
            GitOp::StartRebase { branch: branch_ref(j.current), onto: branch_ref(j.target) },
        )
    } else {
        match h[0] {
            Reply::Done(Ok(_)) => return_replayed(j, replay_script(h.skip(1))),
            Reply::Done(Err(e)) => returned(Err(SyncError::GitError(e@)), on_target(j), h.skip(1)),
            _ => returned(Err(misfit()), on_target(j), h.skip(1)),
        }
    }
}

pub open spec fn return_replayed(j: Journey<Seq<char>>, o: Outcome<Attempt<bool>>) -> Outcome<
    Return<Seq<char>>,
> {
    match o {
        Outcome::Ask(op) => Outcome::Ask(op),
        Outcome::Done(Err(e), rest) => returned(Err(e), on_target(j), rest),
        Outcome::Done(Ok(completed), rest) => if completed {
            land_script(j, rest)
        } else {
            turn_back_script(j, rest)
        },
    }
}

/// Makes the target branch end with the commits that were taken along, and checks it out.
pub open spec fn land_script(j: Journey<Seq<char>>, h: Seq<Reply>) -> Outcome<Return<Seq<char>>> {
    if h.len() == 0 {
        Outcome::Ask(GitOp::HeadCommit)
    } else {
        match h[0] {
            Reply::Text(Ok(oid)) => land_move_script(j, oid@, h.skip(1)),
            Reply::Text(Err(e)) => returned(Err(SyncError::GitError(e@)), on_target(j), h.skip(1)),
            _ => returned(Err(misfit()), on_target(j), h.skip(1)),
        }
    }
}

pub open spec fn land_move_script(
    j: Journey<Seq<char>>,
    oid: Seq<char>,
    h: Seq<Reply>,
) -> Outcome<Return<Seq<char>>> {
    if h.len() == 0 {
        Outcome::Ask(
            GitOp::ForceReference {
                name: branch_ref(j.target),
                oid,
                message: "git-sync: taking commits along to target branch"@,
            },
        )
    } else {
        match h[0] {
            Reply::Done(Ok(_)) => land_switch_script(j, h.skip(1)),
            Reply::Done(Err(e)) => returned(Err(SyncError::GitError(e@)), on_target(j), h.skip(1)),
            _ => returned(Err(misfit()), on_target(j), h.skip(1)),
        }
    }
}

pub open spec fn land_switch_script(j: Journey<Seq<char>>, h: Seq<Reply>) -> Outcome<
    Return<Seq<char>>,
> {
    if h.len() == 0 {
        Outcome::Ask(GitOp::SetHead { name: branch_ref(j.target) })
    } else {
        match h[0] {
            Reply::Done(Ok(_)) => land_checkout_script(j, h.skip(1)),
            Reply::Done(Err(e)) => returned(Err(SyncError::GitError(e@)), on_target(j), h.skip(1)),
            _ => returned(Err(misfit()), on_target(j), h.skip(1)),
        }
    }
}

pub open spec fn land_checkout_script(j: Journey<Seq<char>>, h: Seq<Reply>) -> Outcome<
    Return<Seq<char>>,
> {
    if h.len() == 0 {
        Outcome::Ask(GitOp::CheckoutHead)
    } else {
        match h[0] {
            Reply::Done(Ok(_)) => returned(
                Ok(true),
                remembering(on_target(j), None),
                h.skip(1),
            ),
            Reply::Done(Err(e)) => returned(Err(SyncError::GitError(e@)), on_target(j), h.skip(1)),
            _ => returned(Err(misfit()), on_target(j), h.skip(1)),
        }
    }
}

pub open spec fn turn_back_script(j: Journey<Seq<char>>, h: Seq<Reply>) -> Outcome<
    Return<Seq<char>>,
> {
    if h.len() == 0 {
        Outcome::Ask(GitOp::SetHead { name: branch_ref(j.current) })
    } else {
        match h[0] {
            Reply::Done(Ok(_)) => turned_back_script(j, h.skip(1)),
            Reply::Done(Err(e)) => returned(Err(SyncError::GitError(e@)), on_target(j), h.skip(1)),
            _ => returned(Err(misfit()), on_target(j), h.skip(1)),
        }
    }
}

pub open spec fn turned_back_script(j: Journey<Seq<char>>, h: Seq<Reply>) -> Outcome<
    Return<Seq<char>>,
> {
    if h.len() == 0 {
        Outcome::Ask(GitOp::CheckoutHead)
    } else {
        match h[0] {
            Reply::Done(Ok(_)) => returned(
                Ok(false),
                with_branch(j.synchronizer, j.current),
                h.skip(1),
            ),
            Reply::Done(Err(e)) => returned(Err(SyncError::GitError(e@)), on_target(j), h.skip(1)),
            _ => returned(Err(misfit()), on_target(j), h.skip(1)),
        }
    }
}

/// A return that is under way.
#[allow(inconsistent_fields)]
#[derive(Debug)]
pub enum ReturnRun {
    From { synchronizer: RepositorySynchronizer, run: BranchRun },
    To { synchronizer: RepositorySynchronizer, from: String, run: DefaultBranchRun },
    Oid { synchronizer: RepositorySynchronizer, target: String },
    Check {
        synchronizer: RepositorySynchronizer,
        target: String,
        oid: String,
        run: MergeableRun,
    },
    Branch { synchronizer: RepositorySynchronizer, target: String, oid: String, run: BranchRun },
    Head { synchronizer: RepositorySynchronizer, target: String, oid: String, current: String },
    Base {
        synchronizer: RepositorySynchronizer,
        target: String,
        oid: String,
        current: String,
        head: String,
    },
    Count {
        synchronizer: RepositorySynchronizer,
        target: String,
        oid: String,
        current: String,
        head: String,
        base: String,
    },
    Remote(Journey),
    Exists { journey: Journey, oid: String },
    Place { journey: Journey, oid: String, exists_here: bool },
    Switch(Journey),
    Checkout(Journey),
    Begin(Journey),
    Replay { journey: Journey, run: ReplayRun },
    Land(Journey),
    LandMove { journey: Journey, oid: String },
    LandSwitch(Journey),
    LandCheckout(Journey),
    TurnBack(Journey),
    TurnedBack(Journey),
}

impl ReturnRun {
    /// Returns to the branch that the repository should be on, where it is on a fallback branch
    /// and nothing stands in the way.
    pub fn start(synchronizer: RepositorySynchronizer) -> (step: Step<ReturnRun, Return<String>>)
        ensures
            follows(|h: Seq<Reply>| return_script(synchronizer@, h), step),
            step is Ask,
    {
        proof {
            reveal(return_script);
        }
        Self::from(synchronizer, BranchRun::start())
    }

    fn from(
        synchronizer: RepositorySynchronizer,
        step: Step<BranchRun, Result<CurrentBranch, SyncError>>,
    ) -> (next: Step<ReturnRun, Return<String>>)
        ensures
            match step {
                Step::Ask(run, op) => asks(next, ReturnRun::From { synchronizer, run }, op),
                Step::Done(r) => follows(
                    |h: Seq<Reply>| return_from(
                        synchronizer@,
                        Outcome::Done(attempt_branch(r), h),
                    ),
                    next,
                ),
            },
    {
        match step {
            Step::Ask(run, op) => Step::Ask(ReturnRun::From { synchronizer, run }, op),
            Step::Done(Err(e)) => Step::Done((Err(e), synchronizer)),
            Step::Done(Ok(branch)) => if is_fallback_mode(
                branch.name.as_str(),
                &synchronizer.config.target_branch,
            ) {
                let step = DefaultBranchRun::start_target(&synchronizer.config.target_branch);
                Self::to(synchronizer, branch.name, step)
            } else {
                Step::Done((Ok(false), synchronizer))
            },
        }
    }

    fn to(
        synchronizer: RepositorySynchronizer,
        from: String,
        step: Step<DefaultBranchRun, Result<String, SyncError>>,
    ) -> (next: Step<ReturnRun, Return<String>>)
        ensures
            match step {
                Step::Ask(run, op) => asks(next, ReturnRun::To { synchronizer, from, run }, op),
                Step::Done(r) => follows(
                    |h: Seq<Reply>| return_to(
                        synchronizer@,
                        from@,
                        Outcome::Done(attempt_text(r), h),
                    ),
                    next,
                ),
            },
    {
        match step {
            Step::Ask(run, op) => Step::Ask(ReturnRun::To { synchronizer, from, run }, op),
            Step::Done(Err(e)) => Step::Done((Err(e), synchronizer)),
            Step::Done(Ok(target)) => if text::same_text(target.as_str(), from.as_str()) {
                Step::Done((Ok(false), synchronizer))
            } else {
                let op: GitOp = GitOp::ReferenceOid {
                    name: remote_reference(
                        synchronizer.config.remote_name.as_str(),
                        target.as_str(),
                    ),
                };
                Step::Ask(ReturnRun::Oid { synchronizer, target }, op)
            },
        }
    }

    fn check(
        synchronizer: RepositorySynchronizer,
        target: String,
        oid: String,
        step: Step<MergeableRun, Result<bool, SyncError>>,
    ) -> (next: Step<ReturnRun, Return<String>>)
        ensures
            match step {
                Step::Ask(run, op) => asks(
                    next,
                    ReturnRun::Check { synchronizer, target, oid, run },
                    op,
                ),
                Step::Done(r) => follows(
                    |h: Seq<Reply>| return_check(
                        synchronizer@,
                        target@,
                        oid@,
                        Outcome::Done(attempt(r), h),
                    ),
                    next,
                ),
            },
    {
        match step {
            Step::Ask(run, op) => Step::Ask(
                ReturnRun::Check { synchronizer, target, oid, run },
                op,
            ),
            Step::Done(Err(e)) => Step::Done((Err(e), synchronizer)),
            Step::Done(Ok(mergeable)) => if mergeable {
                Self::branch(synchronizer, target, oid, BranchRun::start())
            } else {
                let mut synchronizer: RepositorySynchronizer = synchronizer;
                synchronizer.fallback_state.last_checked_target_oid = Some(oid);
                Step::Done((Ok(false), synchronizer))
            },
        }
    }

    fn branch(
        synchronizer: RepositorySynchronizer,
        target: String,
        oid: String,
        step: Step<BranchRun, Result<CurrentBranch, SyncError>>,
    ) -> (next: Step<ReturnRun, Return<String>>)
        ensures
            match step {
                Step::Ask(run, op) => asks(
                    next,
                    ReturnRun::Branch { synchronizer, target, oid, run },
                    op,
                ),
                Step::Done(r) => follows(
                    |h: Seq<Reply>| return_branch(
                        synchronizer@,
                        target@,
                        oid@,
                        Outcome::Done(attempt_branch(r), h),
                    ),
                    next,
                ),
            },
    {
        match step {
            Step::Ask(run, op) => Step::Ask(
                ReturnRun::Branch { synchronizer, target, oid, run },
                op,
            ),
            Step::Done(Err(e)) => Step::Done((Err(e), synchronizer)),
            Step::Done(Ok(branch)) => Step::Ask(
                ReturnRun::Head { synchronizer, target, oid, current: branch.name },
                GitOp::HeadOid,
            ),
        }
    }

    fn replay(journey: Journey, step: Step<ReplayRun, Result<bool, SyncError>>) -> (next: Step<
        ReturnRun,
        Return<String>,
    >)
        ensures
            match step {
                Step::Ask(run, op) => asks(next, ReturnRun::Replay { journey, run }, op),
                Step::Done(r) => follows(
                    |h: Seq<Reply>| return_replayed(journey@, Outcome::Done(attempt(r), h)),
                    next,
                ),
            },
    {
        match step {
            Step::Ask(run, op) => Step::Ask(ReturnRun::Replay { journey, run }, op),
            Step::Done(Err(e)) => Step::Done((Err(e), journey.arrived())),
            Step::Done(Ok(completed)) => if completed {
                Step::Ask(ReturnRun::Land(journey), GitOp::HeadCommit)
            } else {
                let op: GitOp = GitOp::SetHead { name: branch_reference(journey.current.as_str()) };
                Step::Ask(ReturnRun::TurnBack(journey), op)
            },
        }
    }

    /// Goes on with the reply to an operation that is asked for before anything is changed.
    fn resume_search(self, reply: Reply) -> (next: Step<ReturnRun, Return<String>>)
        requires
            self is Oid || self is Head || self is Base || self is Count,
        ensures
            follows(|later: Seq<Reply>| self.script(seq![reply] + later), next),
    {
        broadcast use lemma_first_reply;

        match self {
            ReturnRun::Oid { synchronizer, target } => match reply {
                Reply::Maybe(Ok(Some(oid))) => {
                    let known: bool = match &synchronizer.fallback_state.last_checked_target_oid {
                        Some(last) => text::same_text(last.as_str(), oid.as_str()),
                        None => false,
                    };
                    if known {
                        Step::Done((Ok(false), synchronizer))
                    } else {
                        let step = MergeableRun::start(&synchronizer.config, target.as_str());
                        Self::check(synchronizer, target, oid, step)
                    }
                },
                Reply::Maybe(_) => Step::Done((Ok(false), synchronizer)),
                _ => Step::Done((Err(misfit_error()), synchronizer)),
            },
            ReturnRun::Head { synchronizer, target, oid, current } => match reply {
                Reply::Maybe(Ok(Some(head))) => {
                    let op: GitOp = GitOp::MergeBase { one: head.clone(), two: oid.clone() };
                    Step::Ask(ReturnRun::Base { synchronizer, target, oid, current, head }, op)
                },
                Reply::Maybe(Ok(None)) => Step::Done(
                    (
                        Err(SyncError::Other("Current HEAD has no OID".to_string())),
                        synchronizer,
                    ),
                ),
                Reply::Maybe(Err(e)) => Step::Done((Err(SyncError::GitError(e)), synchronizer)),
                _ => Step::Done((Err(misfit_error()), synchronizer)),
            },
            ReturnRun::Base { synchronizer, target, oid, current, head } => match reply {
                Reply::Text(Ok(base)) => {
                    let op: GitOp = GitOp::AheadBehind {
                        local: head.clone(),
                        upstream: base.clone(),
                    };
                    Step::Ask(
                        ReturnRun::Count { synchronizer, target, oid, current, head, base },
                        op,
                    )
                },
                Reply::Text(Err(e)) => Step::Done((Err(SyncError::GitError(e)), synchronizer)),
                _ => Step::Done((Err(misfit_error()), synchronizer)),
            },
            ReturnRun::Count { synchronizer, target, oid, current, head, base } => match reply {
                Reply::Counts(Ok((ahead, _))) => {
                    let op: GitOp = GitOp::ReferenceOid {
                        name: remote_reference(
                            synchronizer.config.remote_name.as_str(),
                            target.as_str(),
                        ),
                    };
                    Step::Ask(
                        ReturnRun::Remote(
                            Journey {
                                synchronizer,
                                target,
                                current,
                                luggage: ahead > 0,
                            },
                        ),
                        op,
                    )
                },
                Reply::Counts(Err(e)) => Step::Done((Err(SyncError::GitError(e)), synchronizer)),
                _ => Step::Done((Err(misfit_error()), synchronizer)),
            },
            _ => unreached(),
        }
    }

    /// Goes on with the reply to an operation of the return itself.
    fn resume_journey(self, reply: Reply) -> (next: Step<ReturnRun, Return<String>>)
        requires
            self is Remote || self is Exists || self is Place || self is Switch || self is Checkout
                || self is Begin,
        ensures
            follows(|later: Seq<Reply>| self.script(seq![reply] + later), next),
    {
        broadcast use lemma_first_reply;

        match self {
            ReturnRun::Remote(journey) => match reply {
                Reply::Maybe(Ok(Some(oid))) => {
                    let op: GitOp = GitOp::ReferenceExists {
                        name: branch_reference(journey.target.as_str()),
                    };
                    Step::Ask(ReturnRun::Exists { journey, oid }, op)
                },
                Reply::Maybe(Ok(None)) => Step::Done(
                    (
                        Err(SyncError::Other("Remote target has no OID".to_string())),
                        journey.synchronizer,
                    ),
                ),
                Reply::Maybe(Err(e)) => Step::Done(
                    (Err(SyncError::GitError(e)), journey.synchronizer),
                ),
                _ => Step::Done((Err(misfit_error()), journey.synchronizer)),
            },
            ReturnRun::Exists { journey, oid } => match reply {
                Reply::Flag(found) => {
                    let exists_here: bool = match found {
                        Ok(found) => found,
                        Err(_) => false,
                    };
                    let op: GitOp = if exists_here {
                        GitOp::ForceReference {
                            name: branch_reference(journey.target.as_str()),
                            oid: oid.clone(),
                            message: "git-sync: updating target branch before return".to_string(),
                        }
                    } else {
                        GitOp::CreateBranch { branch: journey.target.clone(), oid: oid.clone() }
                    };
                    Step::Ask(ReturnRun::Place { journey, oid, exists_here }, op)
                },
                _ => Step::Done((Err(misfit_error()), journey.synchronizer)),
            },
            ReturnRun::Place { journey, .. } => match reply {
                Reply::Done(Ok(_)) => {
                    let op: GitOp = GitOp::SetHead {
                        name: branch_reference(journey.target.as_str()),
                    };
                    Step::Ask(ReturnRun::Switch(journey), op)
                },
                Reply::Done(Err(e)) => Step::Done(
                    (Err(SyncError::GitError(e)), journey.synchronizer),
                ),
                _ => Step::Done((Err(misfit_error()), journey.synchronizer)),
            },
            ReturnRun::Switch(journey) => match reply {
                Reply::Done(Ok(_)) => Step::Ask(ReturnRun::Checkout(journey), GitOp::CheckoutHead),
                Reply::Done(Err(e)) => Step::Done(
                    (Err(SyncError::GitError(e)), journey.synchronizer),
                ),
                _ => Step::Done((Err(misfit_error()), journey.synchronizer)),
            },
            ReturnRun::Checkout(journey) => match reply {
                Reply::Done(Ok(_)) => if journey.luggage {
                    let op: GitOp = GitOp::StartRebase {
                        branch: branch_reference(journey.current.as_str()),
                        onto: branch_reference(journey.target.as_str()),
                    };
                    Step::Ask(ReturnRun::Begin(journey), op)
                } else {
                    let mut synchronizer: RepositorySynchronizer = journey.arrived();
                    synchronizer.fallback_state.last_checked_target_oid = None;
                    Step::Done((Ok(true), synchronizer))
                },
                Reply::Done(Err(e)) => Step::Done(
                    (Err(SyncError::GitError(e)), journey.synchronizer),
                ),
                _ => Step::Done((Err(misfit_error()), journey.synchronizer)),
            },
            ReturnRun::Begin(journey) => match reply {
                Reply::Done(Ok(_)) => Self::replay(journey, ReplayRun::start()),
                Reply::Done(Err(e)) => Step::Done((Err(SyncError::GitError(e)), journey.arrived())),
                _ => Step::Done((Err(misfit_error()), journey.arrived())),
            },
            _ => unreached(),
        }
    }

    /// Goes on with the reply to an operation after the commits were taken along, or could not be.
    fn resume_end(self, reply: Reply) -> (next: Step<ReturnRun, Return<String>>)
        requires
            self is Land || self is LandMove || self is LandSwitch || self is LandCheckout
                || self is TurnBack || self is TurnedBack,
        ensures
            follows(|later: Seq<Reply>| self.script(seq![reply] + later), next),
    {
        broadcast use lemma_first_reply;

        match self {
            ReturnRun::Land(journey) => match reply {
                Reply::Text(Ok(oid)) => {
                    let op: GitOp = GitOp::ForceReference {
                        name: branch_reference(journey.target.as_str()),
                        oid: oid.clone(),
                        message: "git-sync: taking commits along to target branch".to_string(),
                    };
                    Step::Ask(ReturnRun::LandMove { journey, oid }, op)
                },
                Reply::Text(Err(e)) => Step::Done((Err(SyncError::GitError(e)), journey.arrived())),
                _ => Step::Done((Err(misfit_error()), journey.arrived())),
            },
            ReturnRun::LandMove { journey, .. } => match reply {
                Reply::Done(Ok(_)) => {
                    let op: GitOp = GitOp::SetHead {
                        name: branch_reference(journey.target.as_str()),
                    };
                    Step::Ask(ReturnRun::LandSwitch(journey), op)
                },
                Reply::Done(Err(e)) => Step::Done((Err(SyncError::GitError(e)), journey.arrived())),
                _ => Step::Done((Err(misfit_error()), journey.arrived())),
            },
            ReturnRun::LandSwitch(journey) => match reply {
                Reply::Done(Ok(_)) => Step::Ask(
                    ReturnRun::LandCheckout(journey),
                    GitOp::CheckoutHead,
                ),
                Reply::Done(Err(e)) => Step::Done((Err(SyncError::GitError(e)), journey.arrived())),
                _ => Step::Done((Err(misfit_error()), journey.arrived())),
            },
            ReturnRun::LandCheckout(journey) => match reply {
                Reply::Done(Ok(_)) => {
                    let mut synchronizer: RepositorySynchronizer = journey.arrived();
                    synchronizer.fallback_state.last_checked_target_oid = None;
                    Step::Done((Ok(true), synchronizer))
                },
                Reply::Done(Err(e)) => Step::Done((Err(SyncError::GitError(e)), journey.arrived())),
                _ => Step::Done((Err(misfit_error()), journey.arrived())),
            },
            ReturnRun::TurnBack(journey) => match reply {
                Reply::Done(Ok(_)) => Step::Ask(
                    ReturnRun::TurnedBack(journey),
                    GitOp::CheckoutHead,
                ),
                Reply::Done(Err(e)) => Step::Done((Err(SyncError::GitError(e)), journey.arrived())),
                _ => Step::Done((Err(misfit_error()), journey.arrived())),
            },
            ReturnRun::TurnedBack(journey) => match reply {
                Reply::Done(Ok(_)) => {
                    let mut synchronizer: RepositorySynchronizer = journey.synchronizer;
                    synchronizer.config.branch_name = journey.current;
                    Step::Done((Ok(false), synchronizer))
                },
                Reply::Done(Err(e)) => Step::Done((Err(SyncError::GitError(e)), journey.arrived())),
                _ => Step::Done((Err(misfit_error()), journey.arrived())),
            },
            _ => unreached(),
        }
    }
}

impl Journey {
    /// The synchronizer once the target branch is checked out.
    fn arrived(self) -> (synchronizer: RepositorySynchronizer)
        ensures
            synchronizer@ == on_target(self@),
    {
        let mut synchronizer: RepositorySynchronizer = self.synchronizer;
        synchronizer.config.branch_name = self.target;
        synchronizer
    }
}

impl Scripted for ReturnRun {
    type Output = Return<String>;

    type Outline = Return<Seq<char>>;

    open spec fn outline(output: Self::Output) -> Self::Outline {
        return_view(output)
    }

    closed spec fn script(self, h: Seq<Reply>) -> Outcome<Self::Outline> {
        match self {
            ReturnRun::From { synchronizer, run } => return_from(synchronizer@, run.script(h)),
            ReturnRun::To { synchronizer, from, run } => return_to(
                synchronizer@,
                from@,
                run.script(h),
            ),
            ReturnRun::Oid { synchronizer, target } => return_oid_script(
                synchronizer@,
                target@,
                h,
            ),
            ReturnRun::Check { synchronizer, target, oid, run } => return_check(
                synchronizer@,
                target@,
                oid@,
                run.script(h),
            ),
            ReturnRun::Branch { synchronizer, target, oid, run } => return_branch(
                synchronizer@,
                target@,
                oid@,
                run.script(h),
            ),
            ReturnRun::Head { synchronizer, target, oid, current } => return_head_script(
                synchronizer@,
                target@,
                oid@,
                current@,
                h,
            ),
            ReturnRun::Base { synchronizer, target, oid, current, head } => return_base_script(
                synchronizer@,
                target@,
                oid@,
                current@,
                head@,
                h,
            ),
            ReturnRun::Count { synchronizer, target, oid, current, head, base } => {
                return_count_script(
                    synchronizer@,
                    target@,
                    oid@,
                    current@,
                    head@,
                    base@,
                    h,
                )
            },
            ReturnRun::Remote(journey) => return_remote_script(journey@, h),
            ReturnRun::Exists { journey, oid } => return_exists_script(journey@, oid@, h),
            ReturnRun::Place { journey, oid, exists_here } => return_place_script(
                journey@,
                placement(journey.target@, oid@, exists_here),
                h,
            ),
            ReturnRun::Switch(journey) => return_switch_script(journey@, h),
            ReturnRun::Checkout(journey) => return_checkout_script(journey@, h),
            ReturnRun::Begin(journey) => return_begin_script(journey@, h),
            ReturnRun::Replay { journey, run } => return_replayed(journey@, run.script(h)),
            ReturnRun::Land(journey) => land_script(journey@, h),
            ReturnRun::LandMove { journey, oid } => land_move_script(journey@, oid@, h),
            ReturnRun::LandSwitch(journey) => land_switch_script(journey@, h),
            ReturnRun::LandCheckout(journey) => land_checkout_script(journey@, h),
            ReturnRun::TurnBack(journey) => turn_back_script(journey@, h),
            ReturnRun::TurnedBack(journey) => turned_back_script(journey@, h),
        }
    }
}

impl Procedure for ReturnRun {
    fn resume(self, reply: Reply) -> (next: Step<Self, Self::Output>) {
        match self {
            ReturnRun::From { synchronizer, run } => Self::from(synchronizer, run.resume(reply)),
            ReturnRun::To { synchronizer, from, run } => Self::to(
                synchronizer,
                from,
                run.resume(reply),
            ),
            ReturnRun::Check { synchronizer, target, oid, run } => Self::check(
                synchronizer,
                target,
                oid,
                run.resume(reply),
            ),
            ReturnRun::Branch { synchronizer, target, oid, run } => Self::branch(
                synchronizer,
                target,
                oid,
                run.resume(reply),
            ),
            ReturnRun::Replay { journey, run } => Self::replay(journey, run.resume(reply)),
            ReturnRun::Oid { .. } | ReturnRun::Head { .. } | ReturnRun::Base { .. }
            | ReturnRun::Count { .. } => self.resume_search(reply),
            ReturnRun::Land(_) | ReturnRun::LandMove { .. } | ReturnRun::LandSwitch(_)
            | ReturnRun::LandCheckout(_) | ReturnRun::TurnBack(_) | ReturnRun::TurnedBack(_) => {
                self.resume_end(reply)
            },
            _ => self.resume_journey(reply),
        }
    }
}

} // verus!
