//! What is asked about a repository, and what the answers mean.

use crate::error::{GitError, GitErrorCode, SyncError};
use crate::sync::branch::{current_branch_script, CurrentBranch};
use crate::sync::changes::local_changes_script;
use crate::sync::create::{in_fallback_mode, on_fallback_script};
use crate::sync::mergeable::can_merge_script;
use crate::sync::relation::{sync_state_script, SyncState};
use crate::sync::state::{repository_state_script, RepositoryState};
use crate::sync::step::{
    Attempt, GitOp, HeadInfo, Operation, Outcome, Reply, StatusEntry,
};
use crate::sync::target::{default_branch_script, target_branch_script};
use crate::sync::unhandled::{first_conflict, unhandled_files_script, UnhandledFileState};
use crate::text_laws::prefixes_are_what_comes_first;
use vstd::prelude::*;

verus! {

/// A reply, and those that come later.
pub open spec fn upon(reply: Reply, later: Seq<Reply>) -> Seq<Reply> {
    seq![reply] + later
}

pub broadcast proof fn lemma_upon(reply: Reply, later: Seq<Reply>)
    ensures
        #![trigger upon(reply, later)]
        upon(reply, later).len() > 0,
        upon(reply, later)[0] == reply,
        upon(reply, later).skip(1) == later,
{
    assert(upon(reply, later).skip(1) =~= later);
}

/// No reply yet.
pub open spec fn unanswered() -> Seq<Reply> {
    Seq::empty()
}

/// The reply where HEAD resolves to the given branch.
pub open spec fn on_branch(name: String) -> Reply {
    Reply::Head(Ok(HeadInfo { is_branch: true, shorthand: Some(name) }))
}

/// The branch that is checked out is the one that HEAD resolves to; where HEAD resolves to
/// anything else, none is, and where it fails, so does the question.
pub proof fn heads_name_branches(
    name: String,
    shorthand: Option<String>,
    e: GitError,
    later: Seq<Reply>,
)
    ensures
        current_branch_script(unanswered()) == Outcome::<Attempt<CurrentBranch<Seq<char>>>>::Ask(
            GitOp::Head,
        ),
        current_branch_script(upon(on_branch(name), later)) == Outcome::<
            Attempt<CurrentBranch<Seq<char>>>,
        >::Done(Ok(CurrentBranch { name: name@, unborn: false }), later),
        current_branch_script(
            upon(Reply::Head(Ok(HeadInfo { is_branch: false, shorthand })), later),
        ) == Outcome::<Attempt<CurrentBranch<Seq<char>>>>::Done(
            Err(SyncError::DetachedHead),
            later,
        ),
        current_branch_script(
            upon(Reply::Head(Ok(HeadInfo { is_branch: true, shorthand: None })), later),
        ) matches Outcome::Done(Err(SyncError::Other(_)), rest) && rest == later,
        e.code != GitErrorCode::UnbornBranch ==> current_branch_script(
            upon(Reply::Head(Err(e)), later),
        ) == Outcome::<Attempt<CurrentBranch<Seq<char>>>>::Done(
            Err(SyncError::GitError(e@)),
            later,
        ),
{
    broadcast use lemma_upon;

    reveal(current_branch_script);
}

/// A branch without commits is checked out where HEAD names its reference.
pub proof fn branches_without_commits_are_branches(
    e: GitError,
    reference: String,
    name: Seq<char>,
    other: GitError,
    later: Seq<Reply>,
)
    requires
        e.code == GitErrorCode::UnbornBranch,
        reference@ == "refs/heads/"@ + name,
    ensures
        current_branch_script(upon(Reply::Head(Err(e)), unanswered())) == Outcome::<
            Attempt<CurrentBranch<Seq<char>>>,
        >::Ask(GitOp::HeadSymbolicTarget),
        current_branch_script(
            upon(Reply::Head(Err(e)), upon(Reply::Maybe(Ok(Some(reference))), later)),
        ) == Outcome::<Attempt<CurrentBranch<Seq<char>>>>::Done(
            Ok(CurrentBranch { name, unborn: true }),
            later,
        ),
        current_branch_script(upon(Reply::Head(Err(e)), upon(Reply::Maybe(Ok(None)), later)))
            == Outcome::<Attempt<CurrentBranch<Seq<char>>>>::Done(
            Err(SyncError::GitError(e@)),
            later,
        ),
        current_branch_script(
            upon(Reply::Head(Err(e)), upon(Reply::Maybe(Err(other)), later)),
        ) == Outcome::<Attempt<CurrentBranch<Seq<char>>>>::Done(
            Err(SyncError::GitError(e@)),
            later,
        ),
{
    broadcast use lemma_upon;

    reveal(current_branch_script);
    prefixes_are_what_comes_first(reference@, "refs/heads/"@, name);
}

/// A detached HEAD is told first; what is in progress is told for what it is, and only where
/// nothing is in progress does it matter whether there is a file to report.
pub proof fn states_are_told_apart(
    operation: Operation,
    entries: Vec<StatusEntry>,
    e: GitError,
    later: Seq<Reply>,
)
    ensures
        repository_state_script(unanswered()) == Outcome::<Attempt<RepositoryState>>::Ask(
            GitOp::HeadDetached,
        ),
        repository_state_script(upon(Reply::Flag(Ok(true)), later)) == Outcome::<
            Attempt<RepositoryState>,
        >::Done(Ok(RepositoryState::DetachedHead), later),
        repository_state_script(upon(Reply::Flag(Err(e)), later)) == Outcome::<
            Attempt<RepositoryState>,
        >::Done(Err(SyncError::GitError(e@)), later),
        repository_state_script(upon(Reply::Flag(Ok(false)), unanswered())) == Outcome::<
            Attempt<RepositoryState>,
        >::Ask(GitOp::Operation),
        operation != Operation::Clean ==> (repository_state_script(
            upon(Reply::Flag(Ok(false)), upon(Reply::Operation(operation), later)),
        ) matches Outcome::Done(Ok(state), rest) && rest == later && (state
            == RepositoryState::Merging <==> operation == Operation::Merge) && (state
            == RepositoryState::Rebasing <==> operation == Operation::Rebase || operation
            == Operation::RebaseInteractive || operation == Operation::RebaseMerge) && (state
            == RepositoryState::CherryPicking <==> operation == Operation::CherryPick || operation
            == Operation::CherryPickSequence) && (state == RepositoryState::Reverting <==> operation
            == Operation::Revert || operation == Operation::RevertSequence) && (state
            == RepositoryState::Bisecting <==> operation == Operation::Bisect) && (state
            == RepositoryState::ApplyingPatches <==> operation == Operation::ApplyMailbox
            || operation == Operation::ApplyMailboxOrRebase) && state != RepositoryState::Clean
            && state != RepositoryState::Dirty && state != RepositoryState::DetachedHead),
        repository_state_script(
            upon(
                Reply::Flag(Ok(false)),
                upon(Reply::Operation(Operation::Clean), unanswered()),
            ),
        ) == Outcome::<Attempt<RepositoryState>>::Ask(GitOp::Statuses { untracked: true }),
        repository_state_script(
            upon(
                Reply::Flag(Ok(false)),
                upon(
                    Reply::Operation(Operation::Clean),
                    upon(Reply::Statuses(Ok(entries)), later),
                ),
            ),
        ) == Outcome::<Attempt<RepositoryState>>::Done(
            Ok(
                if entries@.len() > 0 {
                    RepositoryState::Dirty
                } else {
                    RepositoryState::Clean
                },
            ),
            later,
        ),
        repository_state_script(
            upon(
                Reply::Flag(Ok(false)),
                upon(Reply::Operation(Operation::Clean), upon(Reply::Statuses(Err(e)), later)),
            ),
        ) == Outcome::<Attempt<RepositoryState>>::Done(Err(SyncError::GitError(e@)), later),
{
    broadcast use lemma_upon;

    reveal(repository_state_script);
}

/// Whether the given bit is that of a change to a file that git knows: something new, modified,
/// deleted, renamed or of another type in the index, or something modified, deleted, of another
/// type or renamed in the working tree.
pub open spec fn tells_a_change(bit: u32) -> bool {
    bit == 1 || bit == 2 || bit == 4 || bit == 8 || bit == 16 || bit == 256 || bit == 512 || bit
        == 1024 || bit == 2048
}

/// Every change to a file that git knows is a local change, whatever else is said of the file or
/// of others, and whether or not new files are synced.
pub proof fn every_change_counts(
    new_files: bool,
    entries: Vec<StatusEntry>,
    i: int,
    bit: u32,
    later: Seq<Reply>,
)
    requires
        0 <= i < entries@.len(),
        tells_a_change(bit),
        entries@[i].flags & bit != 0,
    ensures
        local_changes_script(new_files, upon(Reply::Statuses(Ok(entries)), later)) == Outcome::<
            Attempt<bool>,
        >::Done(Ok(true), later),
{
    broadcast use lemma_upon;

    reveal(local_changes_script);
    let flags = entries@[i].flags;
    assert(flags & 31 != 0 || flags & 3840 != 0) by (bit_vector)
        requires
            flags & bit != 0,
            bit == 1 || bit == 2 || bit == 4 || bit == 8 || bit == 16 || bit == 256 || bit == 512
                || bit == 1024 || bit == 2048,
    ;
    assert(1u32 | 2 | 4 | 8 | 16 == 31) by (bit_vector);
    assert(256u32 | 512 | 1024 | 2048 == 3840) by (bit_vector);
    assert(crate::sync::changes::is_change(entries@[i].flags, new_files));
}

/// A new file is a local change where new files are synced; and where they are not, and no file
/// that git knows has changed, there is no local change.
pub proof fn new_files_count_where_they_are_synced(
    new_files: bool,
    entries: Vec<StatusEntry>,
    i: int,
    later: Seq<Reply>,
)
    ensures
        local_changes_script(new_files, unanswered()) == Outcome::<Attempt<bool>>::Ask(
            GitOp::Statuses { untracked: new_files },
        ),
        new_files && 0 <= i < entries@.len() && entries@[i].flags & 128 != 0
            ==> local_changes_script(new_files, upon(Reply::Statuses(Ok(entries)), later))
            == Outcome::<Attempt<bool>>::Done(Ok(true), later),
        (forall|j: int|
            0 <= j < entries@.len() ==> (#[trigger] entries@[j]).flags & 3871 == 0 && (new_files
                ==> entries@[j].flags & 128 == 0)) ==> local_changes_script(
            new_files,
            upon(Reply::Statuses(Ok(entries)), later),
        ) == Outcome::<Attempt<bool>>::Done(Ok(false), later),
{
    broadcast use lemma_upon;

    reveal(local_changes_script);
    assert(1u32 | 2 | 4 | 8 | 16 == 31) by (bit_vector);
    assert(256u32 | 512 | 1024 | 2048 == 3840) by (bit_vector);
    if new_files && 0 <= i < entries@.len() && entries@[i].flags & 128 != 0 {
        assert(crate::sync::changes::is_change(entries@[i].flags, new_files));
    }
    if forall|j: int|
        0 <= j < entries@.len() ==> (#[trigger] entries@[j]).flags & 3871 == 0 && (new_files
            ==> entries@[j].flags & 128 == 0) {
        assert forall|j: int| 0 <= j < entries@.len() implies !crate::sync::changes::is_change(
            #[trigger] entries@[j].flags,
            new_files,
        ) by {
            let flags = entries@[j].flags;
            assert(entries@[j].flags & 3871 == 0);
            assert(flags & 31 == 0 && flags & 3840 == 0) by (bit_vector)
                requires
                    flags & 3871 == 0,
            ;
        }
    }
}

/// Whether there are local changes does not depend on the order of the files, and more files do
/// not make a change go away.
pub proof fn changes_add_up(
    new_files: bool,
    fewer: Vec<StatusEntry>,
    more: Vec<StatusEntry>,
    later: Seq<Reply>,
)
    requires
        forall|i: int|
            0 <= i < fewer@.len() ==> exists|j: int|
                0 <= j < more@.len() && (#[trigger] more@[j]).flags == (
                #[trigger] fewer@[i]).flags,
        local_changes_script(new_files, upon(Reply::Statuses(Ok(fewer)), later)) == Outcome::<
            Attempt<bool>,
        >::Done(Ok(true), later),
    ensures
        local_changes_script(new_files, upon(Reply::Statuses(Ok(more)), later)) == Outcome::<
            Attempt<bool>,
        >::Done(Ok(true), later),
{
    broadcast use lemma_upon;

    reveal(local_changes_script);
    let i = choose|i: int|
        0 <= i < fewer@.len() && crate::sync::changes::is_change(
            #[trigger] fewer@[i].flags,
            new_files,
        );
    let f = fewer@[i];
    let j = choose|j: int| 0 <= j < more@.len() && (#[trigger] more@[j]).flags == f.flags;
    assert(crate::sync::changes::is_change(more@[j].flags, new_files));
}

/// The first file with conflicts prevents a synchronization, and no other file does: it is told
/// by its path, or as unknown where the path cannot be read.
pub proof fn conflicts_are_found(entries: Vec<StatusEntry>, i: int, later: Seq<Reply>)
    ensures
        unhandled_files_script(unanswered()) == Outcome::<
            Attempt<Option<UnhandledFileState<Seq<char>>>>,
        >::Ask(GitOp::Statuses { untracked: true }),
        (forall|j: int| 0 <= j < entries@.len() ==> (#[trigger] entries@[j]).flags & 32768 == 0)
            ==> unhandled_files_script(upon(Reply::Statuses(Ok(entries)), later)) == Outcome::<
            Attempt<Option<UnhandledFileState<Seq<char>>>>,
        >::Done(Ok(None), later),
        0 <= i < entries@.len() && entries@[i].flags & 32768 != 0 && (forall|j: int|
            0 <= j < i ==> (#[trigger] entries@[j]).flags & 32768 == 0)
            ==> unhandled_files_script(upon(Reply::Statuses(Ok(entries)), later)) == Outcome::<
            Attempt<Option<UnhandledFileState<Seq<char>>>>,
        >::Done(
            Ok(
                Some(
                    UnhandledFileState::Conflicted {
                        path: match entries@[i].path {
                            Some(path) => path@,
                            None => "<unknown>"@,
                        },
                    },
                ),
            ),
            later,
        ),
{
    broadcast use lemma_upon;

    reveal(unhandled_files_script);
    if forall|j: int| 0 <= j < entries@.len() ==> (#[trigger] entries@[j]).flags & 32768 == 0 {
        no_conflict_is_first(entries@);
    }
    if 0 <= i < entries@.len() && entries@[i].flags & 32768 != 0 && (forall|j: int|
        0 <= j < i ==> (#[trigger] entries@[j]).flags & 32768 == 0) {
        conflict_is_first(entries@, i);
    }
}

proof fn no_conflict_is_first(entries: Seq<StatusEntry>)
    requires
        forall|j: int| 0 <= j < entries.len() ==> (#[trigger] entries[j]).flags & 32768 == 0,
    ensures
        first_conflict(entries) is None,
    decreases entries.len(),
{
    if entries.len() > 0 {
        assert(entries[0].flags & 32768 == 0);
        assert forall|j: int| 0 <= j < entries.skip(1).len() implies (#[trigger] entries.skip(
            1,
        )[j]).flags & 32768 == 0 by {
            assert(entries.skip(1)[j] == entries[j + 1]);
        }
        no_conflict_is_first(entries.skip(1));
    }
}

proof fn conflict_is_first(entries: Seq<StatusEntry>, i: int)
    requires
        0 <= i < entries.len(),
        entries[i].flags & 32768 != 0,
        forall|j: int| 0 <= j < i ==> (#[trigger] entries[j]).flags & 32768 == 0,
    ensures
        first_conflict(entries) == Some(
            UnhandledFileState::Conflicted {
                path: match entries[i].path {
                    Some(path) => path@,
                    None => "<unknown>"@,
                },
            },
        ),
    decreases entries.len(),
{
    if i > 0 {
        assert(entries[0].flags & 32768 == 0);
        assert(entries.skip(1)[i - 1] == entries[i]);
        assert forall|j: int| 0 <= j < i - 1 implies (#[trigger] entries.skip(1)[j]).flags & 32768
            == 0 by {
            assert(entries.skip(1)[j] == entries[j + 1]);
        }
        conflict_is_first(entries.skip(1), i - 1);
    }
}

/// A branch and its upstream are equal where they are at the same object, and where neither has a
/// commit that the other has not; the branch is ahead by what only it has, behind by what only
/// the upstream has, and has diverged where both have something.
pub proof fn relations_follow_from_counts(
    name: String,
    local: String,
    upstream: String,
    ahead: usize,
    behind: usize,
    later: Seq<Reply>,
)
    ensures
        ({
            let here = upon(Reply::Maybe(Ok(Some(local))), unanswered());
            let known = |l: Seq<Reply>|
                upon(
                    on_branch(name),
                    upon(
                        Reply::Maybe(Ok(Some(local))),
                        upon(Reply::Maybe(Ok(Some(upstream))), l),
                    ),
                );
            let counted = sync_state_script(
                known(upon(Reply::Counts(Ok((ahead, behind))), later)),
            );
            &&& sync_state_script(unanswered()) == Outcome::<Attempt<SyncState>>::Ask(GitOp::Head)
            &&& sync_state_script(upon(on_branch(name), unanswered())) == Outcome::<
                Attempt<SyncState>,
            >::Ask(GitOp::BranchOid { branch: name@ })
            &&& sync_state_script(upon(on_branch(name), here)) == Outcome::<
                Attempt<SyncState>,
            >::Ask(GitOp::UpstreamOid { branch: name@ })
            &&& local@ == upstream@ ==> sync_state_script(known(later)) == Outcome::<
                Attempt<SyncState>,
            >::Done(Ok(SyncState::Equal), later)
            &&& local@ != upstream@ ==> {
                &&& sync_state_script(known(unanswered())) == Outcome::<
                    Attempt<SyncState>,
                >::Ask(GitOp::AheadBehind { local: local@, upstream: upstream@ })
                &&& counted matches Outcome::Done(Ok(state), rest) && rest == later && (state
                    == SyncState::Equal <==> ahead == 0 && behind == 0) && (ahead > 0 && behind == 0
                    ==> state == SyncState::Ahead(ahead)) && (ahead == 0 && behind > 0 ==> state
                    == SyncState::Behind(behind)) && (ahead > 0 && behind > 0 ==> state == (
                SyncState::Diverged { ahead, behind }))
            }
        }),
{
    broadcast use lemma_upon;

    reveal(sync_state_script);
    reveal(current_branch_script);
}

/// A branch whose upstream cannot be found has none. Where the branch itself cannot be found, or
/// what only one side has cannot be counted, the question fails.
pub proof fn upstreams_may_be_missing(
    name: String,
    local: Option<String>,
    upstream: String,
    e: GitError,
    later: Seq<Reply>,
)
    ensures
        sync_state_script(
            upon(
                on_branch(name),
                upon(Reply::Maybe(Ok(local)), upon(Reply::Maybe(Err(e)), later)),
            ),
        ) == Outcome::<Attempt<SyncState>>::Done(Ok(SyncState::NoUpstream), later),
        sync_state_script(upon(on_branch(name), upon(Reply::Maybe(Err(e)), later))) == Outcome::<
            Attempt<SyncState>,
        >::Done(Err(SyncError::GitError(e@)), later),
        local matches Some(local) && local@ != upstream@ ==> sync_state_script(
            upon(
                on_branch(name),
                upon(
                    Reply::Maybe(Ok(local)),
                    upon(
                        Reply::Maybe(Ok(Some(upstream))),
                        upon(Reply::Counts(Err(e)), later),
                    ),
                ),
            ),
        ) == Outcome::<Attempt<SyncState>>::Done(Err(SyncError::GitError(e@)), later),
        local is None ==> (sync_state_script(
            upon(
                on_branch(name),
                upon(Reply::Maybe(Ok(local)), upon(Reply::Maybe(Ok(Some(upstream))), later)),
            ),
        ) matches Outcome::Done(Err(SyncError::Other(_)), rest) && rest == later),
        sync_state_script(
            upon(
                on_branch(name),
                upon(Reply::Maybe(Ok(local)), upon(Reply::Maybe(Ok(None)), later)),
            ),
        ) matches Outcome::Done(Err(SyncError::Other(_)), rest) && rest == later,
{
    broadcast use lemma_upon;

    reveal(sync_state_script);
    reveal(current_branch_script);
}

/// A branch can be merged without conflicts where HEAD is behind it, or where a merge in memory
/// leaves none. What is looked up is the branch of the configured remote, and what is merged are
/// the commits that were found there and at HEAD.
pub proof fn merges_are_tried_with_the_configured_remote(
    remote: Seq<char>,
    branch: Seq<char>,
    oid: Option<String>,
    target: String,
    head: String,
    conflicts: bool,
    later: Seq<Reply>,
)
    ensures
        ({
            let found = |l: Seq<Reply>|
                upon(
                    Reply::Maybe(Ok(oid)),
                    upon(Reply::Text(Ok(target)), upon(Reply::Text(Ok(head)), l)),
                );
            let reference = "refs/remotes/"@ + remote + "/"@ + branch;
            &&& can_merge_script(remote, branch, unanswered()) == Outcome::<Attempt<bool>>::Ask(
                GitOp::ReferenceOid { name: reference },
            )
            &&& can_merge_script(remote, branch, upon(Reply::Maybe(Ok(oid)), unanswered()))
                == Outcome::<Attempt<bool>>::Ask(GitOp::ReferenceCommit { name: reference })
            &&& can_merge_script(
                remote,
                branch,
                upon(Reply::Maybe(Ok(oid)), upon(Reply::Text(Ok(target)), unanswered())),
            ) == Outcome::<Attempt<bool>>::Ask(GitOp::HeadCommit)
            &&& can_merge_script(remote, branch, found(unanswered())) == Outcome::<
                Attempt<bool>,
            >::Ask(GitOp::DescendantOf { commit: target@, ancestor: head@ })
            &&& can_merge_script(remote, branch, found(upon(Reply::Flag(Ok(true)), later)))
                == Outcome::<Attempt<bool>>::Done(Ok(true), later)
            &&& can_merge_script(
                remote,
                branch,
                found(upon(Reply::Flag(Ok(false)), unanswered())),
            ) == Outcome::<Attempt<bool>>::Ask(
                GitOp::MergeConflicts { ours: head@, theirs: target@ },
            )
            &&& can_merge_script(
                remote,
                branch,
                found(upon(Reply::Flag(Ok(false)), upon(Reply::Flag(Ok(conflicts)), later))),
            ) == Outcome::<Attempt<bool>>::Done(Ok(!conflicts), later)
        }),
{
    broadcast use lemma_upon;

    reveal(can_merge_script);
}

/// Where anything cannot be found or compared, it is not known whether there would be conflicts.
pub proof fn merges_that_cannot_be_tried_fail(
    remote: Seq<char>,
    branch: Seq<char>,
    oid: Option<String>,
    target: String,
    head: String,
    e: GitError,
    later: Seq<Reply>,
)
    ensures
        can_merge_script(remote, branch, upon(Reply::Maybe(Err(e)), later)) == Outcome::<
            Attempt<bool>,
        >::Done(
            Err(
                SyncError::Other(
                    "Failed to find target branch "@ + branch + ": "@ + e.description@,
                ),
            ),
            later,
        ),
        can_merge_script(
            remote,
            branch,
            upon(Reply::Maybe(Ok(oid)), upon(Reply::Text(Err(e)), later)),
        ) == Outcome::<Attempt<bool>>::Done(Err(SyncError::GitError(e@)), later),
        can_merge_script(
            remote,
            branch,
            upon(
                Reply::Maybe(Ok(oid)),
                upon(Reply::Text(Ok(target)), upon(Reply::Text(Err(e)), later)),
            ),
        ) == Outcome::<Attempt<bool>>::Done(Err(SyncError::GitError(e@)), later),
        can_merge_script(
            remote,
            branch,
            upon(
                Reply::Maybe(Ok(oid)),
                upon(
                    Reply::Text(Ok(target)),
                    upon(Reply::Text(Ok(head)), upon(Reply::Flag(Err(e)), later)),
                ),
            ),
        ) == Outcome::<Attempt<bool>>::Done(Err(SyncError::GitError(e@)), later),
        can_merge_script(
            remote,
            branch,
            upon(
                Reply::Maybe(Ok(oid)),
                upon(
                    Reply::Text(Ok(target)),
                    upon(
                        Reply::Text(Ok(head)),
                        upon(Reply::Flag(Ok(false)), upon(Reply::Flag(Err(e)), later)),
                    ),
                ),
            ),
        ) == Outcome::<Attempt<bool>>::Done(
            Err(SyncError::Other("Failed to perform merge check: "@ + e.description@)),
            later,
        ),
{
    broadcast use lemma_upon;

    reveal(can_merge_script);
}

/// The branch that the repository should be on is the one that is configured, and nothing is
/// asked; without one, it is the default branch.
pub proof fn configured_branches_come_first(configured: Seq<char>, h: Seq<Reply>)
    ensures
        configured.len() > 0 ==> target_branch_script(Some(configured), h) == Outcome::<
            Attempt<Seq<char>>,
        >::Done(Ok(configured), h),
        target_branch_script(None, h) == default_branch_script(h),
        configured.len() == 0 ==> target_branch_script(Some(configured), h)
            == default_branch_script(h),
{
    reveal(target_branch_script);
}

/// The default branch is the one that the head of `origin` leads to, whatever its name.
pub proof fn origin_says_which_branch_is_the_default(
    shorthand: String,
    branch: Seq<char>,
    later: Seq<Reply>,
)
    requires
        shorthand@ == "origin/"@ + branch,
    ensures
        default_branch_script(unanswered()) == Outcome::<Attempt<Seq<char>>>::Ask(
            GitOp::ResolvedShorthand { name: "refs/remotes/origin/HEAD"@ },
        ),
        default_branch_script(upon(Reply::Maybe(Ok(Some(shorthand))), later)) == Outcome::<
            Attempt<Seq<char>>,
        >::Done(Ok(branch), later),
{
    broadcast use lemma_upon;

    reveal(default_branch_script);
    prefixes_are_what_comes_first(shorthand@, "origin/"@, branch);
}

/// Where `origin` does not say, the default branch is `main` where there is one here or there,
/// else `master` where there is one, else the branch that is checked out.
pub proof fn main_comes_before_master(
    missing: Reply,
    a: Result<bool, GitError>,
    b: Result<bool, GitError>,
    c: Result<bool, GitError>,
    d: Result<bool, GitError>,
    name: String,
    later: Seq<Reply>,
)
    requires
        (missing matches Reply::Maybe(Err(_))) || missing == Reply::Maybe(Ok(None)),
        a != Ok::<bool, GitError>(true),
        b != Ok::<bool, GitError>(true),
        c != Ok::<bool, GitError>(true),
        d != Ok::<bool, GitError>(true),
    ensures
        ({
            let yes = Reply::Flag(Ok(true));
            let past_main = |l: Seq<Reply>| upon(missing, upon(Reply::Flag(a), l));
            let past_both = |l: Seq<Reply>| past_main(upon(Reply::Flag(b), l));
            let past_master = |l: Seq<Reply>| past_both(upon(Reply::Flag(c), l));
            let main = Outcome::<Attempt<Seq<char>>>::Done(Ok("main"@), later);
            let master = Outcome::<Attempt<Seq<char>>>::Done(Ok("master"@), later);
            &&& default_branch_script(upon(missing, unanswered())) == Outcome::<
                Attempt<Seq<char>>,
            >::Ask(GitOp::BranchExists { branch: "main"@ })
            &&& default_branch_script(upon(missing, upon(yes, later))) == main
            &&& default_branch_script(past_main(unanswered())) == Outcome::<
                Attempt<Seq<char>>,
            >::Ask(GitOp::ReferenceExists { name: "refs/remotes/origin/main"@ })
            &&& default_branch_script(past_main(upon(yes, later))) == main
            &&& default_branch_script(past_both(unanswered())) == Outcome::<
                Attempt<Seq<char>>,
            >::Ask(GitOp::BranchExists { branch: "master"@ })
            &&& default_branch_script(past_both(upon(yes, later))) == master
            &&& default_branch_script(past_master(unanswered())) == Outcome::<
                Attempt<Seq<char>>,
            >::Ask(GitOp::ReferenceExists { name: "refs/remotes/origin/master"@ })
            &&& default_branch_script(past_master(upon(yes, later))) == master
            &&& default_branch_script(past_master(upon(Reply::Flag(d), unanswered())))
                == Outcome::<Attempt<Seq<char>>>::Ask(GitOp::Head)
            &&& default_branch_script(
                past_master(upon(Reply::Flag(d), upon(on_branch(name), later))),
            ) == Outcome::<Attempt<Seq<char>>>::Done(Ok(name@), later)
        }),
{
    broadcast use lemma_upon;

    reveal(default_branch_script);
    reveal(current_branch_script);
}

/// A repository is in fallback mode on a branch below `git-sync/`, unless that is the branch that
/// is configured; on no other branch.
pub proof fn fallback_branches_are_below_git_sync(
    name: String,
    rest: Seq<char>,
    configured: Option<Seq<char>>,
    later: Seq<Reply>,
)
    ensures
        name@ == "git-sync/"@ + rest && configured != Some(name@) ==> on_fallback_script(
            configured,
            upon(on_branch(name), later),
        ) == Outcome::<Attempt<bool>>::Done(Ok(true), later),
        configured == Some(name@) || (forall|r: Seq<char>| name@ != #[trigger] ("git-sync/"@ + r))
            ==> on_fallback_script(configured, upon(on_branch(name), later)) == Outcome::<
            Attempt<bool>,
        >::Done(Ok(false), later),
        in_fallback_mode(name@, configured) <==> configured != Some(name@) && exists|r: Seq<char>|
            name@ == #[trigger] ("git-sync/"@ + r),
{
    broadcast use lemma_upon;

    reveal(current_branch_script);
    prefixes_are_what_comes_first(name@, "git-sync/"@, rest);
    if crate::sync::create::is_fallback(name@) {
        let r = name@.skip("git-sync/"@.len() as int);
        assert(name@ == "git-sync/"@ + r);
    }
    if exists|r: Seq<char>| name@ == #[trigger] ("git-sync/"@ + r) {
        let r = choose|r: Seq<char>| name@ == #[trigger] ("git-sync/"@ + r);
        prefixes_are_what_comes_first(name@, "git-sync/"@, r);
    }
}

} // verus!
