//! The course of a synchronization, from the first question to the last.

use crate::error::{GitError, GitErrorCode, SyncError};
use crate::sync::{detected, fresh, SyncConfig};
use crate::sync::back::{return_script, with_branch, Model, Return};
use crate::sync::branch::{current_branch_script, CurrentBranch};
use crate::sync::changes::local_changes_script;
use crate::sync::commit::auto_commit_script;
use crate::sync::conduct::returns_begin_on_fallback_branches_only;
use crate::sync::dealings::{failed, succeeded, the_branch_is_fetched, the_target_is_fetched_too};
use crate::sync::fetch::fetch_script;
use crate::sync::forward::fast_forward_script;
use crate::sync::inquiries::{
    branches_without_commits_are_branches, conflicts_are_found, every_change_counts,
    fallback_branches_are_below_git_sync, heads_name_branches, lemma_upon,
    new_files_count_where_they_are_synced, on_branch, relations_follow_from_counts, tells_a_change,
    unanswered, upon, upstreams_may_be_missing,
};
use crate::sync::inspect::inspect_script;
use crate::sync::rebase::rebase_script;
use crate::sync::relation::{sync_state_script, SyncState};
use crate::sync::remote::remote_script;
use crate::sync::run::{changes_known, relation_known, sync_script, Synced};
use crate::sync::state::{repository_state_script, RepositoryState};
use crate::sync::step::{
    conceivable, Attempt, CommandOutput, GitOp, HeadInfo, Operation, Outcome, RemoteCommand, Reply,
    StatusEntry,
};
use crate::sync::transport::commit_script;
use crate::sync::unhandled::{unhandled_files_script, UnhandledFileState};
use crate::text::lossily_decoded;
use crate::text_laws::{mentions, prefixes_are_what_comes_first};
use vstd::prelude::*;

verus! {

/// Whether no file has conflicts.
pub open spec fn without_conflicts(entries: Seq<StatusEntry>) -> bool {
    forall|j: int| 0 <= j < entries.len() ==> (#[trigger] entries[j]).flags & 32768 == 0
}

/// Whether no file has anything to commit, new files included.
pub open spec fn without_changes(entries: Seq<StatusEntry>) -> bool {
    forall|j: int|
        0 <= j < entries.len() ==> (#[trigger] entries[j]).flags & 3871 == 0 && entries[j].flags
            & 128 == 0
}

/// The name of what is in progress, as errors have it.
pub open spec fn progress_name(operation: Operation) -> Seq<char> {
    match operation {
        Operation::Merge => "Merging"@,
        Operation::Rebase => "Rebasing"@,
        Operation::RebaseInteractive => "Rebasing"@,
        Operation::RebaseMerge => "Rebasing"@,
        Operation::CherryPick => "CherryPicking"@,
        Operation::CherryPickSequence => "CherryPicking"@,
        Operation::Revert => "Reverting"@,
        Operation::RevertSequence => "Reverting"@,
        Operation::Bisect => "Bisecting"@,
        Operation::ApplyMailbox => "ApplyingPatches"@,
        Operation::ApplyMailboxOrRebase => "ApplyingPatches"@,
        Operation::Clean => "Clean"@,
    }
}

/// A repository with a detached HEAD, with anything in progress or with a file that has conflicts
/// is not synchronized: the error says why, and nothing else is asked. A check asks no more than
/// that, and is passed otherwise.
pub proof fn unsafe_repositories_are_left_alone(
    s: Model,
    check_only: bool,
    operation: Operation,
    entries: Vec<StatusEntry>,
    files: Vec<StatusEntry>,
    i: int,
    later: Seq<Reply>,
)
    ensures
        sync_script(s, check_only, unanswered()) == Outcome::<Synced<Seq<char>>>::Ask(
            GitOp::HeadDetached,
        ),
        sync_script(s, check_only, upon(Reply::Flag(Ok(true)), later)) == Outcome::<
            Synced<Seq<char>>,
        >::Done((Err(SyncError::DetachedHead), s), later),
        operation != Operation::Clean ==> sync_script(
            s,
            check_only,
            upon(Reply::Flag(Ok(false)), upon(Reply::Operation(operation), later)),
        ) == Outcome::<Synced<Seq<char>>>::Done(
            (Err(SyncError::UnsafeRepositoryState { state: progress_name(operation) }), s),
            later,
        ),
        ({
            let looked = |l: Seq<Reply>|
                upon(
                    Reply::Flag(Ok(false)),
                    upon(
                        Reply::Operation(Operation::Clean),
                        upon(Reply::Statuses(Ok(entries)), l),
                    ),
                );
            &&& sync_script(s, check_only, looked(unanswered())) == Outcome::<
                Synced<Seq<char>>,
            >::Ask(GitOp::Statuses { untracked: true })
            &&& 0 <= i < files@.len() && files@[i].flags & 32768 != 0 && (forall|j: int|
                0 <= j < i ==> (#[trigger] files@[j]).flags & 32768 == 0) ==> sync_script(
                s,
                check_only,
                looked(upon(Reply::Statuses(Ok(files)), later)),
            ) == Outcome::<Synced<Seq<char>>>::Done(
                (
                    Err(
                        SyncError::ManualInterventionRequired {
                            reason: "Conflicted file: "@ + match files@[i].path {
                                Some(path) => path@,
                                None => "<unknown>"@,
                            },
                        },
                    ),
                    s,
                ),
                later,
            )
            &&& without_conflicts(files@) ==> sync_script(
                s,
                true,
                looked(upon(Reply::Statuses(Ok(files)), later)),
            ) == Outcome::<Synced<Seq<char>>>::Done((Ok(()), s), later)
            &&& without_conflicts(files@) ==> sync_script(
                s,
                false,
                looked(upon(Reply::Statuses(Ok(files)), unanswered())),
            ) == Outcome::<Synced<Seq<char>>>::Ask(GitOp::Head)
        }),
{
    broadcast use lemma_upon;

    reveal(sync_script);
    reveal(repository_state_script);
    reveal(unhandled_files_script);
    reveal(current_branch_script);
    conflicts_are_found(files, i, later);
    conflicts_are_found(files, i, unanswered());
}

/// The replies to a synchronization up to where the branch that is checked out was fetched.
pub open spec fn fetched(
    entries: Vec<StatusEntry>,
    files: Vec<StatusEntry>,
    name: String,
    stdout: Vec<u8>,
    stderr: Vec<u8>,
    later: Seq<Reply>,
) -> Seq<Reply> {
    upon(
        Reply::Flag(Ok(false)),
        upon(
            Reply::Operation(Operation::Clean),
            upon(
                Reply::Statuses(Ok(entries)),
                upon(
                    Reply::Statuses(Ok(files)),
                    upon(on_branch(name), upon(succeeded(stdout, stderr), later)),
                ),
            ),
        ),
    )
}

/// Whether nothing but the branch that is checked out is fetched.
pub open spec fn nothing_else_to_fetch(s: Model, name: Seq<char>) -> bool {
    !s.config.conflict_branch || (s.config.target_branch == Some(name) && name.len() > 0)
}

proof fn fetches_come_first(
    s: Model,
    entries: Vec<StatusEntry>,
    files: Vec<StatusEntry>,
    name: String,
    stdout: Vec<u8>,
    stderr: Vec<u8>,
    later: Seq<Reply>,
)
    requires
        without_conflicts(files@),
        nothing_else_to_fetch(s, name@),
    ensures
        ({
            let moved = with_branch(s, name@);
            sync_script(s, false, fetched(entries, files, name, stdout, stderr, later))
                == changes_known(
                moved,
                false,
                local_changes_script(s.config.sync_new_files, later),
            )
        }),
{
    broadcast use lemma_upon;

    let moved = with_branch(s, name@);
    reveal(sync_script);
    reveal(repository_state_script);
    conflicts_are_found(
        files,
        0,
        upon(on_branch(name), upon(succeeded(stdout, stderr), later)),
    );
    heads_name_branches(
        name,
        None,
        GitError { code: GitErrorCode::Other, description: name },
        upon(succeeded(stdout, stderr), later),
    );
    the_branch_is_fetched(moved.config, false, stdout, stderr, name, later);
    if s.config.conflict_branch {
        the_target_is_fetched_too(
            moved.config,
            false,
            name@,
            stdout,
            stderr,
            Err(name),
            later,
        );
    }
}

/// The branch that is checked out is fetched from the configured remote, whatever branch the
/// configuration names; then local changes are looked for, new files only where they are synced.
pub proof fn the_branch_that_is_checked_out_is_fetched(
    s: Model,
    entries: Vec<StatusEntry>,
    files: Vec<StatusEntry>,
    name: String,
    stdout: Vec<u8>,
    stderr: Vec<u8>,
)
    requires
        without_conflicts(files@),
    ensures
        sync_script(
            s,
            false,
            upon(
                Reply::Flag(Ok(false)),
                upon(
                    Reply::Operation(Operation::Clean),
                    upon(
                        Reply::Statuses(Ok(entries)),
                        upon(
                            Reply::Statuses(Ok(files)),
                            upon(on_branch(name), unanswered()),
                        ),
                    ),
                ),
            ),
        ) == Outcome::<Synced<Seq<char>>>::Ask(
            GitOp::Run(RemoteCommand::Fetch { remote: s.config.remote_name, branch: name@ }),
        ),
        nothing_else_to_fetch(s, name@) ==> sync_script(
            s,
            false,
            fetched(entries, files, name, stdout, stderr, unanswered()),
        ) == Outcome::<Synced<Seq<char>>>::Ask(
            GitOp::Statuses { untracked: s.config.sync_new_files },
        ),
{
    broadcast use lemma_upon;

    let moved = with_branch(s, name@);
    reveal(sync_script);
    reveal(repository_state_script);
    conflicts_are_found(files, 0, upon(on_branch(name), unanswered()));
    heads_name_branches(
        name,
        None,
        GitError { code: GitErrorCode::Other, description: name },
        unanswered(),
    );
    the_branch_is_fetched(moved.config, false, stdout, stderr, name, unanswered());
    if nothing_else_to_fetch(s, name@) {
        fetches_come_first(s, entries, files, name, stdout, stderr, unanswered());
        new_files_count_where_they_are_synced(s.config.sync_new_files, files, 0, unanswered());
    }
}

/// Where any file that git knows has changed, the change is staged before anything else is done,
/// and the same holds of a new file where new files are synced.
pub proof fn changes_are_staged(
    s: Model,
    entries: Vec<StatusEntry>,
    files: Vec<StatusEntry>,
    name: String,
    stdout: Vec<u8>,
    stderr: Vec<u8>,
    changed: Vec<StatusEntry>,
    i: int,
    bit: u32,
)
    requires
        without_conflicts(files@),
        nothing_else_to_fetch(s, name@),
        0 <= i < changed@.len(),
        tells_a_change(bit) || (bit == 128 && s.config.sync_new_files),
        changed@[i].flags & bit != 0,
    ensures
        sync_script(
            s,
            false,
            fetched(
                entries,
                files,
                name,
                stdout,
                stderr,
                upon(Reply::Statuses(Ok(changed)), unanswered()),
            ),
        ) == Outcome::<Synced<Seq<char>>>::Ask(
            if s.config.sync_new_files {
                GitOp::StageAll
            } else {
                GitOp::StageTracked
            },
        ),
{
    let found = upon(Reply::Statuses(Ok(changed)), unanswered());
    fetches_come_first(s, entries, files, name, stdout, stderr, found);
    if tells_a_change(bit) {
        every_change_counts(s.config.sync_new_files, changed, i, bit, unanswered());
    } else {
        new_files_count_where_they_are_synced(
            s.config.sync_new_files,
            changed,
            i,
            unanswered(),
        );
    }
    reveal(auto_commit_script);
}

/// The replies to a synchronization up to where it turned out that there is nothing to commit and
/// no fallback branch to return from.
pub open spec fn nothing_local(
    s: Model,
    entries: Vec<StatusEntry>,
    files: Vec<StatusEntry>,
    name: String,
    stdout: Vec<u8>,
    stderr: Vec<u8>,
    clean: Vec<StatusEntry>,
    later: Seq<Reply>,
) -> Seq<Reply> {
    fetched(
        entries,
        files,
        name,
        stdout,
        stderr,
        upon(
            Reply::Statuses(Ok(clean)),
            if s.config.conflict_branch {
                upon(on_branch(name), later)
            } else {
                later
            },
        ),
    )
}

proof fn relations_decide(
    s: Model,
    entries: Vec<StatusEntry>,
    files: Vec<StatusEntry>,
    name: String,
    stdout: Vec<u8>,
    stderr: Vec<u8>,
    clean: Vec<StatusEntry>,
    later: Seq<Reply>,
)
    requires
        without_conflicts(files@),
        without_changes(clean@),
        nothing_else_to_fetch(s, name@),
    ensures
        sync_script(
            s,
            false,
            nothing_local(s, entries, files, name, stdout, stderr, clean, later),
        ) == relation_known(
            with_branch(s, name@),
            false,
            sync_state_script(later),
        ),
{
    let moved = with_branch(s, name@);
    let rest = if s.config.conflict_branch {
        upon(on_branch(name), later)
    } else {
        later
    };
    fetches_come_first(
        s,
        entries,
        files,
        name,
        stdout,
        stderr,
        upon(Reply::Statuses(Ok(clean)), rest),
    );
    new_files_count_where_they_are_synced(s.config.sync_new_files, clean, 0, rest);
    if s.config.conflict_branch {
        returns_begin_on_fallback_branches_only(moved, name, later);
    }
}

/// The replies that tell how a branch relates to its upstream.
pub open spec fn compared(
    name: String,
    local: String,
    upstream: String,
    ahead: usize,
    behind: usize,
    later: Seq<Reply>,
) -> Seq<Reply> {
    upon(
        on_branch(name),
        upon(
            Reply::Maybe(Ok(Some(local))),
            upon(
                Reply::Maybe(Ok(Some(upstream))),
                upon(Reply::Counts(Ok((ahead, behind))), later),
            ),
        ),
    )
}

/// A branch that is ahead of its upstream is pushed, to the branch of the same name at the
/// configured remote. One that is behind is moved forward, and one that has diverged is rebased
/// and pushed then. A branch that is equal is left as it is.
pub proof fn upstreams_decide_what_is_done(
    s: Model,
    entries: Vec<StatusEntry>,
    files: Vec<StatusEntry>,
    name: String,
    stdout: Vec<u8>,
    stderr: Vec<u8>,
    clean: Vec<StatusEntry>,
    local: String,
    upstream: String,
    ahead: usize,
    behind: usize,
    later: Seq<Reply>,
)
    requires
        without_conflicts(files@),
        without_changes(clean@),
        nothing_else_to_fetch(s, name@),
        local@ != upstream@,
    ensures
        ({
            let h = nothing_local(
                s,
                entries,
                files,
                name,
                stdout,
                stderr,
                clean,
                compared(name, local, upstream, ahead, behind, later),
            );
            let out = sync_script(s, false, h);
            let push = RemoteCommand::Push {
                remote: s.config.remote_name,
                refspec: name@ + ":"@ + name@,
            };
            &&& ahead > 0 && behind == 0 && later.len() == 0 ==> out == Outcome::<
                Synced<Seq<char>>,
            >::Ask(GitOp::Run(push))
            &&& ahead > 0 && behind == 0 ==> goes_on_to_the_verdict(
                remote_script(push, later),
                out,
            )
            &&& ahead == 0 && behind > 0 ==> goes_on_to_the_verdict(fast_forward_script(later), out)
            &&& ahead > 0 && behind > 0 ==> rebases_and_pushes(s, name@, later, out)
            &&& ahead == 0 && behind == 0 ==> concludes(later, out)
        }),
{
    broadcast use lemma_upon;

    let told = compared(name, local, upstream, ahead, behind, later);
    relations_decide(s, entries, files, name, stdout, stderr, clean, told);
    relations_follow_from_counts(name, local, upstream, ahead, behind, later);
    reveal(remote_script);
    reveal(current_branch_script);
}

/// Whether an outcome is that of looking how the branch relates to its upstream: it succeeds where
/// they are equal or there is no upstream, and says that they are not in sync where they are not.
pub open spec fn concludes(h: Seq<Reply>, out: Outcome<Synced<Seq<char>>>) -> bool {
    match sync_state_script(h) {
        Outcome::Ask(op) => out == Outcome::<Synced<Seq<char>>>::Ask(op),
        Outcome::Done(Err(e), rest) => out matches Outcome::Done((Err(f), _), r) && f == e && r
            == rest,
        Outcome::Done(Ok(SyncState::Equal), rest) => out matches Outcome::Done((Ok(_), _), r) && r
            == rest,
        Outcome::Done(Ok(SyncState::NoUpstream), rest) => out matches Outcome::Done((Ok(_), _), r)
            && r == rest,
        Outcome::Done(Ok(_), rest) => out matches Outcome::Done((Err(f), _), r) && r == rest && f
            == SyncError::<Seq<char>>::Other("Sync completed but repository is not in sync"@),
    }
}

/// Whether an outcome is that of a procedure and then, where it succeeds, of looking how the
/// branch relates to its upstream.
pub open spec fn goes_on_to_the_verdict(
    procedure: Outcome<Attempt<()>>,
    out: Outcome<Synced<Seq<char>>>,
) -> bool {
    match procedure {
        Outcome::Ask(op) => out == Outcome::<Synced<Seq<char>>>::Ask(op),
        Outcome::Done(Err(e), rest) => out matches Outcome::Done((Err(f), _), r) && f == e && r
            == rest,
        Outcome::Done(Ok(_), rest) => concludes(rest, out),
    }
}

/// Whether an outcome is that of a rebase of the given branch and then, where it succeeds, of
/// pushing the branch that is checked out by then and looking how it relates to its upstream.
pub open spec fn rebases_and_pushes(
    s: Model,
    branch: Seq<char>,
    h: Seq<Reply>,
    out: Outcome<Synced<Seq<char>>>,
) -> bool {
    match rebase_script(SyncConfig { branch_name: branch, ..s.config }, h) {
        Outcome::Ask(op) => out == Outcome::<Synced<Seq<char>>>::Ask(op),
        Outcome::Done(Err(e), rest) => out matches Outcome::Done((Err(f), _), r) && f == e && r
            == rest,
        Outcome::Done(Ok(_), rest) => {
            &&& rest.len() == 0 ==> out == Outcome::<Synced<Seq<char>>>::Ask(GitOp::Head)
            &&& forall|name: String, l: Seq<Reply>|
                rest == #[trigger] upon(on_branch(name), l) ==> goes_on_to_the_verdict(
                    remote_script(
                        RemoteCommand::Push {
                            remote: s.config.remote_name,
                            refspec: name@ + ":"@ + name@,
                        },
                        l,
                    ),
                    out,
                )
        },
    }
}

/// A branch without upstream cannot be synchronized, and the error names it; a fallback branch
/// gets the branch of the same name at the configured remote for its upstream.
pub proof fn branches_need_an_upstream(
    s: Model,
    entries: Vec<StatusEntry>,
    files: Vec<StatusEntry>,
    name: String,
    stdout: Vec<u8>,
    stderr: Vec<u8>,
    clean: Vec<StatusEntry>,
    local: Option<String>,
    e: GitError,
    rest: Seq<char>,
    later: Seq<Reply>,
)
    requires
        without_conflicts(files@),
        without_changes(clean@),
        nothing_else_to_fetch(s, name@),
    ensures
        ({
            let known = |l: Seq<Reply>|
                nothing_local(
                    s,
                    entries,
                    files,
                    name,
                    stdout,
                    stderr,
                    clean,
                    upon(
                        on_branch(name),
                        upon(
                            Reply::Maybe(Ok(local)),
                            upon(Reply::Maybe(Err(e)), upon(on_branch(name), l)),
                        ),
                    ),
                );
            let push = RemoteCommand::PushUpstream {
                remote: s.config.remote_name,
                branch: name@,
            };
            let usual = forall|r: Seq<char>| name@ != #[trigger] ("git-sync/"@ + r);
            &&& usual || s.config.target_branch == Some(name@) ==> (sync_script(
                s,
                false,
                known(later),
            ) matches Outcome::Done((Err(f), _), r) && r == later && f == (SyncError::<
                Seq<char>,
            >::NoRemoteConfigured { branch: name@ }))
            &&& name@ == "git-sync/"@ + rest && s.config.target_branch != Some(name@) ==> {
                &&& sync_script(s, false, known(unanswered())) == Outcome::<Synced<Seq<char>>>::Ask(
                    GitOp::Run(push),
                )
                &&& goes_on_to_the_verdict(
                    remote_script(push, later),
                    sync_script(s, false, known(later)),
                )
            }
        }),
{
    broadcast use lemma_upon;

    let without = |l: Seq<Reply>|
        upon(
            on_branch(name),
            upon(
                Reply::Maybe(Ok(local)),
                upon(Reply::Maybe(Err(e)), upon(on_branch(name), l)),
            ),
        );
    relations_decide(s, entries, files, name, stdout, stderr, clean, without(later));
    relations_decide(s, entries, files, name, stdout, stderr, clean, without(unanswered()));
    upstreams_may_be_missing(name, local, name, e, upon(on_branch(name), later));
    upstreams_may_be_missing(name, local, name, e, upon(on_branch(name), unanswered()));
    heads_name_branches(name, None, e, later);
    heads_name_branches(name, None, e, unanswered());
    fallback_branches_are_below_git_sync(name, rest, s.config.target_branch, later);
    reveal(remote_script);
}

/// Where conflicts lead to fallback branches and the branch that is checked out is not the one
/// that is configured, that one is fetched too, and local changes are committed before a return is
/// tried. Whatever branch the return ends on is what is synchronized then: pushed to the branch of
/// the same name where it is ahead, and given an upstream where it is a fallback branch without
/// one.
pub proof fn work_goes_on_after_a_return(
    s: Model,
    entries: Vec<StatusEntry>,
    files: Vec<StatusEntry>,
    name: String,
    stdout: Vec<u8>,
    stderr: Vec<u8>,
    target: Seq<char>,
    output: Result<CommandOutput, String>,
    changed: Vec<StatusEntry>,
    i: int,
    bit: u32,
    clean: Vec<StatusEntry>,
    replies: Seq<Reply>,
    current: String,
    local: String,
    upstream: String,
    ahead: usize,
    behind: usize,
    e: GitError,
    part: Seq<char>,
)
    requires
        without_conflicts(files@),
        without_changes(clean@),
        s.config.conflict_branch,
        s.config.target_branch == Some(target),
        target.len() > 0,
        target != name@,
        local@ != upstream@,
    ensures
        ({
            let moved = with_branch(s, name@);
            let both = |l: Seq<Reply>|
                fetched(entries, files, name, stdout, stderr, upon(Reply::Output(output), l));
            let out = sync_script(s, false, both(upon(Reply::Statuses(Ok(clean)), replies)));
            &&& sync_script(
                s,
                false,
                fetched(entries, files, name, stdout, stderr, unanswered()),
            ) == Outcome::<Synced<Seq<char>>>::Ask(
                GitOp::Run(RemoteCommand::Fetch { remote: s.config.remote_name, branch: target }),
            )
            &&& sync_script(s, false, both(unanswered())) == Outcome::<Synced<Seq<char>>>::Ask(
                GitOp::Statuses { untracked: s.config.sync_new_files },
            )
            &&& 0 <= i < changed@.len() && tells_a_change(bit) && changed@[i].flags & bit != 0
                ==> sync_script(s, false, both(upon(Reply::Statuses(Ok(changed)), unanswered())))
                == Outcome::<Synced<Seq<char>>>::Ask(
                if s.config.sync_new_files {
                    GitOp::StageAll
                } else {
                    GitOp::StageTracked
                },
            )
            &&& return_script(moved, replies) matches Outcome::Ask(op) ==> out == Outcome::<
                Synced<Seq<char>>,
            >::Ask(op)
            &&& return_script(moved, replies) matches Outcome::Done((Err(f), after), l) ==> out
                == Outcome::<Synced<Seq<char>>>::Done((Err(f), after), l)
            &&& return_script(moved, replies) matches Outcome::Done((Ok(_), after), l) ==> {
                let own = after.config.branch_name;
                let remote = after.config.remote_name;
                &&& l == compared(current, local, upstream, ahead, behind, unanswered()) && ahead
                    > 0 && behind == 0 ==> out == Outcome::<Synced<Seq<char>>>::Ask(
                    GitOp::Run(RemoteCommand::Push { remote, refspec: own + ":"@ + own }),
                )
                &&& l == upon(
                    on_branch(current),
                    upon(
                        Reply::Maybe(Ok(Some(local))),
                        upon(Reply::Maybe(Err(e)), upon(on_branch(current), unanswered())),
                    ),
                ) && current@ == "git-sync/"@ + part && after.config.target_branch != Some(current@)
                    ==> out == Outcome::<Synced<Seq<char>>>::Ask(
                    GitOp::Run(RemoteCommand::PushUpstream { remote, branch: current@ }),
                )
            }
        }),
{
    broadcast use lemma_upon;

    both_fetches_come_first(
        s,
        entries,
        files,
        name,
        stdout,
        stderr,
        target,
        output,
        unanswered(),
    );
    let found = upon(Reply::Statuses(Ok(changed)), unanswered());
    both_fetches_come_first(s, entries, files, name, stdout, stderr, target, output, found);
    let none = upon(Reply::Statuses(Ok(clean)), replies);
    both_fetches_come_first(s, entries, files, name, stdout, stderr, target, output, none);
    new_files_count_where_they_are_synced(s.config.sync_new_files, clean, 0, replies);
    new_files_count_where_they_are_synced(s.config.sync_new_files, clean, 0, unanswered());
    if 0 <= i < changed@.len() && tells_a_change(bit) && changed@[i].flags & bit != 0 {
        every_change_counts(s.config.sync_new_files, changed, i, bit, unanswered());
    }
    relations_follow_from_counts(current, local, upstream, ahead, behind, unanswered());
    upstreams_may_be_missing(
        current,
        Some(local),
        local,
        e,
        upon(on_branch(current), unanswered()),
    );
    heads_name_branches(current, None, e, unanswered());
    if let Outcome::Done((Ok(_), after), _) = return_script(with_branch(s, name@), replies) {
        fallback_branches_are_below_git_sync(
            current,
            part,
            after.config.target_branch,
            unanswered(),
        );
    }
    reveal(remote_script);
    reveal(auto_commit_script);
}

proof fn both_fetches_come_first(
    s: Model,
    entries: Vec<StatusEntry>,
    files: Vec<StatusEntry>,
    name: String,
    stdout: Vec<u8>,
    stderr: Vec<u8>,
    target: Seq<char>,
    output: Result<CommandOutput, String>,
    later: Seq<Reply>,
)
    requires
        without_conflicts(files@),
        s.config.conflict_branch,
        s.config.target_branch == Some(target),
        target.len() > 0,
        target != name@,
    ensures
        sync_script(
            s,
            false,
            fetched(entries, files, name, stdout, stderr, upon(Reply::Output(output), later)),
        ) == changes_known(
            with_branch(s, name@),
            false,
            local_changes_script(s.config.sync_new_files, later),
        ),
        sync_script(s, false, fetched(entries, files, name, stdout, stderr, unanswered()))
            == Outcome::<Synced<Seq<char>>>::Ask(
            GitOp::Run(RemoteCommand::Fetch { remote: s.config.remote_name, branch: target }),
        ),
{
    broadcast use lemma_upon;

    let moved = with_branch(s, name@);
    let e = GitError { code: GitErrorCode::Other, description: name };
    let first = upon(succeeded(stdout, stderr), upon(Reply::Output(output), later));
    let only = upon(succeeded(stdout, stderr), unanswered());
    reveal(sync_script);
    reveal(repository_state_script);
    conflicts_are_found(files, 0, upon(on_branch(name), first));
    conflicts_are_found(files, 0, upon(on_branch(name), only));
    heads_name_branches(name, None, e, first);
    heads_name_branches(name, None, e, only);
    the_target_is_fetched_too(moved.config, false, target, stdout, stderr, output, later);
}

/// A branch without commits is synchronized too, though the remote has no such branch yet: what
/// there is to commit is committed, and the branch gets the branch of the same name at the
/// configured remote for its upstream.
pub proof fn first_commits_reach_the_remote(
    s: Model,
    entries: Vec<StatusEntry>,
    files: Vec<StatusEntry>,
    unborn: GitError,
    reference: String,
    name: String,
    stdout: Vec<u8>,
    stderr: Vec<u8>,
    changed: Vec<StatusEntry>,
    i: int,
    tree: String,
    host: String,
    time: String,
    local: String,
    e: GitError,
)
    requires
        without_conflicts(files@),
        !s.config.conflict_branch,
        unborn.code == GitErrorCode::UnbornBranch,
        reference@ == "refs/heads/"@ + name@,
        mentions(lossily_decoded(stderr@), "couldn't find remote ref"@),
        0 <= i < changed@.len(),
        changed@[i].flags & 1 != 0,
    ensures
        sync_script(
            s,
            false,
            upon(
                Reply::Flag(Ok(false)),
                upon(
                    Reply::Operation(Operation::Clean),
                    upon(
                        Reply::Statuses(Ok(entries)),
                        upon(
                            Reply::Statuses(Ok(files)),
                            upon(
                                Reply::Head(Err(unborn)),
                                upon(
                                    Reply::Maybe(Ok(Some(reference))),
                                    upon(
                                        failed(stdout, stderr),
                                        upon(
                                            Reply::Statuses(Ok(changed)),
                                            first_commit(
                                                unborn,
                                                name,
                                                stdout,
                                                stderr,
                                                tree,
                                                host,
                                                time,
                                                local,
                                                e,
                                            ),
                                        ),
                                    ),
                                ),
                            ),
                        ),
                    ),
                ),
            ),
        ) == Outcome::<Synced<Seq<char>>>::Ask(
            GitOp::Run(
                RemoteCommand::PushUpstream { remote: s.config.remote_name, branch: name@ },
            ),
        ),
{
    broadcast use lemma_upon;

    let moved = with_branch(s, name@);
    let made = first_commit(unborn, name, stdout, stderr, tree, host, time, local, e);
    let found = upon(Reply::Statuses(Ok(changed)), made);
    let missed = upon(failed(stdout, stderr), found);
    reveal(sync_script);
    reveal(repository_state_script);
    reveal(auto_commit_script);
    reveal(commit_script);
    reveal(remote_script);
    conflicts_are_found(
        files,
        0,
        upon(Reply::Head(Err(unborn)), upon(Reply::Maybe(Ok(Some(reference))), missed)),
    );
    branches_without_commits_are_branches(unborn, reference, name@, e, missed);
    the_branch_is_fetched(moved.config, true, stdout, stderr, name, found);
    every_change_counts(s.config.sync_new_files, changed, i, 1, made);
    let told = upon(on_branch(name), unanswered());
    upstreams_may_be_missing(name, Some(local), local, e, told);
    heads_name_branches(name, None, e, unanswered());
}

/// The replies to a first commit, and to the question how its branch relates to its upstream.
pub open spec fn first_commit(
    unborn: GitError,
    name: String,
    stdout: Vec<u8>,
    stderr: Vec<u8>,
    tree: String,
    host: String,
    time: String,
    local: String,
    e: GitError,
) -> Seq<Reply> {
    upon(
        Reply::Done(Ok(())),
        upon(
            Reply::Text(Ok(tree)),
            upon(
                Reply::Text(Err(unborn)),
                upon(
                    Reply::HostAndTime(Ok(host), time),
                    upon(
                        succeeded(stdout, stderr),
                        upon(
                            on_branch(name),
                            upon(
                                Reply::Maybe(Ok(Some(local))),
                                upon(
                                    Reply::Maybe(Err(e)),
                                    upon(on_branch(name), unanswered()),
                                ),
                            ),
                        ),
                    ),
                ),
            ),
        ),
    )
}

/// A synchronizer goes by the branch that HEAD resolves to, and by the configured one where HEAD
/// resolves to none; nothing else of the configuration changes, and nothing is remembered yet.
pub proof fn synchronizers_go_by_the_branch_that_is_checked_out(
    repo_path: Seq<char>,
    config: SyncConfig<Seq<char>>,
    name: String,
    shorthand: Option<String>,
    e: GitError,
)
    ensures
        ({
            let on = detected(config, Ok(HeadInfo { is_branch: true, shorthand: Some(name) }));
            &&& on.branch_name == name@
            &&& on == (SyncConfig { branch_name: on.branch_name, ..config })
        }),
        detected(config, Ok(HeadInfo { is_branch: false, shorthand })) == config,
        detected(config, Ok(HeadInfo { is_branch: true, shorthand: None })) == config,
        detected(config, Err(e)) == config,
        fresh(repo_path, config).config == config,
        fresh(repo_path, config).repo_path == repo_path,
        fresh(repo_path, config).fallback_state.last_checked_target_oid is None,
{
}

/// Looking around first asks for the branch, the state and the upstream, and fails where one of
/// them cannot be told; then the synchronization takes its course.
pub proof fn inspections_come_before(
    s: Model,
    check_only: bool,
    name: String,
    entries: Vec<StatusEntry>,
    local: String,
    upstream: String,
    e: GitError,
    later: Seq<Reply>,
)
    requires
        local@ == upstream@,
    ensures
        inspect_script(s, check_only, unanswered()) == Outcome::<Synced<Seq<char>>>::Ask(
            GitOp::Head,
        ),
        ({
            let looked = |l: Seq<Reply>|
                upon(
                    on_branch(name),
                    upon(
                        Reply::Flag(Ok(false)),
                        upon(
                            Reply::Operation(Operation::Clean),
                            upon(Reply::Statuses(Ok(entries)), l),
                        ),
                    ),
                );
            &&& inspect_script(s, check_only, upon(on_branch(name), unanswered())) == Outcome::<
                Synced<Seq<char>>,
            >::Ask(GitOp::HeadDetached)
            &&& inspect_script(s, check_only, looked(unanswered())) == Outcome::<
                Synced<Seq<char>>,
            >::Ask(GitOp::Head)
            &&& inspect_script(
                s,
                check_only,
                looked(
                    upon(
                        on_branch(name),
                        upon(
                            Reply::Maybe(Ok(Some(local))),
                            upon(Reply::Maybe(Ok(Some(upstream))), later),
                        ),
                    ),
                ),
            ) == sync_script(s, check_only, later)
            &&& inspect_script(
                s,
                check_only,
                looked(upon(on_branch(name), upon(Reply::Maybe(Err(e)), later))),
            ) == Outcome::<Synced<Seq<char>>>::Done((Err(SyncError::GitError(e@)), s), later)
        }),
{
    broadcast use lemma_upon;

    reveal(inspect_script);
    reveal(current_branch_script);
    reveal(repository_state_script);
    reveal(sync_state_script);
}

/// Whether the replies take a synchronization past its checks and its fetch, on the given branch:
/// nothing is in progress, no file has conflicts, and the branch that is checked out was fetched.
pub open spec fn past_the_fetch(
    s: Model,
    h: Seq<Reply>,
    branch: CurrentBranch<Seq<char>>,
    rest: Seq<Reply>,
) -> bool {
    exists|state: RepositoryState, a: Seq<Reply>, b: Seq<Reply>, c: Seq<Reply>|
        #![trigger past_the_checks(h, state, a, b), current_branch_script(b), conceivable(c)]
        past_the_checks(h, state, a, b) && current_branch_script(b) == Outcome::<
            Attempt<CurrentBranch<Seq<char>>>,
        >::Done(Ok(branch), c) && conceivable(c) && fetch_script(
            SyncConfig { branch_name: branch.name, ..s.config },
            branch.unborn,
            c,
        ) == Outcome::<Attempt<()>>::Done(Ok(()), rest)
}

pub open spec fn past_the_checks(
    h: Seq<Reply>,
    state: RepositoryState,
    a: Seq<Reply>,
    b: Seq<Reply>,
) -> bool {
    &&& repository_state_script(h) == Outcome::<Attempt<RepositoryState>>::Done(Ok(state), a)
    &&& state == RepositoryState::Clean || state == RepositoryState::Dirty
    &&& unhandled_files_script(a) == Outcome::<
        Attempt<Option<UnhandledFileState<Seq<char>>>>,
    >::Done(Ok(None), b)
}

/// Whatever the replies to the single questions are: once the branch was fetched, local changes are
/// committed where there are any; then, where conflicts lead to fallback branches, a return is
/// tried; and how the branch that this ends on relates to its upstream decides what is done. An
/// error anywhere ends the synchronization with that error.
pub proof fn synchronizations_take_their_course(
    s: Model,
    h: Seq<Reply>,
    branch: CurrentBranch<Seq<char>>,
    d: Seq<Reply>,
    changes: bool,
    e: Seq<Reply>,
    f: Seq<Reply>,
    back: bool,
    after: Model,
    g: Seq<Reply>,
    state: SyncState,
    k: Seq<Reply>,
)
    requires
        past_the_fetch(s, h, branch, d),
        local_changes_script(s.config.sync_new_files, d) == Outcome::<Attempt<bool>>::Done(
            Ok(changes),
            e,
        ),
        changes ==> auto_commit_script(SyncConfig { branch_name: branch.name, ..s.config }, e)
            == Outcome::<Attempt<()>>::Done(Ok(()), f),
        !changes ==> f == e,
        s.config.conflict_branch ==> return_script(with_branch(s, branch.name), f) == Outcome::<
            Return<Seq<char>>,
        >::Done((Ok(back), after), g),
        !s.config.conflict_branch ==> after == with_branch(s, branch.name) && g == f,
        sync_state_script(g) == Outcome::<Attempt<SyncState>>::Done(Ok(state), k),
    ensures
        ({
            let out = sync_script(s, false, h);
            let own = after.config.branch_name;
            let remote = after.config.remote_name;
            let push = RemoteCommand::Push { remote, refspec: own + ":"@ + own };
            &&& state is Equal ==> concludes(k, out)
            &&& state is Ahead ==> goes_on_to_the_verdict(remote_script(push, k), out)
            &&& state is Behind ==> goes_on_to_the_verdict(fast_forward_script(k), out)
            &&& state is Diverged ==> rebases_and_pushes(after, own, k, out)
            &&& state is NoUpstream ==> (current_branch_script(k) matches Outcome::Done(
                Ok(current),
                l,
            ) ==> {
                let fallback = after.config.target_branch != Some(current.name) && exists|
                    r: Seq<char>,
                |
                    current.name == #[trigger] ("git-sync/"@ + r);
                &&& branch.unborn || fallback ==> goes_on_to_the_verdict(
                    remote_script(
                        RemoteCommand::PushUpstream { remote, branch: current.name },
                        l,
                    ),
                    out,
                )
                &&& !branch.unborn && !fallback ==> (out matches Outcome::Done((Err(x), _), r) && r
                    == l && x == (SyncError::<Seq<char>>::NoRemoteConfigured { branch: own }))
            })
        }),
{
    broadcast use lemma_upon;

    reveal(sync_script);
    reveal(current_branch_script);
    if let Outcome::Done(Ok(current), _) = current_branch_script(k) {
        prefixes_are_what_comes_first(current.name, "git-sync/"@, current.name);
        if exists|r: Seq<char>| current.name == #[trigger] ("git-sync/"@ + r) {
            let r = choose|r: Seq<char>| current.name == #[trigger] ("git-sync/"@ + r);
            prefixes_are_what_comes_first(current.name, "git-sync/"@, r);
        }
        if crate::sync::create::is_fallback(current.name) {
            let r = current.name.skip("git-sync/"@.len() as int);
            assert(current.name == "git-sync/"@ + r);
        }
    }
}

/// A question or a step that fails ends the synchronization with its error, wherever it stands: the
/// state, the files, the branch, the fetch, the changes, the commit, the return and the relation.
pub proof fn failures_end_the_course(
    s: Model,
    check_only: bool,
    h: Seq<Reply>,
    state: RepositoryState,
    a: Seq<Reply>,
    b: Seq<Reply>,
    branch: CurrentBranch<Seq<char>>,
    c: Seq<Reply>,
    d: Seq<Reply>,
    e: Seq<Reply>,
    x: SyncError<Seq<char>>,
    rest: Seq<Reply>,
)
    ensures
        ({
            let out = sync_script(s, check_only, h);
            let course = sync_script(s, false, h);
            let config = SyncConfig { branch_name: branch.name, ..s.config };
            let fails = |o: Outcome<Synced<Seq<char>>>|
                o matches Outcome::Done((Err(y), _), r) && y == x && r == rest;
            &&& repository_state_script(h) == Outcome::<Attempt<RepositoryState>>::Done(
                Err(x),
                rest,
            ) ==> fails(out)
            &&& repository_state_script(h) == Outcome::<Attempt<RepositoryState>>::Done(
                Ok(RepositoryState::Dirty),
                a,
            ) && unhandled_files_script(a) == Outcome::<
                Attempt<Option<UnhandledFileState<Seq<char>>>>,
            >::Done(Err(x), rest) ==> fails(out)
            &&& past_the_checks(h, state, a, b) ==> {
                &&& current_branch_script(b) == Outcome::<
                    Attempt<CurrentBranch<Seq<char>>>,
                >::Done(Err(x), rest) ==> fails(course)
                &&& current_branch_script(b) == Outcome::<
                    Attempt<CurrentBranch<Seq<char>>>,
                >::Done(Ok(branch), c) ==> {
                    &&& fetch_script(config, branch.unborn, c) == Outcome::<Attempt<()>>::Done(
                        Err(x),
                        rest,
                    ) ==> fails(course)
                    &&& fetch_script(config, branch.unborn, c) == Outcome::<Attempt<()>>::Done(
                        Ok(()),
                        d,
                    ) ==> {
                        &&& local_changes_script(config.sync_new_files, d) == Outcome::<
                            Attempt<bool>,
                        >::Done(Err(x), rest) ==> fails(course)
                        &&& local_changes_script(config.sync_new_files, d) == Outcome::<
                            Attempt<bool>,
                        >::Done(Ok(true), e) && auto_commit_script(config, e) == Outcome::<
                            Attempt<()>,
                        >::Done(Err(x), rest) ==> fails(course)
                        &&& local_changes_script(config.sync_new_files, d) == Outcome::<
                            Attempt<bool>,
                        >::Done(Ok(false), e) && !s.config.conflict_branch && sync_state_script(e)
                            == Outcome::<Attempt<SyncState>>::Done(Err(x), rest) ==> fails(course)
                    }
                }
            }
        }),
{
    reveal(sync_script);
}

/// Looking around first never changes what follows: whatever the branch, the state and the relation
/// turn out to be, the synchronization takes its course with the replies that are left.
pub proof fn inspections_make_no_difference(
    s: Model,
    check_only: bool,
    h: Seq<Reply>,
    branch: CurrentBranch<Seq<char>>,
    a: Seq<Reply>,
    state: RepositoryState,
    b: Seq<Reply>,
    relation: SyncState,
    c: Seq<Reply>,
)
    requires
        current_branch_script(h) == Outcome::<Attempt<CurrentBranch<Seq<char>>>>::Done(
            Ok(branch),
            a,
        ),
        repository_state_script(a) == Outcome::<Attempt<RepositoryState>>::Done(Ok(state), b),
        sync_state_script(b) == Outcome::<Attempt<SyncState>>::Done(Ok(relation), c),
    ensures
        inspect_script(s, check_only, h) == sync_script(s, check_only, c),
{
    reveal(inspect_script);
}

} // verus!
