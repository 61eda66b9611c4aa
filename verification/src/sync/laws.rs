//! What holds of every synchronization, whatever git replies.

use crate::sync::SyncConfig;
use crate::sync::back::{
    land_script, land_switch_script, remembering, return_oid_script, return_script,
    return_switch_script, returned, with_branch, Journey, Model, Return,
};
use crate::sync::branch::{current_branch_script, CurrentBranch};
use crate::sync::changes::local_changes_script;
use crate::sync::commit::auto_commit_script;
use crate::sync::conflict::{conflict_script, rebase_conflict};
use crate::sync::create::{
    candidate, create_fallback_script, fallback_commit_script, fallback_name, fallback_name_script,
    in_fallback_mode, is_fallback, FALLBACK_BRANCH_PREFIX,
};
use crate::sync::fetch::{branch_missing, fetch_script};
use crate::sync::forward::fast_forward_script;
use crate::sync::inspect::inspect_script;
use crate::sync::mergeable::can_merge_script;
use crate::sync::rebase::rebase_script;
use crate::sync::relation::{sync_state_script, SyncState};
use crate::sync::remote::{fetch_command, push_command, push_upstream_command, remote_script};
use crate::sync::replies::{
    last_of, leaves_the_last, lemma_auto_commit_replies, lemma_branch_replies,
    lemma_changes_replies, lemma_fetch_replies, lemma_forward_replies, lemma_last_but_first,
    lemma_last_of_last, lemma_merge_replies, lemma_rebase_replies, lemma_relation_replies,
    lemma_remote_replies, lemma_replay_replies, lemma_return_replies, lemma_state_replies,
    lemma_target_replies, lemma_unhandled_replies,
};
use crate::sync::replay::{finish_script, replay_commit_script, replay_script};
use crate::sync::run::{
    changes_known, committed_script, fetch_done, obstacle, relation_known, sync_script, transferred,
    verdict, Synced,
};
use crate::sync::state::repository_state_script;
use crate::sync::step::{
    pushes, read_only, Attempt, GitOp, Outcome, RebaseStep, RemoteCommand, Reply,
};
use crate::sync::target::{default_branch_script, target_branch_script};
use crate::sync::transport::{
    commit_result, commit_script, identity_for, mentions_missing_identity,
};
use crate::sync::unhandled::unhandled_files_script;
use crate::text::lowercased;
use crate::text::option_view;
use vstd::prelude::*;

verus! {

/// Whether an outcome asks for nothing but operations that change nothing.
pub open spec fn reads<T>(o: Outcome<T>) -> bool {
    o matches Outcome::Ask(op) ==> read_only(op)
}

/// Asking where things are changes nothing.
pub proof fn questions_are_read_only(
    h: Seq<Reply>,
    new_files: bool,
    target: Option<Seq<char>>,
    remote: Seq<char>,
    branch: Seq<char>,
)
    ensures
        reads(current_branch_script(h)),
        reads(default_branch_script(h)),
        reads(target_branch_script(target, h)),
        reads(repository_state_script(h)),
        reads(local_changes_script(new_files, h)),
        reads(unhandled_files_script(h)),
        reads(sync_state_script(h)),
        reads(can_merge_script(remote, branch, h)),
{
    reveal(current_branch_script);
    reveal(default_branch_script);
    reveal(target_branch_script);
    reveal(repository_state_script);
    reveal(local_changes_script);
    reveal(unhandled_files_script);
    reveal(sync_state_script);
    reveal(can_merge_script);
}

/// A check leaves the repository, the remote and the synchronizer as they are.
pub proof fn check_changes_nothing(s: Model, h: Seq<Reply>)
    ensures
        match sync_script(s, true, h) {
            Outcome::Ask(op) => read_only(op),
            Outcome::Done((_, after), _) => after == s,
        },
{
    reveal(sync_script);
    questions_are_read_only(h, true, None, Seq::empty(), Seq::empty());
    if let Outcome::Done(Ok(state), rest) = repository_state_script(h) {
        questions_are_read_only(rest, true, None, Seq::empty(), Seq::empty());
    }
}

/// Whether git has replied that nothing is in progress, that HEAD names a branch and that no file
/// has conflicts.
pub open spec fn cleared(h: Seq<Reply>) -> bool {
    repository_state_script(h) matches Outcome::Done(Ok(state), rest) && obstacle(state) is None
        && unhandled_files_script(rest) matches Outcome::Done(Ok(None), _)
}

/// Nothing is touched before the repository is known to be in a state to be touched; and where it
/// is not, the synchronization fails.
pub proof fn nothing_is_touched_before_it_is_safe(s: Model, check_only: bool, h: Seq<Reply>)
    ensures
        match sync_script(s, check_only, h) {
            Outcome::Ask(op) => cleared(h) || read_only(op),
            Outcome::Done((r, after), _) => cleared(h) || (r is Err && after == s),
        },
{
    reveal(sync_script);
    questions_are_read_only(h, true, None, Seq::empty(), Seq::empty());
    if let Outcome::Done(Ok(state), rest) = repository_state_script(h) {
        questions_are_read_only(rest, true, None, Seq::empty(), Seq::empty());
    }
}

/// Whether an operation is one that the configuration provides for: remote commands go to the
/// configured remote, and a refspec names the same branch on both sides; commits run or skip
/// hooks, and changes are staged with or without new files, as configured; and without fallback
/// branches no branch is created or moved by name.
pub open spec fn provided_for(op: GitOp<Seq<char>>, c: SyncConfig<Seq<char>>) -> bool {
    match op {
        GitOp::Run(RemoteCommand::Fetch { remote, .. }) => remote == c.remote_name,
        GitOp::Run(RemoteCommand::Push { remote, refspec }) => remote == c.remote_name && exists|
            branch: Seq<char>,
        |
            refspec == #[trigger] (branch + ":"@) + branch,
        GitOp::Run(RemoteCommand::PushUpstream { remote, .. }) => remote == c.remote_name,
        GitOp::Commit { skip_hooks, .. } => skip_hooks == c.skip_hooks,
        GitOp::StageAll => c.sync_new_files,
        GitOp::StageTracked => !c.sync_new_files,
        GitOp::CreateBranch { .. } => c.conflict_branch,
        GitOp::ForceReference { .. } => c.conflict_branch,
        GitOp::StartRebase { .. } => c.conflict_branch,
        _ => true,
    }
}

pub open spec fn keeps_to<T>(o: Outcome<T>, c: SyncConfig<Seq<char>>) -> bool {
    o matches Outcome::Ask(op) ==> provided_for(op, c)
}

/// Whether two configurations differ at most in the branch.
pub open spec fn same_but_branch(a: SyncConfig<Seq<char>>, b: SyncConfig<Seq<char>>) -> bool {
    a == (SyncConfig { branch_name: a.branch_name, ..b })
}

proof fn remote_commands_keep_to(c: SyncConfig<Seq<char>>, h: Seq<Reply>, branch: Seq<char>)
    ensures
        keeps_to(remote_script(fetch_command(c, branch), h), c),
        keeps_to(remote_script(push_command(c), h), c),
        keeps_to(remote_script(push_upstream_command(c, branch), h), c),
{
    reveal(remote_script);
    assert(push_command(c)->refspec == (c.branch_name + ":"@) + c.branch_name);
}

proof fn commits_keep_to(c: SyncConfig<Seq<char>>, message: Seq<char>, h: Seq<Reply>)
    ensures
        keeps_to(commit_script(message, c.skip_hooks, h), c),
{
    reveal(commit_script);
}

proof fn auto_commits_keep_to(c: SyncConfig<Seq<char>>, h: Seq<Reply>)
    ensures
        keeps_to(auto_commit_script(c, h), c),
{
    reveal(auto_commit_script);
    assert forall|message: Seq<char>, rest: Seq<Reply>|
        keeps_to(#[trigger] commit_script(message, c.skip_hooks, rest), c) by {
        commits_keep_to(c, message, rest);
    }
}

proof fn fetches_keep_to(c: SyncConfig<Seq<char>>, unborn: bool, h: Seq<Reply>)
    ensures
        keeps_to(fetch_script(c, unborn, h), c),
        fetch_script(c, unborn, h) matches Outcome::Ask(op) ==> read_only(op) || op matches
            GitOp::Run(RemoteCommand::Fetch { .. }),
{
    reveal(fetch_script);
    reveal(remote_script);
    assert forall|rest: Seq<Reply>|
        reads(#[trigger] target_branch_script(c.target_branch, rest)) by {
        questions_are_read_only(rest, true, c.target_branch, Seq::empty(), Seq::empty());
    }
}

proof fn replays_keep_to(c: SyncConfig<Seq<char>>, h: Seq<Reply>)
    ensures
        keeps_to(replay_script(h), c),
        keeps_to(replay_commit_script(h), c),
        replay_script(h) matches Outcome::Ask(op) ==> !pushes(op),
        replay_commit_script(h) matches Outcome::Ask(op) ==> !pushes(op),
    decreases h.len(),
{
    reveal_with_fuel(replay_script, 2);
    reveal_with_fuel(replay_commit_script, 2);
    if h.len() > 0 {
        replays_keep_to(c, h.skip(1));
    }
}

proof fn conflicts_keep_to(c: SyncConfig<Seq<char>>, h: Seq<Reply>)
    ensures
        keeps_to(conflict_script(c, h), c),
{
    reveal(conflict_script);
    reveal(create_fallback_script);
    assert forall|name: Seq<char>, n: u64, rest: Seq<Reply>|
        c.conflict_branch implies keeps_to(#[trigger] fallback_name_script(name, n, rest), c) by {
        names_are_found_first(name, n, rest);
    }
    assert forall|rest: Seq<Reply>|
        reads(#[trigger] local_changes_script(c.sync_new_files, rest)) by {
        questions_are_read_only(rest, c.sync_new_files, None, Seq::empty(), Seq::empty());
    }
    assert forall|rest: Seq<Reply>| keeps_to(#[trigger] auto_commit_script(c, rest), c) by {
        auto_commits_keep_to(c, rest);
    }
    assert forall|branch: Seq<char>, rest: Seq<Reply>|
        keeps_to(#[trigger] remote_script(push_upstream_command(c, branch), rest), c) by {
        remote_commands_keep_to(c, rest, branch);
    }
}

proof fn rebases_keep_to(c: SyncConfig<Seq<char>>, h: Seq<Reply>)
    ensures
        keeps_to(rebase_script(c, h), c),
{
    reveal(rebase_script);
    questions_are_read_only(h, true, None, Seq::empty(), Seq::empty());
    assert forall|rest: Seq<Reply>| keeps_to(#[trigger] replay_script(rest), c) by {
        replays_keep_to(c, rest);
    }
    assert forall|rest: Seq<Reply>| keeps_to(#[trigger] conflict_script(c, rest), c) by {
        conflicts_keep_to(c, rest);
    }
}

proof fn forwards_keep_to(c: SyncConfig<Seq<char>>, h: Seq<Reply>)
    ensures
        keeps_to(fast_forward_script(h), c),
{
    reveal(fast_forward_script);
    questions_are_read_only(h, true, None, Seq::empty(), Seq::empty());
}

proof fn returns_keep_to(s: Model, h: Seq<Reply>)
    requires
        s.config.conflict_branch,
    ensures
        keeps_to(return_script(s, h), s.config),
        return_script(s, h) matches Outcome::Done((_, after), _) ==> same_but_branch(
            after.config,
            s.config,
        ) && after.repo_path == s.repo_path,
{
    reveal(return_script);
    assert forall|rest: Seq<Reply>| reads(#[trigger] current_branch_script(rest)) by {
        questions_are_read_only(rest, true, None, Seq::empty(), Seq::empty());
    }
    assert forall|rest: Seq<Reply>|
        reads(#[trigger] target_branch_script(s.config.target_branch, rest)) by {
        questions_are_read_only(rest, true, s.config.target_branch, Seq::empty(), Seq::empty());
    }
    assert forall|branch: Seq<char>, rest: Seq<Reply>|
        reads(#[trigger] can_merge_script(s.config.remote_name, branch, rest)) by {
        questions_are_read_only(rest, true, None, s.config.remote_name, branch);
    }
    assert forall|rest: Seq<Reply>| keeps_to(#[trigger] replay_script(rest), s.config) by {
        replays_keep_to(s.config, rest);
    }
}

/// Whether an outcome keeps to the configuration of `s` and leaves all of `s` as it is but for
/// the branch and what is remembered.
pub open spec fn orderly(o: Outcome<Synced<Seq<char>>>, s: Model) -> bool {
    match o {
        Outcome::Ask(op) => provided_for(op, s.config),
        Outcome::Done((_, after), _) => same_but_branch(after.config, s.config) && after.repo_path
            == s.repo_path,
    }
}

proof fn transfers_are_orderly(s: Model, o: Outcome<Attempt<()>>)
    requires
        keeps_to(o, s.config),
    ensures
        orderly(transferred(s, o), s),
{
    if let Outcome::Done(Ok(_), rest) = o {
        questions_are_read_only(rest, true, None, Seq::empty(), Seq::empty());
    }
}

proof fn exchanges_are_orderly(s: Model, unborn: bool, h: Seq<Reply>)
    ensures
        orderly(relation_known(s, unborn, sync_state_script(h)), s),
{
    assert forall|rest: Seq<Reply>| reads(#[trigger] current_branch_script(rest)) by {
        questions_are_read_only(rest, true, None, Seq::empty(), Seq::empty());
    }
    assert forall|rest: Seq<Reply>| reads(#[trigger] sync_state_script(rest)) by {
        questions_are_read_only(rest, true, None, Seq::empty(), Seq::empty());
    }
    if let Outcome::Done(Ok(state), rest) = sync_state_script(h) {
        match state {
            SyncState::Equal => {},
            SyncState::Ahead(_) => {
                remote_commands_keep_to(s.config, rest, s.config.branch_name);
                transfers_are_orderly(s, remote_script(push_command(s.config), rest));
            },
            SyncState::Behind(_) => {
                forwards_keep_to(s.config, rest);
                transfers_are_orderly(s, fast_forward_script(rest));
            },
            SyncState::Diverged { .. } => {
                rebases_keep_to(s.config, rest);
                if let Outcome::Done(Ok(_), rest) = rebase_script(s.config, rest) {
                    if let Outcome::Done(Ok(branch), rest) = current_branch_script(rest) {
                        let moved = with_branch(s, branch.name);
                        remote_commands_keep_to(moved.config, rest, branch.name);
                        transfers_are_orderly(
                            moved,
                            remote_script(push_command(moved.config), rest),
                        );
                    }
                }
            },
            SyncState::NoUpstream => {
                if let Outcome::Done(Ok(branch), rest) = current_branch_script(rest) {
                    remote_commands_keep_to(s.config, rest, branch.name);
                    transfers_are_orderly(
                        s,
                        remote_script(push_upstream_command(s.config, branch.name), rest),
                    );
                }
            },
        }
    }
}

proof fn committed_work_is_orderly(s: Model, unborn: bool, h: Seq<Reply>)
    ensures
        orderly(committed_script(s, unborn, h), s),
{
    if s.config.conflict_branch {
        returns_keep_to(s, h);
        if let Outcome::Done((Ok(_), after), rest) = return_script(s, h) {
            exchanges_are_orderly(after, unborn, rest);
        }
    } else {
        exchanges_are_orderly(s, unborn, h);
    }
}

proof fn local_work_is_orderly(s: Model, unborn: bool, h: Seq<Reply>)
    ensures
        orderly(
            changes_known(s, unborn, local_changes_script(s.config.sync_new_files, h)),
            s,
        ),
{
    questions_are_read_only(h, s.config.sync_new_files, None, Seq::empty(), Seq::empty());
    if let Outcome::Done(Ok(changes), rest) = local_changes_script(s.config.sync_new_files, h) {
        if changes {
            auto_commits_keep_to(s.config, rest);
            if let Outcome::Done(Ok(_), rest) = auto_commit_script(s.config, rest) {
                committed_work_is_orderly(s, unborn, rest);
            }
        } else {
            committed_work_is_orderly(s, unborn, rest);
        }
    }
}

proof fn fetched_work_is_orderly(s: Model, unborn: bool, h: Seq<Reply>)
    ensures
        orderly(fetch_done(s, unborn, fetch_script(s.config, unborn, h)), s),
{
    fetches_keep_to(s.config, unborn, h);
    if let Outcome::Done(Ok(_), rest) = fetch_script(s.config, unborn, h) {
        local_work_is_orderly(s, unborn, rest);
    }
}

/// A synchronization keeps to its configuration, and changes nothing of it but the branch.
pub proof fn sync_keeps_to_its_configuration(s: Model, check_only: bool, h: Seq<Reply>)
    ensures
        match sync_script(s, check_only, h) {
            Outcome::Ask(op) => provided_for(op, s.config),
            Outcome::Done((_, after), _) => same_but_branch(after.config, s.config)
                && after.repo_path == s.repo_path,
        },
{
    reveal(sync_script);
    questions_are_read_only(h, true, None, Seq::empty(), Seq::empty());
    if let Outcome::Done(Ok(_), rest) = repository_state_script(h) {
        questions_are_read_only(rest, true, None, Seq::empty(), Seq::empty());
        if let Outcome::Done(Ok(None), rest) = unhandled_files_script(rest) {
            questions_are_read_only(rest, true, None, Seq::empty(), Seq::empty());
            if let Outcome::Done(Ok(branch), rest) = current_branch_script(rest) {
                fetched_work_is_orderly(with_branch(s, branch.name), branch.unborn, rest);
            }
        }
    }
}

/// The branch that a synchronization starts on, and the replies that follow, once it is known.
pub open spec fn started_on(h: Seq<Reply>) -> Option<(CurrentBranch<Seq<char>>, Seq<Reply>)> {
    match repository_state_script(h) {
        Outcome::Done(Ok(_), rest) => match unhandled_files_script(rest) {
            Outcome::Done(Ok(None), rest) => match current_branch_script(rest) {
                Outcome::Done(Ok(branch), rest) => Some((branch, rest)),
                _ => None,
            },
            _ => None,
        },
        _ => None,
    }
}

/// Whether the branch that is checked out was fetched from the configured remote; or the remote
/// turned out not to have it, where the branch has no commits here either.
pub open spec fn fetched_first(s: Model, h: Seq<Reply>) -> bool {
    started_on(h) matches Some((branch, rest)) && rest.len() > 0 && {
        let r = remote_script(
            fetch_command(s.config, branch.name),
            rest.take(1),
        );
        r matches Outcome::Done(r, _) && (r is Ok || (branch.unborn && branch_missing(r)))
    }
}

proof fn fetch_begins_with_the_branch(c: SyncConfig<Seq<char>>, unborn: bool, h: Seq<Reply>)
    ensures
        h.len() == 0 ==> fetch_script(c, unborn, h) is Ask,
        fetch_script(c, unborn, h) matches Outcome::Done(Ok(_), _) ==> {
            remote_script(fetch_command(c, c.branch_name), h.take(1)) matches Outcome::Done(r, _)
                && (r is Ok || (unborn && branch_missing(r)))
        },
{
    reveal(fetch_script);
    reveal(remote_script);
    if h.len() > 0 {
        assert(h.take(1)[0] == h[0]);
    }
}

/// Nothing but a fetch touches the repository or the remote before the branch that is checked out
/// was fetched; and without that, no synchronization succeeds.
pub proof fn nothing_is_changed_before_the_fetch(s: Model, h: Seq<Reply>)
    ensures
        match sync_script(s, false, h) {
            Outcome::Ask(op) => fetched_first(s, h) || read_only(op) || op matches GitOp::Run(
                RemoteCommand::Fetch { .. },
            ),
            Outcome::Done((r, _), _) => fetched_first(s, h) || r is Err,
        },
{
    reveal(sync_script);
    questions_are_read_only(h, true, None, Seq::empty(), Seq::empty());
    if let Outcome::Done(Ok(_), rest) = repository_state_script(h) {
        questions_are_read_only(rest, true, None, Seq::empty(), Seq::empty());
        if let Outcome::Done(Ok(None), rest) = unhandled_files_script(rest) {
            questions_are_read_only(rest, true, None, Seq::empty(), Seq::empty());
            if let Outcome::Done(Ok(branch), rest) = current_branch_script(rest) {
                let c = with_branch(s, branch.name).config;
                fetches_keep_to(c, branch.unborn, rest);
                fetch_begins_with_the_branch(c, branch.unborn, rest);
                assert(fetch_command(c, branch.name) == fetch_command(s.config, branch.name));
            }
        }
    }
}

/// Whether the last thing that git was asked for is how the branch relates to its upstream, and
/// they turned out to be equal, or the branch to have no upstream.
pub open spec fn ended_in_sync(tail: Seq<Reply>, rest: Seq<Reply>) -> bool {
    sync_state_script(tail) matches Outcome::Done(Ok(state), r) && r == rest && (state
        == SyncState::Equal || state == SyncState::NoUpstream)
}

/// Whether a synchronization that succeeded has looked last, from some reply on, how the branch
/// relates to its upstream, and was told that they are equal or that there is no upstream.
pub open spec fn successes_end_in_sync(o: Outcome<Synced<Seq<char>>>, h: Seq<Reply>) -> bool {
    o matches Outcome::Done((Ok(_), _), rest) ==> exists|n: int|
        0 <= n <= h.len() && ended_in_sync(#[trigger] h.skip(n), rest)
}

proof fn verdicts_end_in_sync(s: Model, t: Seq<Reply>, h: Seq<Reply>)
    requires
        last_of(t, h),
    ensures
        successes_end_in_sync(verdict(s, sync_state_script(t)), h),
{
    reveal(last_of);
    if let Outcome::Done((Ok(_), _), rest) = verdict(s, sync_state_script(t)) {
        assert(ended_in_sync(h.skip(h.len() - t.len()), rest));
    }
}

proof fn transfers_end_in_sync(s: Model, o: Outcome<Attempt<()>>, h: Seq<Reply>)
    requires
        leaves_the_last(o, h),
    ensures
        successes_end_in_sync(transferred(s, o), h),
{
    if let Outcome::Done(Ok(_), t) = o {
        verdicts_end_in_sync(s, t, h);
    }
}

proof fn exchanges_end_in_sync(s: Model, unborn: bool, t: Seq<Reply>, h: Seq<Reply>)
    requires
        last_of(t, h),
    ensures
        successes_end_in_sync(relation_known(s, unborn, sync_state_script(t)), h),
{
    broadcast use {
        lemma_last_of_last,
        lemma_relation_replies,
        lemma_remote_replies,
        lemma_forward_replies,
        lemma_rebase_replies,
        lemma_branch_replies,
    };

    if let Outcome::Done(Ok(state), t) = sync_state_script(t) {
        match state {
            SyncState::Equal => {
                verdicts_end_in_sync(s, t, h);
            },
            SyncState::Ahead(_) => {
                transfers_end_in_sync(s, remote_script(push_command(s.config), t), h);
            },
            SyncState::Behind(_) => {
                transfers_end_in_sync(s, fast_forward_script(t), h);
            },
            SyncState::Diverged { .. } => {
                if let Outcome::Done(Ok(_), t) = rebase_script(s.config, t) {
                    if let Outcome::Done(Ok(branch), t) = current_branch_script(t) {
                        let moved = with_branch(s, branch.name);
                        transfers_end_in_sync(
                            moved,
                            remote_script(push_command(moved.config), t),
                            h,
                        );
                    }
                }
            },
            SyncState::NoUpstream => {
                if let Outcome::Done(Ok(branch), t) = current_branch_script(t) {
                    transfers_end_in_sync(
                        s,
                        remote_script(push_upstream_command(s.config, branch.name), t),
                        h,
                    );
                }
            },
        }
    }
}

proof fn committed_work_ends_in_sync(s: Model, unborn: bool, t: Seq<Reply>, h: Seq<Reply>)
    requires
        last_of(t, h),
    ensures
        successes_end_in_sync(committed_script(s, unborn, t), h),
{
    broadcast use {lemma_last_of_last, lemma_return_replies};

    if s.config.conflict_branch {
        if let Outcome::Done((Ok(_), after), t) = return_script(s, t) {
            exchanges_end_in_sync(after, unborn, t, h);
        }
    } else {
        exchanges_end_in_sync(s, unborn, t, h);
    }
}

/// A synchronization that succeeds has looked last how the branch that is checked out relates to
/// its upstream, and was told that they are equal, or that the branch has no upstream.
pub proof fn success_means_in_sync(s: Model, h: Seq<Reply>)
    ensures
        sync_script(s, false, h) matches Outcome::Done((Ok(_), _), rest) ==> exists|n: int|
            0 <= n <= h.len() && ended_in_sync(#[trigger] h.skip(n), rest),
{
    broadcast use {
        lemma_last_of_last,
        lemma_state_replies,
        lemma_unhandled_replies,
        lemma_branch_replies,
        lemma_fetch_replies,
        lemma_changes_replies,
        lemma_auto_commit_replies,
    };

    reveal(sync_script);
    if let Some((branch, t)) = started_on(h) {
        let s = with_branch(s, branch.name);
        if let Outcome::Done(Ok(_), t) = fetch_script(s.config, branch.unborn, t) {
            if let Outcome::Done(Ok(changes), t) = local_changes_script(
                s.config.sync_new_files,
                t,
            ) {
                if changes {
                    if let Outcome::Done(Ok(_), t) = auto_commit_script(s.config, t) {
                        committed_work_ends_in_sync(s, branch.unborn, t, h);
                    }
                } else {
                    committed_work_ends_in_sync(s, branch.unborn, t, h);
                }
            }
        }
    }
}

/// A commit of the rebase that left conflicts.
pub open spec fn conflicting(reply: Reply) -> bool {
    reply matches Reply::Rebase(Ok(RebaseStep::Applied { conflicts: true }))
}

/// Whether an outcome, where it is over without an error, has used up some first part of the
/// replies: one without a conflict where the rebase was completed, and one whose last reply but
/// one is a conflict where it was not.
pub open spec fn stops_at_conflicts(h: Seq<Reply>, o: Outcome<Attempt<bool>>) -> bool {
    o matches Outcome::Done(Ok(completed), rest) ==> {
        let used = h.len() - rest.len();
        &&& 0 < used
        &&& rest == h.skip(used)
        &&& completed ==> forall|i: int| 0 <= i < used ==> !conflicting(#[trigger] h[i])
        &&& !completed ==> used >= 2 && conflicting(h[used - 2])
    }
}

proof fn one_more_reply_without_conflict(h: Seq<Reply>, o: Outcome<Attempt<bool>>)
    requires
        h.len() > 0,
        !conflicting(h[0]),
        stops_at_conflicts(h.skip(1), o),
    ensures
        stops_at_conflicts(h, o),
{
    if let Outcome::Done(Ok(completed), rest) = o {
        let t = h.skip(1);
        let used = h.len() - rest.len();
        assert(t.skip(used - 1) =~= h.skip(used));
        assert forall|i: int| completed && 0 <= i < used implies !conflicting(#[trigger] h[i]) by {
            if i > 0 {
                assert(t[i - 1] == h[i]);
            }
        }
    }
}

proof fn completion_meets_no_conflict(h: Seq<Reply>)
    ensures
        stops_at_conflicts(h, finish_script(h)),
{
    if h.len() > 2 {
        assert(h.skip(1).skip(1).skip(1) =~= h.skip(3));
        assert(h.skip(1)[0] == h[1]);
        assert(h.skip(1).skip(1)[0] == h[2]);
    }
}

/// The commits of a rebase are all applied only where none of them leaves conflicts; where one
/// does, the rebase is given up right after.
pub proof fn replay_stops_at_the_first_conflict(h: Seq<Reply>)
    ensures
        stops_at_conflicts(h, replay_script(h)),
        stops_at_conflicts(h, replay_commit_script(h)),
    decreases h.len(),
{
    reveal_with_fuel(replay_script, 2);
    reveal_with_fuel(replay_commit_script, 2);
    if h.len() > 0 {
        let t = h.skip(1);
        replay_stops_at_the_first_conflict(t);
        completion_meets_no_conflict(t);
        if conflicting(h[0]) {
            if t.len() > 0 {
                assert(t.skip(1) =~= h.skip(2));
            }
        } else {
            if stops_at_conflicts(t, replay_script(h)) {
                one_more_reply_without_conflict(h, replay_script(h));
            }
            if stops_at_conflicts(t, replay_commit_script(h)) {
                one_more_reply_without_conflict(h, replay_commit_script(h));
            }
        }
    }
}

/// Without fallback branches a rebase never pushes, creates no branch and checks none out; where
/// it meets conflicts, it is given up and the user has to resolve them.
pub proof fn conflicts_are_left_to_the_user(c: SyncConfig<Seq<char>>, h: Seq<Reply>)
    requires
        !c.conflict_branch,
    ensures
        conflict_script(c, h) == Outcome::<Attempt<()>>::Done(Err(rebase_conflict()), h),
        stays_put(rebase_script(c, h)),
{
    reveal(conflict_script);
    reveal(rebase_script);
    questions_are_read_only(h, true, None, Seq::empty(), Seq::empty());
    assert forall|rest: Seq<Reply>| stays_put(#[trigger] replay_script(rest)) by {
        replays_stay_put(rest);
    }
}

/// Whether an outcome asks neither for a push nor for a branch to be created or checked out.
pub open spec fn stays_put<T>(o: Outcome<T>) -> bool {
    o matches Outcome::Ask(op) ==> !pushes(op) && !(op is CreateBranch) && !(op is SetHead)
}

proof fn replays_stay_put(h: Seq<Reply>)
    ensures
        stays_put(replay_script(h)),
        stays_put(replay_commit_script(h)),
    decreases h.len(),
{
    reveal_with_fuel(replay_script, 2);
    reveal_with_fuel(replay_commit_script, 2);
    if h.len() > 0 {
        replays_stay_put(h.skip(1));
    }
}

/// The name that is free for a fallback branch, and the replies that follow, once it is known:
/// that of the first candidate, from the one with the given number on, that no branch has, or of
/// the last that can be counted.
pub open spec fn free_name(name: Seq<char>, n: u64, h: Seq<Reply>) -> Option<(u64, Seq<Reply>)>
    decreases h.len(),
{
    if h.len() == 0 {
        None
    } else {
        match h[0] {
            Reply::Flag(Ok(taken)) => if taken && n < u64::MAX {
                free_name(name, (n + 1) as u64, h.skip(1))
            } else {
                Some((n, h.skip(1)))
            },
            _ => None,
        }
    }
}

proof fn candidates_are_fallback_branches(host: Result<String, String>, time: Seq<char>, n: u64)
    ensures
        is_fallback(candidate(fallback_name(host, time), n)),
{
    let name = candidate(fallback_name(host, time), n);
    assert(name.take(FALLBACK_BRANCH_PREFIX@.len() as int) =~= FALLBACK_BRANCH_PREFIX@);
}

proof fn names_are_found_first(name: Seq<char>, n: u64, h: Seq<Reply>)
    ensures
        match free_name(name, n, h) {
            Some((found, rest)) => fallback_name_script(name, n, h) == fallback_commit_script(
                candidate(name, found),
                rest,
            ),
            None => match fallback_name_script(name, n, h) {
                Outcome::Ask(op) => op is BranchExists,
                Outcome::Done(r, _) => r is Err,
            },
        },
    decreases h.len(),
{
    if h.len() > 0 && n < u64::MAX {
        names_are_found_first(name, (n + 1) as u64, h.skip(1));
    }
}

/// A fallback branch is named after the prefix of fallback branches, the machine and the time,
/// and has a number where there are branches of that name; what is created, and what is checked
/// out, is the branch of the first such name that is free, at the commit that HEAD resolved to.
pub proof fn fallback_branches_are_named_after_the_machine(h: Seq<Reply>)
    ensures
        create_fallback_script(h) matches Outcome::Done(Ok(name), _) ==> {
            &&& is_fallback(name)
            &&& h[0] matches Reply::HostAndTime(host, time) && free_name(
                fallback_name(host, time@),
                1,
                h.skip(1),
            ) matches Some((n, _)) && name == candidate(fallback_name(host, time@), n)
        },
        create_fallback_script(h) matches Outcome::Ask(GitOp::CreateBranch { branch, oid }) ==> {
            &&& is_fallback(branch)
            &&& h[0] matches Reply::HostAndTime(host, time) && free_name(
                fallback_name(host, time@),
                1,
                h.skip(1),
            ) matches Some((n, rest)) && branch == candidate(fallback_name(host, time@), n) && (
            rest[0] matches Reply::Text(Ok(head)) && oid == head@)
        },
{
    reveal(create_fallback_script);
    if h.len() > 0 {
        if let Reply::HostAndTime(host, time) = h[0] {
            let name = fallback_name(host, time@);
            names_are_found_first(name, 1, h.skip(1));
            if let Some((n, rest)) = free_name(name, 1, h.skip(1)) {
                candidates_are_fallback_branches(host, time@, n);
            }
        }
    }
}

/// No branch is created in the place of another: a fallback branch has a name of which git said
/// that there is no such branch, unless it said of as many names as can be counted that there is
/// one.
pub proof fn fallback_branches_take_no_name_twice(name: Seq<char>, n: u64, h: Seq<Reply>)
    requires
        free_name(name, n, h) matches Some((found, _)) && found < u64::MAX,
    ensures
        free_name(name, n, h) matches Some((found, rest)) && {
            &&& n <= found < n + h.len()
            &&& rest == h.skip(found - n + 1)
            &&& h[found - n] == Reply::Flag(Ok(false))
            &&& forall|i: int| 0 <= i < found - n ==> #[trigger] h[i] == Reply::Flag(Ok(true))
        },
    decreases h.len(),
{
    if h.len() > 0 && h[0] == Reply::Flag(Ok(true)) {
        let (found, rest) = free_name(name, n, h)->0;
        fallback_branches_take_no_name_twice(name, (n + 1) as u64, h.skip(1));
        assert(rest =~= h.skip(1).skip(found - n));
        assert(rest =~= h.skip(found - n + 1));
        assert forall|i: int| 0 <= i < found - n implies #[trigger] h[i] == Reply::Flag(
            Ok(true),
        ) by {
            if i > 0 {
                assert(h.skip(1)[i - 1] == h[i]);
            }
        }
    }
}

/// Where the target branch has not moved since returning to it was last found to be impossible,
/// nothing is tried.
pub proof fn unmoved_targets_are_not_tried_again(
    s: Model,
    target: Seq<char>,
    oid: String,
    later: Seq<Reply>,
)
    requires
        s.fallback_state.last_checked_target_oid == Some(oid@),
    ensures
        return_oid_script(s, target, seq![Reply::Maybe(Ok(Some(oid)))] + later) == Outcome::<
            Return<Seq<char>>,
        >::Done((Ok(false), s), later),
{
    let h = seq![Reply::Maybe(Ok(Some(oid)))] + later;
    assert(h[0] == Reply::Maybe(Ok(Some(oid))));
    assert(h.skip(1) =~= later);
}

/// The branch that a fallback branch is to be left for, and the replies that follow, once it is
/// known.
pub open spec fn bound_for(s: Model, h: Seq<Reply>) -> Option<(Seq<char>, Seq<Reply>)> {
    match current_branch_script(h) {
        Outcome::Done(Ok(branch), rest) => if in_fallback_mode(
            branch.name,
            s.config.target_branch,
        ) {
            match target_branch_script(s.config.target_branch, rest) {
                Outcome::Done(Ok(target), rest) => if target == branch.name {
                    None
                } else {
                    Some((target, rest))
                },
                _ => None,
            }
        } else {
            None
        },
        _ => None,
    }
}

/// A return that succeeds ends on the branch that the repository should be on, with nothing left
/// to remember. One that does not leaves the synchronizer as it was but for the branch that it was
/// found on, or remembers where the target branch is on the remote.
pub proof fn returns_end_on_the_target_or_remember(s: Model, h: Seq<Reply>)
    ensures
        return_script(s, h) matches Outcome::Done((Ok(back), after), _) ==> {
            &&& back ==> (bound_for(s, h) matches Some((target, _)) && after == remembering(
                with_branch(s, target),
                None,
            ))
            &&& !back ==> after == s || (bound_for(s, h) matches Some((_, rest)) && (after
                == with_branch(s, after.config.branch_name) || (rest[0] matches Reply::Maybe(
                Ok(Some(oid)),
            ) && after == remembering(s, Some(oid@)))))
        },
{
    reveal(return_script);
    reveal(replay_script);
}

/// A fast-forward moves HEAD and the working tree to the object that the upstream points at, and
/// nowhere else.
pub proof fn fast_forwards_go_to_the_upstream(h: Seq<Reply>)
    ensures
        fast_forward_script(h) matches Outcome::Ask(op) ==> match op {
            GitOp::SetHeadTarget { oid, .. } => upstream_of(h) == Some(oid),
            GitOp::CheckoutTree { oid } => upstream_of(h) == Some(oid),
            _ => read_only(op) || op is SetHead,
        },
        fast_forward_script(h) matches Outcome::Done(Ok(_), _) ==> upstream_of(h) is Some,
{
    reveal(fast_forward_script);
    questions_are_read_only(h, true, None, Seq::empty(), Seq::empty());
}

/// The object that the upstream of the branch that is checked out was found to point at.
pub open spec fn upstream_of(h: Seq<Reply>) -> Option<Seq<char>> {
    match current_branch_script(h) {
        Outcome::Done(Ok(_), rest) => if rest.len() > 0 {
            match rest[0] {
                Reply::Maybe(Ok(Some(oid))) => Some(oid@),
                _ => None,
            }
        } else {
            None
        },
        _ => None,
    }
}

/// Looking around and checking leaves the repository, the remote and the synchronizer as they
/// are.
pub proof fn inspection_changes_nothing(s: Model, h: Seq<Reply>)
    ensures
        match inspect_script(s, true, h) {
            Outcome::Ask(op) => read_only(op),
            Outcome::Done((_, after), _) => after == s,
        },
{
    reveal(inspect_script);
    assert forall|rest: Seq<Reply>| reads(#[trigger] current_branch_script(rest)) by {
        questions_are_read_only(rest, true, None, Seq::empty(), Seq::empty());
    }
    assert forall|rest: Seq<Reply>| reads(#[trigger] repository_state_script(rest)) by {
        questions_are_read_only(rest, true, None, Seq::empty(), Seq::empty());
    }
    assert forall|rest: Seq<Reply>| reads(#[trigger] sync_state_script(rest)) by {
        questions_are_read_only(rest, true, None, Seq::empty(), Seq::empty());
    }
    if let Outcome::Done(Ok(_), rest) = current_branch_script(h) {
        if let Outcome::Done(Ok(_), rest) = repository_state_script(rest) {
            if let Outcome::Done(Ok(_), rest) = sync_state_script(rest) {
                check_changes_nothing(s, rest);
            }
        }
    }
}

/// The synchronizer once the branch that is checked out was fetched, and the replies that follow.
pub open spec fn after_fetch(s: Model, h: Seq<Reply>) -> Option<(Model, Seq<Reply>)> {
    match started_on(h) {
        Some((branch, rest)) => {
            let s = with_branch(s, branch.name);
            match fetch_script(s.config, branch.unborn, rest) {
                Outcome::Done(Ok(_), rest) => Some((s, rest)),
                _ => None,
            }
        },
        None => None,
    }
}

/// Whether there turned out to be no local changes, or they were committed.
pub open spec fn work_is_committed(s: Model, h: Seq<Reply>) -> bool {
    match after_fetch(s, h) {
        Some((s, rest)) => match local_changes_script(s.config.sync_new_files, rest) {
            Outcome::Done(Ok(changes), rest) => changes ==> (auto_commit_script(
                s.config,
                rest,
            ) matches Outcome::Done(Ok(_), _)),
            _ => false,
        },
        None => false,
    }
}

/// Operations that put other contents in the place of those in the working tree.
pub open spec fn overwrites<S>(op: GitOp<S>) -> bool {
    match op {
        GitOp::SetHeadTarget { .. } => true,
        GitOp::SetHead { .. } => true,
        GitOp::CheckoutTree { .. } => true,
        GitOp::CheckoutHead => true,
        GitOp::StartRebaseOntoUpstream { .. } => true,
        GitOp::StartRebase { .. } => true,
        GitOp::NextRebaseStep => true,
        GitOp::AbortRebase => true,
        _ => false,
    }
}

pub open spec fn overwrites_nothing<T>(o: Outcome<T>) -> bool {
    o matches Outcome::Ask(op) ==> !overwrites(op)
}

proof fn commits_overwrite_nothing(c: SyncConfig<Seq<char>>, h: Seq<Reply>)
    ensures
        overwrites_nothing(auto_commit_script(c, h)),
{
    reveal(auto_commit_script);
    reveal(commit_script);
}

/// Nothing in the working tree is overwritten, no other branch is checked out and no rebase is
/// begun before the local changes are committed; and without that, no synchronization succeeds.
pub proof fn nothing_is_overwritten_before_it_is_committed(
    s: Model,
    check_only: bool,
    h: Seq<Reply>,
)
    ensures
        match sync_script(s, check_only, h) {
            Outcome::Ask(op) => work_is_committed(s, h) || !overwrites(op),
            Outcome::Done((r, _), _) => work_is_committed(s, h) || check_only || r is Err,
        },
{
    reveal(sync_script);
    assert forall|rest: Seq<Reply>| reads(#[trigger] current_branch_script(rest)) by {
        questions_are_read_only(rest, true, None, Seq::empty(), Seq::empty());
    }
    assert forall|rest: Seq<Reply>| reads(#[trigger] repository_state_script(rest)) by {
        questions_are_read_only(rest, true, None, Seq::empty(), Seq::empty());
    }
    assert forall|rest: Seq<Reply>| reads(#[trigger] unhandled_files_script(rest)) by {
        questions_are_read_only(rest, true, None, Seq::empty(), Seq::empty());
    }
    assert forall|new_files: bool, rest: Seq<Reply>|
        reads(#[trigger] local_changes_script(new_files, rest)) by {
        questions_are_read_only(rest, new_files, None, Seq::empty(), Seq::empty());
    }
    assert forall|c: SyncConfig<Seq<char>>, rest: Seq<Reply>|
        overwrites_nothing(#[trigger] auto_commit_script(c, rest)) by {
        commits_overwrite_nothing(c, rest);
    }
    if let Some((branch, rest)) = started_on(h) {
        fetches_keep_to(with_branch(s, branch.name).config, branch.unborn, rest);
    }
}

/// A commit is tried as it was asked for, and once more only where git knew no name and address
/// to commit under, then with those of the user and the machine.
pub proof fn commits_are_retried_only_for_want_of_an_identity(
    message: Seq<char>,
    skip_hooks: bool,
    h: Seq<Reply>,
)
    ensures
        commit_script(message, skip_hooks, h) matches Outcome::Ask(op) ==> match op {
            GitOp::Commit { message: m, skip_hooks: s, identity } => {
                &&& m == message
                &&& s == skip_hooks
                &&& identity is None <==> h.len() == 0
                &&& identity matches Some(identity) ==> {
                    &&& h.len() == 2
                    &&& h[0] matches Reply::Output(Ok(output)) && commit_result(output) matches Err(
                        written,
                    ) && mentions_missing_identity(lowercased(written))
                    &&& h[1] matches Reply::UserAndHost(user, host) && identity == identity_for(
                        option_view(user),
                        option_view(host),
                    )
                }
            },
            _ => op == GitOp::<Seq<char>>::UserAndHost && h.len() == 1,
        },
{
    reveal(commit_script);
}

/// Where conflicts are handled by a fallback branch, success means that the branch was created
/// under the name of a fallback branch and has reached the remote, with all local changes
/// committed.
pub proof fn conflicting_work_reaches_the_remote(c: SyncConfig<Seq<char>>, h: Seq<Reply>)
    requires
        c.conflict_branch,
    ensures
        conflict_script(c, h) matches Outcome::Done(Ok(_), rest) ==> {
            &&& create_fallback_script(h) matches Outcome::Done(Ok(name), created) && {
                &&& is_fallback(name)
                &&& local_changes_script(c.sync_new_files, created) matches Outcome::Done(
                    Ok(changes),
                    known,
                ) && {
                    let push = push_upstream_command(c, name);
                    &&& changes ==> (auto_commit_script(c, known) matches Outcome::Done(
                        Ok(_),
                        committed,
                    ) && (remote_script(push, committed) matches Outcome::Done(Ok(_), r) && r
                        == rest))
                    &&& !changes ==> (remote_script(push, known) matches Outcome::Done(Ok(_), r)
                        && r == rest)
                }
            }
        },
{
    reveal(conflict_script);
    fallback_branches_are_named_after_the_machine(h);
}

/// Whether the last two things that were asked for are to make HEAD name the target branch and to
/// check it out.
pub open spec fn ended_on_target(
    j: Journey<Seq<char>>,
    tail: Seq<Reply>,
    rest: Seq<Reply>,
    after: Model,
) -> bool {
    &&& tail.len() == rest.len() + 2
    &&& return_switch_script(j, tail) == returned(Ok(true), after, rest) || land_switch_script(
        j,
        tail,
    ) == returned(Ok(true), after, rest)
}

/// Whether a return that succeeded has asked last, from some reply on, for the target branch of a
/// journey to be checked out.
pub open spec fn arrivals_end_on_target(
    j: Journey<Seq<char>>,
    o: Outcome<Return<Seq<char>>>,
    h: Seq<Reply>,
) -> bool {
    o matches Outcome::Done((Ok(true), after), rest) ==> exists|n: int|
        0 <= n <= h.len() && ended_on_target(j, #[trigger] h.skip(n), rest, after)
}

proof fn landings_end_on_the_target(j: Journey<Seq<char>>, t: Seq<Reply>, h: Seq<Reply>)
    requires
        last_of(t, h),
    ensures
        arrivals_end_on_target(j, land_script(j, t), h),
{
    broadcast use {lemma_last_but_first, lemma_last_of_last};

    if let Outcome::Done((Ok(true), after), rest) = land_script(j, t) {
        let tail = t.skip(1).skip(1);
        assert(tail.skip(1).skip(1) == rest);
        assert(ended_on_target(j, tail, rest, after));
        assert(last_of(tail, h));
        reveal(last_of);
        assert(ended_on_target(j, h.skip(h.len() - tail.len()), rest, after));
    }
}

proof fn switches_end_on_the_target(j: Journey<Seq<char>>, t: Seq<Reply>, h: Seq<Reply>)
    requires
        last_of(t, h),
    ensures
        arrivals_end_on_target(j, return_switch_script(j, t), h),
{
    broadcast use {lemma_last_but_first, lemma_last_of_last, lemma_replay_replies};

    if let Outcome::Done((Ok(true), after), rest) = return_switch_script(j, t) {
        let switched = t.skip(1);
        if j.luggage {
            let begun = switched.skip(1);
            if let Outcome::Done(Ok(_), replayed) = replay_script(begun.skip(1)) {
                assert(last_of(replayed, h));
                landings_end_on_the_target(j, replayed, h);
            }
        } else {
            assert(switched.skip(1) == rest);
            assert(ended_on_target(j, t, rest, after));
            reveal(last_of);
            assert(ended_on_target(j, h.skip(h.len() - t.len()), rest, after));
        }
    }
}

/// A return that succeeds has asked last for the branch that the repository should be on to be
/// checked out.
pub proof fn returns_end_with_the_target_checked_out(s: Model, h: Seq<Reply>)
    ensures
        return_script(s, h) matches Outcome::Done((Ok(true), after), rest) ==> exists|
            j: Journey<Seq<char>>,
            n: int,
        |
            0 <= n <= h.len() && #[trigger] ended_on_target(j, h.skip(n), rest, after)
                && j.synchronizer == s && (bound_for(s, h) matches Some((target, _)) && j.target
                == target),
{
    broadcast use {
        lemma_last_but_first,
        lemma_last_of_last,
        lemma_branch_replies,
        lemma_target_replies,
        lemma_merge_replies,
    };

    reveal(return_script);
    assert forall|j: Journey<Seq<char>>, t: Seq<Reply>|
        last_of(t, h) implies arrivals_end_on_target(
        j,
        #[trigger] return_switch_script(j, t),
        h,
    ) by {
        switches_end_on_the_target(j, t, h);
    }
}

} // verus!
