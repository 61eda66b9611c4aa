//! Which replies a script has used when it is over: always some first part of those that it was
//! given.

use crate::sync::SyncConfig;
use crate::sync::back::{return_script, Model};
use crate::sync::branch::current_branch_script;
use crate::sync::changes::local_changes_script;
use crate::sync::commit::auto_commit_script;
use crate::sync::conflict::conflict_script;
use crate::sync::create::{create_fallback_script, fallback_name_script};
use crate::sync::fetch::fetch_script;
use crate::sync::forward::fast_forward_script;
use crate::sync::mergeable::can_merge_script;
use crate::sync::rebase::rebase_script;
use crate::sync::relation::sync_state_script;
use crate::sync::remote::remote_script;
use crate::sync::replay::{replay_commit_script, replay_script};
use crate::sync::run::sync_script;
use crate::sync::state::repository_state_script;
use crate::sync::step::{Outcome, RemoteCommand, Reply};
use crate::sync::target::{default_branch_script, target_branch_script};
use crate::sync::transport::commit_script;
use crate::sync::unhandled::unhandled_files_script;
use vstd::prelude::*;

verus! {

/// Whether some replies are the last of others.
#[verifier::opaque]
pub open spec fn last_of(rest: Seq<Reply>, h: Seq<Reply>) -> bool {
    rest.len() <= h.len() && rest == h.skip(h.len() - rest.len())
}

/// Whether what an outcome leaves, where it is over, are the last of the replies.
pub open spec fn leaves_the_last<T>(o: Outcome<T>, h: Seq<Reply>) -> bool {
    o matches Outcome::Done(_, rest) ==> last_of(rest, h)
}

/// All replies are the last of themselves.
pub broadcast proof fn lemma_last_of_itself(h: Seq<Reply>)
    ensures
        #[trigger] last_of(h, h),
{
    reveal(last_of);
    assert(h.skip(0) =~= h);
}

/// All replies but the first are the last.
pub broadcast proof fn lemma_last_but_first(h: Seq<Reply>)
    ensures
        h.len() > 0 ==> last_of(#[trigger] h.skip(1), h),
{
    reveal(last_of);
}

/// The last of the last are the last.
pub broadcast proof fn lemma_last_of_last(a: Seq<Reply>, b: Seq<Reply>, c: Seq<Reply>)
    requires
        #[trigger] last_of(a, b),
        #[trigger] last_of(b, c),
    ensures
        last_of(a, c),
{
    reveal(last_of);
    assert(b.skip(b.len() - a.len()) =~= c.skip(c.len() - a.len()));
}

pub broadcast proof fn lemma_branch_replies(h: Seq<Reply>)
    ensures
        #[trigger] current_branch_script(h) matches Outcome::Done(_, rest) ==> last_of(rest, h),
{
    broadcast use {lemma_last_of_itself, lemma_last_but_first, lemma_last_of_last};

    reveal(current_branch_script);
}

pub broadcast proof fn lemma_state_replies(h: Seq<Reply>)
    ensures
        #[trigger] repository_state_script(h) matches Outcome::Done(_, rest) ==> last_of(rest, h),
{
    broadcast use {lemma_last_of_itself, lemma_last_but_first, lemma_last_of_last};

    reveal(repository_state_script);
}

pub broadcast proof fn lemma_unhandled_replies(h: Seq<Reply>)
    ensures
        #[trigger] unhandled_files_script(h) matches Outcome::Done(_, rest) ==> last_of(rest, h),
{
    broadcast use {lemma_last_of_itself, lemma_last_but_first, lemma_last_of_last};

    reveal(unhandled_files_script);
}

pub broadcast proof fn lemma_changes_replies(new_files: bool, h: Seq<Reply>)
    ensures
        #[trigger] local_changes_script(new_files, h) matches Outcome::Done(_, rest) ==> last_of(
            rest,
            h,
        ),
{
    broadcast use {lemma_last_of_itself, lemma_last_but_first, lemma_last_of_last};

    reveal(local_changes_script);
}

pub broadcast proof fn lemma_remote_replies(command: RemoteCommand<Seq<char>>, h: Seq<Reply>)
    ensures
        #[trigger] remote_script(command, h) matches Outcome::Done(_, rest) ==> last_of(rest, h),
{
    broadcast use {lemma_last_of_itself, lemma_last_but_first, lemma_last_of_last};

    reveal(remote_script);
}

pub broadcast proof fn lemma_target_replies(configured: Option<Seq<char>>, h: Seq<Reply>)
    ensures
        #[trigger] target_branch_script(configured, h) matches Outcome::Done(_, rest) ==> last_of(
            rest,
            h,
        ),
{
    broadcast use {
        lemma_last_of_itself,
        lemma_last_but_first,
        lemma_last_of_last,
        lemma_branch_replies,
    };

    reveal(target_branch_script);
    reveal(default_branch_script);
}

pub broadcast proof fn lemma_fetch_replies(c: SyncConfig<Seq<char>>, unborn: bool, h: Seq<Reply>)
    ensures
        #[trigger] fetch_script(c, unborn, h) matches Outcome::Done(_, rest) ==> last_of(rest, h),
{
    broadcast use {
        lemma_last_of_itself,
        lemma_last_of_last,
        lemma_remote_replies,
        lemma_target_replies,
    };

    reveal(fetch_script);
}

pub broadcast proof fn lemma_commit_replies(message: Seq<char>, skip_hooks: bool, h: Seq<Reply>)
    ensures
        #[trigger] commit_script(message, skip_hooks, h) matches Outcome::Done(_, rest) ==> last_of(
            rest,
            h,
        ),
{
    broadcast use {lemma_last_of_itself, lemma_last_but_first, lemma_last_of_last};

    reveal(commit_script);
}

pub broadcast proof fn lemma_auto_commit_replies(c: SyncConfig<Seq<char>>, h: Seq<Reply>)
    ensures
        #[trigger] auto_commit_script(c, h) matches Outcome::Done(_, rest) ==> last_of(rest, h),
{
    broadcast use {
        lemma_last_of_itself,
        lemma_last_but_first,
        lemma_last_of_last,
        lemma_commit_replies,
    };

    reveal(auto_commit_script);
}

pub broadcast proof fn lemma_relation_replies(h: Seq<Reply>)
    ensures
        #[trigger] sync_state_script(h) matches Outcome::Done(_, rest) ==> last_of(rest, h),
{
    broadcast use {
        lemma_last_of_itself,
        lemma_last_but_first,
        lemma_last_of_last,
        lemma_branch_replies,
    };

    reveal(sync_state_script);
}

pub broadcast proof fn lemma_forward_replies(h: Seq<Reply>)
    ensures
        #[trigger] fast_forward_script(h) matches Outcome::Done(_, rest) ==> last_of(rest, h),
{
    broadcast use {
        lemma_last_of_itself,
        lemma_last_but_first,
        lemma_last_of_last,
        lemma_branch_replies,
    };

    reveal(fast_forward_script);
}

pub broadcast proof fn lemma_merge_replies(remote: Seq<char>, branch: Seq<char>, h: Seq<Reply>)
    ensures
        #[trigger] can_merge_script(remote, branch, h) matches Outcome::Done(_, rest) ==> last_of(
            rest,
            h,
        ),
{
    broadcast use {lemma_last_of_itself, lemma_last_but_first, lemma_last_of_last};

    reveal(can_merge_script);
}

proof fn replays_leave_the_last(h: Seq<Reply>)
    ensures
        leaves_the_last(replay_script(h), h),
        leaves_the_last(replay_commit_script(h), h),
    decreases h.len(),
{
    broadcast use {lemma_last_of_itself, lemma_last_but_first, lemma_last_of_last};

    reveal_with_fuel(replay_script, 2);
    reveal_with_fuel(replay_commit_script, 2);
    if h.len() > 0 {
        replays_leave_the_last(h.skip(1));
    }
}

pub broadcast proof fn lemma_replay_replies(h: Seq<Reply>)
    ensures
        #[trigger] replay_script(h) matches Outcome::Done(_, rest) ==> last_of(rest, h),
{
    replays_leave_the_last(h);
}

proof fn names_leave_the_last(name: Seq<char>, n: u64, h: Seq<Reply>)
    ensures
        leaves_the_last(fallback_name_script(name, n, h), h),
    decreases h.len(),
{
    broadcast use {lemma_last_of_itself, lemma_last_but_first, lemma_last_of_last};

    if h.len() > 0 && n < u64::MAX {
        names_leave_the_last(name, (n + 1) as u64, h.skip(1));
    }
}

pub broadcast proof fn lemma_create_replies(h: Seq<Reply>)
    ensures
        #[trigger] create_fallback_script(h) matches Outcome::Done(_, rest) ==> last_of(rest, h),
{
    broadcast use {lemma_last_of_itself, lemma_last_but_first, lemma_last_of_last};

    reveal(create_fallback_script);
    if h.len() > 0 {
        assert forall|name: Seq<char>|
            leaves_the_last(#[trigger] fallback_name_script(name, 1, h.skip(1)), h.skip(1)) by {
            names_leave_the_last(name, 1, h.skip(1));
        }
    }
}

pub broadcast proof fn lemma_conflict_replies(c: SyncConfig<Seq<char>>, h: Seq<Reply>)
    ensures
        #[trigger] conflict_script(c, h) matches Outcome::Done(_, rest) ==> last_of(rest, h),
{
    broadcast use {
        lemma_last_of_itself,
        lemma_last_of_last,
        lemma_create_replies,
        lemma_changes_replies,
        lemma_auto_commit_replies,
        lemma_remote_replies,
    };

    reveal(conflict_script);
}

pub broadcast proof fn lemma_rebase_replies(c: SyncConfig<Seq<char>>, h: Seq<Reply>)
    ensures
        #[trigger] rebase_script(c, h) matches Outcome::Done(_, rest) ==> last_of(rest, h),
{
    broadcast use {
        lemma_last_of_itself,
        lemma_last_but_first,
        lemma_last_of_last,
        lemma_branch_replies,
        lemma_replay_replies,
        lemma_conflict_replies,
    };

    reveal(rebase_script);
}

pub broadcast proof fn lemma_return_replies(s: Model, h: Seq<Reply>)
    ensures
        #[trigger] return_script(s, h) matches Outcome::Done(_, rest) ==> last_of(rest, h),
{
    broadcast use {
        lemma_last_of_itself,
        lemma_last_but_first,
        lemma_last_of_last,
        lemma_branch_replies,
        lemma_target_replies,
        lemma_merge_replies,
        lemma_replay_replies,
    };

    reveal(return_script);
}

/// What a synchronization leaves of the replies are the last of them.
pub proof fn synchronizations_leave_the_last(s: Model, check_only: bool, h: Seq<Reply>)
    ensures
        leaves_the_last(sync_script(s, check_only, h), h),
{
    broadcast use {
        lemma_last_of_itself,
        lemma_last_of_last,
        lemma_state_replies,
        lemma_unhandled_replies,
        lemma_branch_replies,
        lemma_fetch_replies,
        lemma_changes_replies,
        lemma_auto_commit_replies,
        lemma_return_replies,
        lemma_relation_replies,
        lemma_remote_replies,
        lemma_forward_replies,
        lemma_rebase_replies,
    };

    reveal(sync_script);
}

} // verus!
