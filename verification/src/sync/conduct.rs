//! What is done to a repository, reply by reply.

use crate::error::{GitError, GitErrorCode, SyncError};
use crate::sync::SyncConfig;
use crate::sync::back::{remembering, return_script, with_branch, Model, Return};
use crate::sync::branch::{current_branch_script, CurrentBranch};
use crate::sync::changes::local_changes_script;
use crate::sync::commit::auto_commit_script;
use crate::sync::conflict::conflict_script;
use crate::sync::create::{create_fallback_script, fallback_name};
use crate::sync::forward::fast_forward_script;
use crate::sync::inquiries::{
    fallback_branches_are_below_git_sync, heads_name_branches, lemma_upon, on_branch, unanswered,
    upon,
};
use crate::sync::laws::bound_for;
use crate::sync::mergeable::can_merge_script;
use crate::sync::rebase::rebase_script;
use crate::sync::remote::remote_script;
use crate::sync::replay::replay_script;
use crate::sync::step::{
    Attempt, GitOp, Outcome, RebaseStep, RemoteCommand, Reply, TimeLayout,
};
use crate::sync::target::{default_branch_script, target_branch_script};
use crate::text_laws::prefixes_are_what_comes_first;
use vstd::prelude::*;

verus! {

/// The reply where an operation succeeded.
pub open spec fn done() -> Reply {
    Reply::Done(Ok(()))
}

/// A fast-forward puts the branch that is checked out, the working tree and HEAD where the
/// upstream of that branch is; each step is taken only where the one before it succeeded.
pub proof fn fast_forwards_follow_the_upstream(
    name: String,
    oid: String,
    e: GitError,
    later: Seq<Reply>,
)
    ensures
        ({
            let known = |l: Seq<Reply>|
                upon(on_branch(name), upon(Reply::Maybe(Ok(Some(oid))), l));
            let failing = Outcome::<Attempt<()>>::Done(Err(SyncError::GitError(e@)), later);
            let fails = upon(Reply::Done(Err(e)), later);
            &&& fast_forward_script(unanswered()) == Outcome::<Attempt<()>>::Ask(GitOp::Head)
            &&& fast_forward_script(upon(on_branch(name), unanswered())) == Outcome::<
                Attempt<()>,
            >::Ask(GitOp::UpstreamOid { branch: name@ })
            &&& fast_forward_script(known(unanswered())) matches Outcome::Ask(
                GitOp::SetHeadTarget { oid: to, .. },
            ) && to == oid@
            &&& fast_forward_script(known(upon(done(), unanswered()))) == Outcome::<
                Attempt<()>,
            >::Ask(GitOp::CheckoutTree { oid: oid@ })
            &&& fast_forward_script(known(upon(done(), upon(done(), unanswered())))) == Outcome::<
                Attempt<()>,
            >::Ask(GitOp::SetHead { name: "refs/heads/"@ + name@ })
            &&& fast_forward_script(known(upon(done(), upon(done(), upon(done(), later)))))
                == Outcome::<Attempt<()>>::Done(Ok(()), later)
            &&& fast_forward_script(upon(on_branch(name), upon(Reply::Maybe(Err(e)), later)))
                == failing
            &&& fast_forward_script(known(fails)) == failing
            &&& fast_forward_script(known(upon(done(), fails))) == failing
            &&& fast_forward_script(known(upon(done(), upon(done(), fails)))) == failing
        }),
{
    broadcast use lemma_upon;

    reveal(fast_forward_script);
    reveal(current_branch_script);
}

/// The commits of a rebase are applied and committed one by one. Once there is none left, the
/// rebase is completed and the working tree becomes that of the last one; a conflict gives it up.
pub proof fn commits_are_replayed_one_by_one(oid: String, e: GitError, later: Seq<Reply>)
    ensures
        ({
            let applied = Reply::Rebase(Ok(RebaseStep::Applied { conflicts: false }));
            let stuck = Reply::Rebase(Ok(RebaseStep::Applied { conflicts: true }));
            let over = Reply::Rebase(Ok(RebaseStep::Finished));
            let head = Reply::Text(Ok(oid));
            let failing = Outcome::<Attempt<bool>>::Done(Err(SyncError::GitError(e@)), later);
            &&& replay_script(unanswered()) == Outcome::<Attempt<bool>>::Ask(GitOp::NextRebaseStep)
            &&& replay_script(upon(applied, unanswered())) == Outcome::<Attempt<bool>>::Ask(
                GitOp::CommitRebaseStep,
            )
            &&& replay_script(upon(applied, upon(done(), later))) == replay_script(later)
            &&& replay_script(upon(stuck, unanswered())) == Outcome::<Attempt<bool>>::Ask(
                GitOp::AbortRebase,
            )
            &&& replay_script(upon(stuck, upon(done(), later))) == Outcome::<Attempt<bool>>::Done(
                Ok(false),
                later,
            )
            &&& replay_script(upon(over, unanswered())) == Outcome::<Attempt<bool>>::Ask(
                GitOp::FinishRebase,
            )
            &&& replay_script(upon(over, upon(done(), unanswered()))) == Outcome::<
                Attempt<bool>,
            >::Ask(GitOp::HeadCommit)
            &&& replay_script(upon(over, upon(done(), upon(head, unanswered())))) == Outcome::<
                Attempt<bool>,
            >::Ask(GitOp::CheckoutTree { oid: oid@ })
            &&& replay_script(upon(over, upon(done(), upon(head, upon(done(), later)))))
                == Outcome::<Attempt<bool>>::Done(Ok(true), later)
            &&& replay_script(upon(Reply::Rebase(Err(e)), later)) == failing
            &&& replay_script(upon(applied, upon(Reply::Done(Err(e)), later))) == failing
            &&& replay_script(upon(stuck, upon(Reply::Done(Err(e)), later))) == failing
            &&& replay_script(upon(over, upon(Reply::Done(Err(e)), later))) == failing
        }),
{
    broadcast use lemma_upon;

    reveal_with_fuel(replay_script, 3);
    reveal_with_fuel(crate::sync::replay::replay_commit_script, 3);
}

/// The branch that is checked out is rebased onto its upstream: the commits of both are found, and
/// where they have nothing in common, nothing is begun.
pub proof fn rebases_go_onto_the_upstream(
    c: SyncConfig<Seq<char>>,
    name: String,
    upstream: String,
    local: String,
    base: String,
    e: GitError,
    later: Seq<Reply>,
)
    ensures
        ({
            let ours = |l: Seq<Reply>|
                upon(
                    on_branch(name),
                    upon(Reply::Text(Ok(upstream)), upon(Reply::Text(Ok(local)), l)),
                );
            let failing = Outcome::<Attempt<()>>::Done(Err(SyncError::GitError(e@)), later);
            &&& rebase_script(c, unanswered()) == Outcome::<Attempt<()>>::Ask(GitOp::Head)
            &&& rebase_script(c, upon(on_branch(name), unanswered())) == Outcome::<
                Attempt<()>,
            >::Ask(GitOp::UpstreamCommit { branch: name@ })
            &&& rebase_script(
                c,
                upon(on_branch(name), upon(Reply::Text(Ok(upstream)), unanswered())),
            ) == Outcome::<Attempt<()>>::Ask(GitOp::BranchCommit { branch: name@ })
            &&& rebase_script(c, ours(unanswered())) == Outcome::<Attempt<()>>::Ask(
                GitOp::MergeBase { one: local@, two: upstream@ },
            )
            &&& rebase_script(c, ours(upon(Reply::Text(Ok(base)), unanswered()))) == Outcome::<
                Attempt<()>,
            >::Ask(GitOp::StartRebaseOntoUpstream { branch: name@ })
            &&& rebase_script(c, ours(upon(Reply::Text(Ok(base)), upon(done(), unanswered()))))
                == Outcome::<Attempt<()>>::Ask(GitOp::NextRebaseStep)
            &&& rebase_script(c, upon(on_branch(name), upon(Reply::Text(Err(e)), later)))
                == failing
            &&& rebase_script(c, ours(upon(Reply::Text(Err(e)), later))) == failing
            &&& rebase_script(
                c,
                ours(upon(Reply::Text(Ok(base)), upon(Reply::Done(Err(e)), later))),
            ) == failing
        }),
{
    broadcast use lemma_upon;

    reveal(rebase_script);
    reveal(current_branch_script);
    reveal(replay_script);
}

/// A rebase succeeds where all commits were replayed; where a conflict gave it up, the user has to
/// act, unless conflicts lead to a fallback branch.
pub proof fn rebases_end_with_the_replay(
    c: SyncConfig<Seq<char>>,
    name: String,
    upstream: String,
    local: String,
    base: String,
    replies: Seq<Reply>,
)
    ensures
        ({
            let whole = upon(
                on_branch(name),
                upon(
                    Reply::Text(Ok(upstream)),
                    upon(
                        Reply::Text(Ok(local)),
                        upon(Reply::Text(Ok(base)), upon(done(), replies)),
                    ),
                ),
            );
            &&& replay_script(replies) matches Outcome::Done(Ok(true), rest) ==> rebase_script(
                c,
                whole,
            ) == Outcome::<Attempt<()>>::Done(Ok(()), rest)
            &&& replay_script(replies) matches Outcome::Done(Err(e), rest) ==> rebase_script(
                c,
                whole,
            ) == Outcome::<Attempt<()>>::Done(Err(e), rest)
            &&& replay_script(replies) matches Outcome::Done(Ok(false), rest) ==> {
                &&& c.conflict_branch ==> rebase_script(c, whole) == conflict_script(c, rest)
                &&& !c.conflict_branch ==> rebase_script(c, whole) == Outcome::<Attempt<()>>::Done(
                    Err(
                        SyncError::ManualInterventionRequired {
                            reason: "Rebase conflicts detected. Please resolve manually."@,
                        },
                    ),
                    rest,
                )
            }
        }),
{
    broadcast use lemma_upon;

    reveal(rebase_script);
    reveal(current_branch_script);
    reveal(conflict_script);
}

/// A fallback branch is called `git-sync/`, the machine, a hyphen and the time, where no branch is
/// called that; it is created where HEAD is, and checked out.
pub proof fn fallback_branches_start_at_head(
    host: String,
    why: String,
    time: String,
    oid: String,
    e: GitError,
    later: Seq<Reply>,
)
    ensures
        fallback_name(Ok(host), time@) == "git-sync/"@ + host@ + "-"@ + time@,
        fallback_name(Err(why), time@) == "git-sync/"@ + "unknown"@ + "-"@ + time@,
        ({
            let name = "git-sync/"@ + host@ + "-"@ + time@;
            let named = |l: Seq<Reply>|
                upon(Reply::HostAndTime(Ok(host), time), upon(Reply::Flag(Ok(false)), l));
            let placed = |l: Seq<Reply>| named(upon(Reply::Text(Ok(oid)), l));
            &&& create_fallback_script(unanswered()) == Outcome::<Attempt<Seq<char>>>::Ask(
                GitOp::HostAndTime { layout: TimeLayout::Branch },
            )
            &&& create_fallback_script(upon(Reply::HostAndTime(Ok(host), time), unanswered()))
                == Outcome::<Attempt<Seq<char>>>::Ask(GitOp::BranchExists { branch: name })
            &&& create_fallback_script(named(unanswered())) == Outcome::<Attempt<Seq<char>>>::Ask(
                GitOp::HeadCommit,
            )
            &&& create_fallback_script(placed(unanswered())) == Outcome::<Attempt<Seq<char>>>::Ask(
                GitOp::CreateBranch { branch: name, oid: oid@ },
            )
            &&& create_fallback_script(placed(upon(done(), unanswered()))) == Outcome::<
                Attempt<Seq<char>>,
            >::Ask(GitOp::SetHead { name: "refs/heads/"@ + name })
            &&& create_fallback_script(placed(upon(done(), upon(done(), unanswered()))))
                == Outcome::<Attempt<Seq<char>>>::Ask(GitOp::CheckoutHead)
            &&& create_fallback_script(placed(upon(done(), upon(done(), upon(done(), later)))))
                == Outcome::<Attempt<Seq<char>>>::Done(Ok(name), later)
            &&& create_fallback_script(placed(upon(Reply::Done(Err(e)), later))) matches
                Outcome::Done(Err(_), rest) && rest == later
        }),
{
    broadcast use lemma_upon;

    reveal(create_fallback_script);
    reveal_with_fuel(crate::sync::create::fallback_name_script, 2);
}

/// Where a branch of that name exists, the next name has a two behind it, then a three, and so on.
pub proof fn taken_names_are_numbered(
    host: String,
    time: String,
    n: u64,
    replies: Seq<Reply>,
)
    requires
        replies.len() == n,
        0 < n < u64::MAX,
        forall|i: int| 0 <= i < n ==> #[trigger] replies[i] == Reply::Flag(Ok(true)),
    ensures
        create_fallback_script(upon(Reply::HostAndTime(Ok(host), time), replies)) == Outcome::<
            Attempt<Seq<char>>,
        >::Ask(
            GitOp::BranchExists {
                branch: "git-sync/"@ + host@ + "-"@ + time@ + "-"@ + crate::text::decimal(
                    (n + 1) as nat,
                ),
            },
        ),
{
    broadcast use lemma_upon;

    reveal(create_fallback_script);
    let name = "git-sync/"@ + host@ + "-"@ + time@;
    numbers_follow(name, 1, n, replies);
}

proof fn numbers_follow(name: Seq<char>, from: u64, n: u64, replies: Seq<Reply>)
    requires
        replies.len() == n,
        from > 0,
        from + n <= u64::MAX,
        from > 1 || n > 0,
        forall|i: int| 0 <= i < n ==> #[trigger] replies[i] == Reply::Flag(Ok(true)),
    ensures
        crate::sync::create::fallback_name_script(name, from, replies) == Outcome::<
            Attempt<Seq<char>>,
        >::Ask(
            GitOp::BranchExists {
                branch: name + "-"@ + crate::text::decimal((from + n) as nat),
            },
        ),
    decreases n,
{
    if n > 0 {
        let rest = replies.skip(1);
        assert(replies[0] == Reply::Flag(Ok(true)));
        assert forall|i: int| 0 <= i < rest.len() implies #[trigger] rest[i] == Reply::Flag(
            Ok(true),
        ) by {
            assert(rest[i] == replies[i + 1]);
        }
        numbers_follow(name, (from + 1) as u64, (n - 1) as u64, rest);
    }
}

/// A return begins on a fallback branch, for the branch that is configured. Where that branch is
/// on the configured remote is looked up; where it is not there, or where it was when a return was
/// last found to be impossible, nothing else is asked.
pub proof fn returns_look_at_the_configured_remote(
    s: Model,
    name: String,
    rest: Seq<char>,
    target: Seq<char>,
    oid: String,
    e: GitError,
    later: Seq<Reply>,
)
    requires
        name@ == "git-sync/"@ + rest,
        s.config.target_branch == Some(target),
        target.len() > 0,
        target != name@,
    ensures
        ({
            let on = |l: Seq<Reply>| upon(on_branch(name), l);
            let found = |l: Seq<Reply>| on(upon(Reply::Maybe(Ok(Some(oid))), l));
            let reference = "refs/remotes/"@ + s.config.remote_name + "/"@ + target;
            let stay = Outcome::<Return<Seq<char>>>::Done((Ok(false), s), later);
            &&& return_script(s, unanswered()) == Outcome::<Return<Seq<char>>>::Ask(GitOp::Head)
            &&& return_script(s, on(unanswered())) == Outcome::<Return<Seq<char>>>::Ask(
                GitOp::ReferenceOid { name: reference },
            )
            &&& return_script(s, on(upon(Reply::Maybe(Err(e)), later))) == stay
            &&& return_script(s, on(upon(Reply::Maybe(Ok(None)), later))) == stay
            &&& s.fallback_state.last_checked_target_oid == Some(oid@) ==> return_script(
                s,
                found(later),
            ) == stay
            &&& s.fallback_state.last_checked_target_oid != Some(oid@) ==> return_script(
                s,
                found(unanswered()),
            ) == Outcome::<Return<Seq<char>>>::Ask(GitOp::ReferenceOid { name: reference })
        }),
{
    broadcast use lemma_upon;

    reveal(return_script);
    reveal(current_branch_script);
    reveal(target_branch_script);
    reveal(can_merge_script);
    fallback_branches_are_below_git_sync(name, rest, s.config.target_branch, later);
}

/// On any other branch nothing is done and nothing changes.
pub proof fn returns_begin_on_fallback_branches_only(
    s: Model,
    name: String,
    later: Seq<Reply>,
)
    requires
        (forall|r: Seq<char>| name@ != #[trigger] ("git-sync/"@ + r)) || s.config.target_branch
            == Some(name@),
    ensures
        return_script(s, upon(on_branch(name), later)) == Outcome::<Return<Seq<char>>>::Done(
            (Ok(false), s),
            later,
        ),
{
    broadcast use lemma_upon;

    reveal(return_script);
    reveal(current_branch_script);
    fallback_branches_are_below_git_sync(name, Seq::empty(), s.config.target_branch, later);
}

/// The replies to a return up to the point where it is known that nothing stands in its way: the
/// branch, where the target is, the check, and what the fallback branch has of its own.
pub open spec fn free_to_return(
    name: String,
    oid: String,
    found: Option<String>,
    commit: String,
    head: String,
    head_oid: String,
    base: String,
    ahead: usize,
    behind: usize,
    later: Seq<Reply>,
) -> Seq<Reply> {
    upon(
        on_branch(name),
        upon(
            Reply::Maybe(Ok(Some(oid))),
            upon(
                Reply::Maybe(Ok(found)),
                upon(
                    Reply::Text(Ok(commit)),
                    upon(
                        Reply::Text(Ok(head)),
                        upon(
                            Reply::Flag(Ok(true)),
                            upon(
                                on_branch(name),
                                upon(
                                    Reply::Maybe(Ok(Some(head_oid))),
                                    upon(
                                        Reply::Text(Ok(base)),
                                        upon(Reply::Counts(Ok((ahead, behind))), later),
                                    ),
                                ),
                            ),
                        ),
                    ),
                ),
            ),
        ),
    )
}

/// Where merging leaves conflicts, a return is not tried, and it is remembered where the target
/// was.
pub proof fn impossible_returns_are_remembered(
    s: Model,
    name: String,
    rest: Seq<char>,
    target: Seq<char>,
    oid: String,
    found: Option<String>,
    commit: String,
    head: String,
    later: Seq<Reply>,
)
    requires
        name@ == "git-sync/"@ + rest,
        s.config.target_branch == Some(target),
        target.len() > 0,
        target != name@,
        s.fallback_state.last_checked_target_oid != Some(oid@),
    ensures
        return_script(
            s,
            upon(
                on_branch(name),
                upon(
                    Reply::Maybe(Ok(Some(oid))),
                    upon(
                        Reply::Maybe(Ok(found)),
                        upon(
                            Reply::Text(Ok(commit)),
                            upon(
                                Reply::Text(Ok(head)),
                                upon(
                                    Reply::Flag(Ok(false)),
                                    upon(Reply::Flag(Ok(true)), later),
                                ),
                            ),
                        ),
                    ),
                ),
            ),
        ) == Outcome::<Return<Seq<char>>>::Done((Ok(false), remembering(s, Some(oid@))), later),
        remembering(s, Some(oid@)).fallback_state.last_checked_target_oid == Some(oid@),
        remembering(s, Some(oid@)).config == s.config,
        remembering(s, Some(oid@)).repo_path == s.repo_path,
{
    broadcast use lemma_upon;

    reveal(return_script);
    reveal(current_branch_script);
    reveal(target_branch_script);
    reveal(can_merge_script);
    fallback_branches_are_below_git_sync(name, rest, s.config.target_branch, later);
}

/// A return for which nothing stands in the way asks what the fallback branch has of its own, and
/// looks the target up once more on the configured remote before anything is touched.
pub proof fn returns_know_what_to_take_along(
    s: Model,
    name: String,
    rest: Seq<char>,
    target: Seq<char>,
    oid: String,
    found: Option<String>,
    commit: String,
    head: String,
    head_oid: String,
    base: String,
    ahead: usize,
    behind: usize,
)
    requires
        name@ == "git-sync/"@ + rest,
        s.config.target_branch == Some(target),
        target.len() > 0,
        target != name@,
        s.fallback_state.last_checked_target_oid != Some(oid@),
    ensures
        return_script(
            s,
            free_to_return(
                name,
                oid,
                found,
                commit,
                head,
                head_oid,
                base,
                ahead,
                behind,
                unanswered(),
            ),
        ) == Outcome::<Return<Seq<char>>>::Ask(
            GitOp::ReferenceOid {
                name: "refs/remotes/"@ + s.config.remote_name + "/"@ + target,
            },
        ),
        return_script(
            s,
            upon(
                on_branch(name),
                upon(
                    Reply::Maybe(Ok(Some(oid))),
                    upon(
                        Reply::Maybe(Ok(found)),
                        upon(
                            Reply::Text(Ok(commit)),
                            upon(
                                Reply::Text(Ok(head)),
                                upon(
                                    Reply::Flag(Ok(true)),
                                    upon(
                                        on_branch(name),
                                        upon(
                                            Reply::Maybe(Ok(Some(head_oid))),
                                            upon(Reply::Text(Ok(base)), unanswered()),
                                        ),
                                    ),
                                ),
                            ),
                        ),
                    ),
                ),
            ),
        ) == Outcome::<Return<Seq<char>>>::Ask(
            GitOp::AheadBehind { local: head_oid@, upstream: base@ },
        ),
        return_script(
            s,
            upon(
                on_branch(name),
                upon(
                    Reply::Maybe(Ok(Some(oid))),
                    upon(
                        Reply::Maybe(Ok(found)),
                        upon(
                            Reply::Text(Ok(commit)),
                            upon(
                                Reply::Text(Ok(head)),
                                upon(
                                    Reply::Flag(Ok(true)),
                                    upon(
                                        on_branch(name),
                                        upon(
                                            Reply::Maybe(Ok(Some(head_oid))),
                                            unanswered(),
                                        ),
                                    ),
                                ),
                            ),
                        ),
                    ),
                ),
            ),
        ) == Outcome::<Return<Seq<char>>>::Ask(GitOp::MergeBase { one: head_oid@, two: oid@ }),
{
    broadcast use lemma_upon;

    reveal(return_script);
    reveal(current_branch_script);
    reveal(target_branch_script);
    reveal(can_merge_script);
    fallback_branches_are_below_git_sync(name, rest, s.config.target_branch, Seq::empty());
}

/// A return puts the local target branch where the target is on the remote, creating it where
/// there is none, and checks it out. Where the fallback branch has nothing of its own that is all,
/// and nothing is left to remember.
pub proof fn returns_go_where_the_remote_is(
    s: Model,
    name: String,
    rest: Seq<char>,
    target: Seq<char>,
    oid: String,
    found: Option<String>,
    commit: String,
    head: String,
    head_oid: String,
    base: String,
    ahead: usize,
    behind: usize,
    place: String,
    exists_here: bool,
    later: Seq<Reply>,
)
    requires
        name@ == "git-sync/"@ + rest,
        s.config.target_branch == Some(target),
        target.len() > 0,
        target != name@,
        s.fallback_state.last_checked_target_oid != Some(oid@),
    ensures
        ({
            let free = |l: Seq<Reply>|
                free_to_return(name, oid, found, commit, head, head_oid, base, ahead, behind, l);
            let placed = |l: Seq<Reply>|
                free(upon(Reply::Maybe(Ok(Some(place))), upon(Reply::Flag(Ok(exists_here)), l)));
            let reference = "refs/heads/"@ + target;
            &&& return_script(s, free(upon(Reply::Maybe(Ok(Some(place))), unanswered())))
                == Outcome::<Return<Seq<char>>>::Ask(GitOp::ReferenceExists { name: reference })
            &&& exists_here ==> (return_script(s, placed(unanswered())) matches Outcome::Ask(
                GitOp::ForceReference { name: moved, oid: to, .. },
            ) && moved == reference && to == place@)
            &&& !exists_here ==> return_script(s, placed(unanswered())) == Outcome::<
                Return<Seq<char>>,
            >::Ask(GitOp::CreateBranch { branch: target, oid: place@ })
            &&& return_script(s, placed(upon(done(), unanswered()))) == Outcome::<
                Return<Seq<char>>,
            >::Ask(GitOp::SetHead { name: reference })
            &&& return_script(s, placed(upon(done(), upon(done(), unanswered())))) == Outcome::<
                Return<Seq<char>>,
            >::Ask(GitOp::CheckoutHead)
            &&& ahead == 0 ==> return_script(
                s,
                placed(upon(done(), upon(done(), upon(done(), later)))),
            ) == Outcome::<Return<Seq<char>>>::Done(
                (Ok(true), remembering(with_branch(s, target), None)),
                later,
            )
            &&& ahead > 0 ==> return_script(
                s,
                placed(upon(done(), upon(done(), upon(done(), unanswered())))),
            ) == Outcome::<Return<Seq<char>>>::Ask(
                GitOp::StartRebase { branch: "refs/heads/"@ + name@, onto: reference },
            )
        }),
        with_branch(s, target).config.branch_name == target,
{
    broadcast use lemma_upon;

    reveal(return_script);
    reveal(current_branch_script);
    reveal(target_branch_script);
    reveal(can_merge_script);
    fallback_branches_are_below_git_sync(name, rest, s.config.target_branch, later);
}

/// The commits of the fallback branch that are taken along end up on the target branch, which is
/// checked out again then; where they conflict, the fallback branch is, and it is as if nothing
/// had been tried.
pub proof fn commits_are_taken_along(
    s: Model,
    name: String,
    rest: Seq<char>,
    target: Seq<char>,
    oid: String,
    found: Option<String>,
    commit: String,
    head: String,
    head_oid: String,
    base: String,
    ahead: usize,
    behind: usize,
    place: String,
    replies: Seq<Reply>,
)
    requires
        name@ == "git-sync/"@ + rest,
        s.config.target_branch == Some(target),
        target.len() > 0,
        target != name@,
        s.fallback_state.last_checked_target_oid != Some(oid@),
        ahead > 0,
    ensures
        ({
            let h = free_to_return(
                name,
                oid,
                found,
                commit,
                head,
                head_oid,
                base,
                ahead,
                behind,
                upon(
                    Reply::Maybe(Ok(Some(place))),
                    upon(
                        Reply::Flag(Ok(true)),
                        upon(done(), upon(done(), upon(done(), upon(done(), replies)))),
                    ),
                ),
            );
            let out = return_script(s, h);
            &&& replay_script(replies) matches Outcome::Done(Ok(true), l) ==> lands_on(
                s,
                target,
                l,
                out,
            )
            &&& replay_script(replies) matches Outcome::Done(Ok(false), l) ==> turns_back_to(
                s,
                name@,
                l,
                out,
            )
        }),
{
    broadcast use lemma_upon;

    reveal(return_script);
    reveal(current_branch_script);
    reveal(target_branch_script);
    reveal(can_merge_script);
    fallback_branches_are_below_git_sync(name, rest, s.config.target_branch, replies);
}

/// Whether, with the given replies to come, what is at HEAD becomes the target branch, which is
/// checked out.
pub open spec fn lands_on(
    s: Model,
    target: Seq<char>,
    l: Seq<Reply>,
    out: Outcome<Return<Seq<char>>>,
) -> bool {
    &&& l.len() == 0 ==> out == Outcome::<Return<Seq<char>>>::Ask(GitOp::HeadCommit)
    &&& l.len() > 0 ==> (l[0] matches Reply::Text(Ok(tip)) ==> {
        &&& l.len() == 1 ==> (out matches Outcome::Ask(
            GitOp::ForceReference { name, oid, .. },
        ) && name == "refs/heads/"@ + target && oid == tip@)
        &&& l.len() == 2 && l[1] == done() ==> out == Outcome::<Return<Seq<char>>>::Ask(
            GitOp::SetHead { name: "refs/heads/"@ + target },
        )
        &&& l.len() == 3 && l[1] == done() && l[2] == done() ==> out == Outcome::<
            Return<Seq<char>>,
        >::Ask(GitOp::CheckoutHead)
        &&& l.len() >= 4 && l[1] == done() && l[2] == done() && l[3] == done() ==> out
            == Outcome::<Return<Seq<char>>>::Done(
            (Ok(true), remembering(with_branch(s, target), None)),
            l.skip(1).skip(1).skip(1).skip(1),
        )
    })
}

/// Whether, with the given replies to come, the branch that was left is checked out again.
pub open spec fn turns_back_to(
    s: Model,
    name: Seq<char>,
    l: Seq<Reply>,
    out: Outcome<Return<Seq<char>>>,
) -> bool {
    &&& l.len() == 0 ==> out == Outcome::<Return<Seq<char>>>::Ask(
        GitOp::SetHead { name: "refs/heads/"@ + name },
    )
    &&& l.len() == 1 && l[0] == done() ==> out == Outcome::<Return<Seq<char>>>::Ask(
        GitOp::CheckoutHead,
    )
    &&& l.len() >= 2 && l[0] == done() && l[1] == done() ==> out == Outcome::<
        Return<Seq<char>>,
    >::Done((Ok(false), with_branch(s, name)), l.skip(1).skip(1))
}

/// Whatever branch a return is for, be it configured or found to be the default: it is looked up on
/// the configured remote, merging with it is tried, and only where that leaves no conflicts is
/// anything else asked. Anything that cannot be told ends the return with its error.
pub proof fn returns_depend_on_the_merge(
    s: Model,
    h: Seq<Reply>,
    branch: CurrentBranch<Seq<char>>,
    rest: Seq<char>,
    a: Seq<Reply>,
    target: Seq<char>,
    oid: String,
    b: Seq<Reply>,
    c: Seq<Reply>,
    x: SyncError<Seq<char>>,
)
    requires
        current_branch_script(h) == Outcome::<Attempt<CurrentBranch<Seq<char>>>>::Done(
            Ok(branch),
            a,
        ),
        branch.name == "git-sync/"@ + rest,
        s.config.target_branch != Some(branch.name),
        target != branch.name,
        s.fallback_state.last_checked_target_oid != Some(oid@),
    ensures
        ({
            let out = return_script(s, h);
            let found = upon(Reply::Maybe(Ok(Some(oid))), b);
            let merge = can_merge_script(s.config.remote_name, target, b);
            let told = Outcome::<Attempt<Seq<char>>>::Done(Ok(target), unanswered());
            let known = Outcome::<Attempt<Seq<char>>>::Done(Ok(target), found);
            &&& target_branch_script(s.config.target_branch, a) matches Outcome::Ask(op) ==> out
                == Outcome::<Return<Seq<char>>>::Ask(op)
            &&& target_branch_script(s.config.target_branch, a) == told ==> out == Outcome::<
                Return<Seq<char>>,
            >::Ask(
                GitOp::ReferenceOid {
                    name: "refs/remotes/"@ + s.config.remote_name + "/"@ + target,
                },
            )
            &&& target_branch_script(s.config.target_branch, a) == known ==> {
                &&& merge matches Outcome::Ask(op) ==> out == Outcome::<Return<Seq<char>>>::Ask(op)
                &&& merge == Outcome::<Attempt<bool>>::Done(Err(x), c) ==> out == Outcome::<
                    Return<Seq<char>>,
                >::Done((Err(x), s), c)
                &&& merge == Outcome::<Attempt<bool>>::Done(Ok(false), c) ==> (out matches
                    Outcome::Done((Ok(back), after), r) && !back && r == c && after.config
                    == s.config && after.fallback_state.last_checked_target_oid == Some(oid@))
                &&& merge == Outcome::<Attempt<bool>>::Done(Ok(true), c) && c.len() == 0 ==> out
                    == Outcome::<Return<Seq<char>>>::Ask(GitOp::Head)
            }
        }),
{
    broadcast use lemma_upon;

    reveal(return_script);
    prefixes_are_what_comes_first(branch.name, "git-sync/"@, rest);
    if current_branch_script(c) is Ask || c.len() == 0 {
        reveal(current_branch_script);
    }
}

/// Whatever branch a return is for: once merging is known to leave no conflicts, and what the
/// fallback branch has of its own is known, the local branch of that name is put where the remote
/// has it and checked out, before anything is taken along.
pub proof fn returns_check_the_target_out(
    s: Model,
    h: Seq<Reply>,
    branch: CurrentBranch<Seq<char>>,
    rest: Seq<char>,
    a: Seq<Reply>,
    target: Seq<char>,
    oid: String,
    b: Seq<Reply>,
    c: Seq<Reply>,
    name: String,
    head: String,
    base: String,
    ahead: usize,
    behind: usize,
    place: String,
    exists_here: bool,
    replies: Seq<Reply>,
)
    requires
        current_branch_script(h) == Outcome::<Attempt<CurrentBranch<Seq<char>>>>::Done(
            Ok(branch),
            a,
        ),
        branch.name == "git-sync/"@ + rest,
        s.config.target_branch != Some(branch.name),
        target != branch.name,
        s.fallback_state.last_checked_target_oid != Some(oid@),
        target_branch_script(s.config.target_branch, a) == Outcome::<Attempt<Seq<char>>>::Done(
            Ok(target),
            upon(Reply::Maybe(Ok(Some(oid))), b),
        ),
        can_merge_script(s.config.remote_name, target, b) == Outcome::<Attempt<bool>>::Done(
            Ok(true),
            c,
        ),
        c == upon(
            on_branch(name),
            upon(
                Reply::Maybe(Ok(Some(head))),
                upon(
                    Reply::Text(Ok(base)),
                    upon(
                        Reply::Counts(Ok((ahead, behind))),
                        upon(
                            Reply::Maybe(Ok(Some(place))),
                            upon(Reply::Flag(Ok(exists_here)), replies),
                        ),
                    ),
                ),
            ),
        ),
    ensures
        ({
            let out = return_script(s, h);
            let reference = "refs/heads/"@ + target;
            let all_done = |n: int|
                forall|i: int| 0 <= i < n ==> #[trigger] replies[i] == done();
            &&& replies.len() == 0 && exists_here ==> (out matches Outcome::Ask(
                GitOp::ForceReference { name: moved, oid: to, .. },
            ) && moved == reference && to == place@)
            &&& replies.len() == 0 && !exists_here ==> out == Outcome::<Return<Seq<char>>>::Ask(
                GitOp::CreateBranch { branch: target, oid: place@ },
            )
            &&& replies.len() == 1 && all_done(1) ==> out == Outcome::<Return<Seq<char>>>::Ask(
                GitOp::SetHead { name: reference },
            )
            &&& replies.len() == 2 && all_done(2) ==> out == Outcome::<Return<Seq<char>>>::Ask(
                GitOp::CheckoutHead,
            )
            &&& replies.len() >= 3 && all_done(3) && ahead == 0 ==> (out matches Outcome::Done(
                (Ok(back), after),
                r,
            ) && back && r == replies.skip(1).skip(1).skip(1) && after.config.branch_name == target
                && after.config.remote_name == s.config.remote_name
                && after.fallback_state.last_checked_target_oid is None)
            &&& replies.len() == 3 && all_done(3) && ahead > 0 ==> out == Outcome::<
                Return<Seq<char>>,
            >::Ask(GitOp::StartRebase { branch: "refs/heads/"@ + name@, onto: reference })
        }),
{
    broadcast use lemma_upon;

    reveal(return_script);
    prefixes_are_what_comes_first(branch.name, "git-sync/"@, rest);
    let e = GitError { code: GitErrorCode::Other, description: name };
    heads_name_branches(name, None, e, c.skip(1));
    assert(c.skip(1).len() > 0);
    if replies.len() > 1 {
        assert(replies.skip(1)[0] == replies[1]);
    }
    if replies.len() > 2 {
        assert(replies.skip(1).skip(1)[0] == replies[2]);
    }
}

/// Conflicts that lead to a fallback branch: once it is checked out, what there is to commit is
/// looked for, new files only where they are synced, then staged, and the branch is pushed to the
/// branch of the same name at the configured remote, which becomes its upstream.
pub proof fn conflicting_work_is_put_aside(
    c: SyncConfig<Seq<char>>,
    h: Seq<Reply>,
    name: Seq<char>,
    a: Seq<Reply>,
    changes: bool,
    b: Seq<Reply>,
    d: Seq<Reply>,
)
    requires
        c.conflict_branch,
        create_fallback_script(h) == Outcome::<Attempt<Seq<char>>>::Done(Ok(name), a),
    ensures
        ({
            let out = conflict_script(c, h);
            let push = RemoteCommand::PushUpstream { remote: c.remote_name, branch: name };
            let looked = local_changes_script(c.sync_new_files, a);
            &&& looked matches Outcome::Ask(op) ==> out == Outcome::<Attempt<()>>::Ask(op)
            &&& looked == Outcome::<Attempt<bool>>::Done(Ok(false), b) ==> out == remote_script(
                push,
                b,
            )
            &&& looked == Outcome::<Attempt<bool>>::Done(Ok(true), b) ==> {
                &&& auto_commit_script(c, b) matches Outcome::Ask(op) ==> out == Outcome::<
                    Attempt<()>,
                >::Ask(op)
                &&& auto_commit_script(c, b) == Outcome::<Attempt<()>>::Done(Ok(()), d) ==> out
                    == remote_script(push, d)
            }
        }),
{
    reveal(conflict_script);
}

/// Whatever git replies: the only references that a check for conflicts or a return asks for the
/// place of are those of the branch in question at the configured remote; so two remotes are never
/// mistaken for each other.
pub proof fn only_the_configured_remote_is_asked_about(
    s: Model,
    remote: Seq<char>,
    branch: Seq<char>,
    h: Seq<Reply>,
)
    ensures
        can_merge_script(remote, branch, h) matches Outcome::Ask(op) ==> match op {
            GitOp::ReferenceOid { name } => name == "refs/remotes/"@ + remote + "/"@ + branch,
            GitOp::ReferenceCommit { name } => name == "refs/remotes/"@ + remote + "/"@ + branch,
            _ => true,
        },
        return_script(s, h) matches Outcome::Ask(op) ==> match op {
            GitOp::ReferenceOid { name } => bound_for(s, h) matches Some((target, _)) && name
                == "refs/remotes/"@ + s.config.remote_name + "/"@ + target,
            GitOp::ReferenceCommit { name } => bound_for(s, h) matches Some((target, _)) && name
                == "refs/remotes/"@ + s.config.remote_name + "/"@ + target,
            _ => true,
        },
{
    reveal(can_merge_script);
    reveal(return_script);
    reveal(current_branch_script);
    reveal(target_branch_script);
    reveal(default_branch_script);
    assert forall|r: Seq<Reply>|
        (#[trigger] replay_script(r)) matches Outcome::Ask(op) ==> !(op is ReferenceOid) && !(
        op is ReferenceCommit) by {
        replays_ask_about_no_reference(r);
    }
}

proof fn replays_ask_about_no_reference(h: Seq<Reply>)
    ensures
        replay_script(h) matches Outcome::Ask(op) ==> !(op is ReferenceOid) && !(
        op is ReferenceCommit),
        crate::sync::replay::replay_commit_script(h) matches Outcome::Ask(op) ==> !(
        op is ReferenceOid) && !(op is ReferenceCommit),
    decreases h.len(),
{
    reveal_with_fuel(replay_script, 2);
    reveal_with_fuel(crate::sync::replay::replay_commit_script, 2);
    if h.len() > 0 {
        replays_ask_about_no_reference(h.skip(1));
    }
}

} // verus!
