//! What is asked of the remote and of `git commit`, and what their output comes to.

use crate::error::{exit_code_of, message_of, GitError, GitErrorCode, SyncError};
use crate::sync::SyncConfig;
use crate::sync::commit::{auto_commit_script, commit_message};
use crate::sync::fetch::fetch_script;
use crate::sync::inquiries::{lemma_upon, unanswered, upon};
use crate::sync::remote::{fetch_command, push_command, push_upstream_command, remote_script};
use crate::sync::step::{
    Attempt, CommandOutput, GitOp, Outcome, RemoteCommand, Reply, TimeLayout,
};
use crate::sync::target::target_branch_script;
use crate::sync::transport::{
    arguments_of, commit_arguments_of, commit_script, identity_environment_of, identity_for,
    CommitOutcome,
};
use crate::text::{lossily_decoded, lowercased, option_view, trimmed};
use crate::text_laws::{containing_is_having_in_between, mentions};
use vstd::prelude::*;

verus! {

/// The reply where a command succeeded, with the given output.
pub open spec fn succeeded(stdout: Vec<u8>, stderr: Vec<u8>) -> Reply {
    Reply::Output(Ok(CommandOutput { success: true, stdout, stderr }))
}

/// The reply where a command failed, with the given output.
pub open spec fn failed(stdout: Vec<u8>, stderr: Vec<u8>) -> Reply {
    Reply::Output(Ok(CommandOutput { success: false, stdout, stderr }))
}

/// Whether git says that the remote lets nobody in.
pub open spec fn access_is_refused(lower: Seq<char>) -> bool {
    mentions(lower, "authentication failed"@) || mentions(lower, "permission denied"@) || mentions(
        lower,
        "could not read from remote repository"@,
    )
}

/// Whether git says that a hook stopped a commit.
pub open spec fn hook_speaks(lower: Seq<char>) -> bool {
    mentions(lower, "hook declined"@) || mentions(lower, "pre-commit"@) || mentions(
        lower,
        "commit-msg"@,
    )
}

/// Whether git says that there is nothing to commit.
pub open spec fn nothing_to_commit(lower: Seq<char>) -> bool {
    mentions(lower, "nothing to commit"@) || mentions(lower, "nothing added to commit"@)
        || mentions(lower, "no changes added to commit"@)
}

/// Whether git says that it knows nobody to commit as.
pub open spec fn nobody_to_commit_as(lower: Seq<char>) -> bool {
    mentions(lower, "author identity unknown"@) || mentions(lower, "committer identity unknown"@)
        || mentions(lower, "please tell me who you are"@) || mentions(
        lower,
        "unable to auto-detect email address"@,
    ) || mentions(lower, "empty ident name"@) || mentions(lower, "empty ident email"@)
}

proof fn words_are_found(s: Seq<char>)
    ensures
        forall|word: Seq<char>|
            #![trigger crate::text::contains_text(s, word)]
            crate::text::contains_text(s, word) <==> mentions(s, word),
{
    assert forall|word: Seq<char>|
        #![trigger crate::text::contains_text(s, word)]
        crate::text::contains_text(s, word) <==> mentions(s, word) by {
        containing_is_having_in_between(s, word);
    }
}

/// A command that talks to a remote is run as it is, and succeeds exactly where git does.
pub proof fn remote_commands_succeed_with_git(
    command: RemoteCommand<Seq<char>>,
    output: CommandOutput,
    why: String,
    later: Seq<Reply>,
)
    ensures
        remote_script(command, unanswered()) == Outcome::<Attempt<()>>::Ask(GitOp::Run(command)),
        remote_script(command, upon(Reply::Output(Ok(output)), later)) matches Outcome::Done(r, rest)
            && rest == later && (r is Ok <==> output.success),
        remote_script(command, upon(Reply::Output(Err(why)), later)) matches Outcome::Done(
            Err(SyncError::Other(_)),
            rest,
        ) && rest == later,
{
    broadcast use lemma_upon;

    reveal(remote_script);
}

/// A fetch that fails because the remote has no such branch says so, with the remote and the
/// branch; one that fails because the remote lets nobody in says that; any other gives what git
/// wrote. Nothing but the error output matters.
pub proof fn failed_fetches_say_why(
    remote: Seq<char>,
    branch: Seq<char>,
    stdout: Vec<u8>,
    stderr: Vec<u8>,
    later: Seq<Reply>,
)
    ensures
        ({
            let command = RemoteCommand::Fetch { remote, branch };
            let label = "git fetch "@ + remote + " "@ + branch;
            let written = lossily_decoded(stderr@);
            let missing = mentions(written, "couldn't find remote ref"@);
            let refused = access_is_refused(lowercased(written));
            remote_script(command, upon(failed(stdout, stderr), later)) matches Outcome::Done(
                Err(e),
                _,
            ) && (missing ==> e == (SyncError::<Seq<char>>::RemoteBranchNotFound { remote, branch }))
                && (!missing && refused ==> e == (SyncError::<Seq<char>>::AuthenticationFailed {
                operation: label,
            })) && (e is RemoteBranchNotFound ==> missing) && (e is AuthenticationFailed ==> refused)
                && (!missing && !refused && !(mentions(label, "commit"@) && hook_speaks(
                lowercased(written),
            )) ==> e == (SyncError::<Seq<char>>::GitCommandFailed {
                command: label,
                stderr: trimmed(written),
            }))
        }),
{
    broadcast use lemma_upon;

    reveal(remote_script);
    let written = lossily_decoded(stderr@);
    words_are_found(written);
    words_are_found(lowercased(written));
    words_are_found("git fetch "@ + remote + " "@ + branch);
}

/// A push that fails because the remote lets nobody in says so; any other that does not miss a
/// branch gives what git wrote.
pub proof fn failed_pushes_say_why(
    remote: Seq<char>,
    refspec: Seq<char>,
    stdout: Vec<u8>,
    stderr: Vec<u8>,
    later: Seq<Reply>,
)
    requires
        !mentions(lossily_decoded(stderr@), "couldn't find remote ref"@),
    ensures
        ({
            let plain = RemoteCommand::Push { remote, refspec };
            let upstream = RemoteCommand::PushUpstream { remote, branch: refspec };
            let written = lossily_decoded(stderr@);
            let refused = access_is_refused(lowercased(written));
            &&& remote_script(plain, upon(failed(stdout, stderr), later)) matches Outcome::Done(
                Err(e),
                _,
            ) && (refused ==> e == (SyncError::<Seq<char>>::AuthenticationFailed {
                operation: "git push "@ + remote + " "@ + refspec,
            })) && (!refused && !hook_speaks(lowercased(written)) ==> e == (SyncError::<
                Seq<char>,
            >::GitCommandFailed {
                command: "git push "@ + remote + " "@ + refspec,
                stderr: trimmed(written),
            }))
            &&& remote_script(upstream, upon(failed(stdout, stderr), later)) matches Outcome::Done(
                Err(e),
                _,
            ) && (refused ==> e == (SyncError::<Seq<char>>::AuthenticationFailed {
                operation: "git push -u "@ + remote + " "@ + refspec,
            })) && (!refused && !hook_speaks(lowercased(written)) ==> e == (SyncError::<
                Seq<char>,
            >::GitCommandFailed {
                command: "git push -u "@ + remote + " "@ + refspec,
                stderr: trimmed(written),
            }))
        }),
{
    broadcast use lemma_upon;

    reveal(remote_script);
    let written = lossily_decoded(stderr@);
    words_are_found(written);
    words_are_found(lowercased(written));
}

/// What is fetched and pushed is the branch, from and to the configured remote, under the same
/// name on both sides; and git is told so in that order.
pub proof fn commands_name_the_remote_and_the_branch(
    c: SyncConfig<Seq<char>>,
    branch: Seq<char>,
)
    ensures
        arguments_of(fetch_command(c, branch)) == seq!["fetch"@, c.remote_name, branch],
        arguments_of(push_upstream_command(c, branch)) == seq![
            "push"@,
            "-u"@,
            c.remote_name,
            branch,
        ],
        arguments_of(push_command(c)) == seq![
            "push"@,
            c.remote_name,
            c.branch_name + ":"@ + c.branch_name,
        ],
{
}

/// Hooks are skipped by the option for that, and by nothing else; the message is the last of the
/// arguments. Who commits is told in the environment, as the author and as the committer.
pub proof fn commits_are_told_to_git(message: Seq<char>, name: Seq<char>, email: Seq<char>)
    ensures
        commit_arguments_of(message, false) == seq!["commit"@, "-m"@, message],
        commit_arguments_of(message, true) == seq!["commit"@, "--no-verify"@, "-m"@, message],
        identity_environment_of(name, email).contains(("GIT_AUTHOR_NAME"@, name)),
        identity_environment_of(name, email).contains(("GIT_AUTHOR_EMAIL"@, email)),
        identity_environment_of(name, email).contains(("GIT_COMMITTER_NAME"@, name)),
        identity_environment_of(name, email).contains(("GIT_COMMITTER_EMAIL"@, email)),
        identity_environment_of(name, email).len() == 4,
{
    let env = identity_environment_of(name, email);
    assert(env[0] == ("GIT_AUTHOR_NAME"@, name));
    assert(env[1] == ("GIT_AUTHOR_EMAIL"@, email));
    assert(env[2] == ("GIT_COMMITTER_NAME"@, name));
    assert(env[3] == ("GIT_COMMITTER_EMAIL"@, email));
}

/// A commit succeeds where git does, and counts as one without changes where git says that there
/// is nothing to commit. Where git knows nobody to commit as, it is asked who the user is, and
/// the same commit is tried once more; any other failure is told for what it is.
pub proof fn commits_go_as_git_says(
    message: Seq<char>,
    skip_hooks: bool,
    stdout: Vec<u8>,
    stderr: Vec<u8>,
    why: String,
    later: Seq<Reply>,
)
    ensures
        ({
            let written = lossily_decoded(stderr@) + "\n"@ + lossily_decoded(stdout@);
            let lower = lowercased(written);
            let missing = mentions(written, "couldn't find remote ref"@);
            let r = commit_script(message, skip_hooks, upon(failed(stdout, stderr), later));
            &&& commit_script(message, skip_hooks, unanswered()) == Outcome::<
                Attempt<CommitOutcome>,
            >::Ask(GitOp::Commit { message, skip_hooks, identity: None })
            &&& commit_script(message, skip_hooks, upon(succeeded(stdout, stderr), later))
                == Outcome::<Attempt<CommitOutcome>>::Done(Ok(CommitOutcome::Created), later)
            &&& commit_script(message, skip_hooks, upon(Reply::Output(Err(why)), later))
                == Outcome::<Attempt<CommitOutcome>>::Done(
                Err(SyncError::Other("Failed to run git commit: "@ + why@)),
                later,
            )
            &&& nothing_to_commit(lower) ==> r == Outcome::<Attempt<CommitOutcome>>::Done(
                Ok(CommitOutcome::NoChanges),
                later,
            )
            &&& !nothing_to_commit(lower) && nobody_to_commit_as(lower) ==> commit_script(
                message,
                skip_hooks,
                upon(failed(stdout, stderr), unanswered()),
            ) == Outcome::<Attempt<CommitOutcome>>::Ask(GitOp::UserAndHost)
            &&& !nothing_to_commit(lower) && !nobody_to_commit_as(lower) && !missing ==> {
                &&& access_is_refused(lower) ==> r == Outcome::<Attempt<CommitOutcome>>::Done(
                    Err(SyncError::AuthenticationFailed { operation: "git commit"@ }),
                    later,
                )
                &&& !access_is_refused(lower) && hook_speaks(lower) ==> r == Outcome::<
                    Attempt<CommitOutcome>,
                >::Done(Err(SyncError::HookRejected { details: trimmed(written) }), later)
                &&& !access_is_refused(lower) && !hook_speaks(lower) ==> r == Outcome::<
                    Attempt<CommitOutcome>,
                >::Done(
                    Err(
                        SyncError::GitCommandFailed {
                            command: "git commit"@,
                            stderr: trimmed(written),
                        },
                    ),
                    later,
                )
            }
        }),
{
    broadcast use lemma_upon;

    reveal(commit_script);
    let written = lossily_decoded(stderr@) + "\n"@ + lossily_decoded(stdout@);
    words_are_found(written);
    words_are_found(lowercased(written));
    words_are_found("git commit"@);
    assert(mentions("git commit"@, "commit"@)) by {
        reveal_strlit("git commit");
        reveal_strlit("commit");
        let a = seq!['g', 'i', 't', ' '];
        let b = Seq::<char>::empty();
        assert("git commit"@ =~= a + "commit"@ + b);
    }
}

/// Whether a text can stand on one side of an address: it is not empty, has nothing but lower-case
/// letters and digits of ASCII, full stops, underscores and hyphens in it, and neither begins nor
/// ends with a hyphen.
pub open spec fn fit_for_an_address(part: Seq<char>) -> bool {
    &&& part.len() > 0
    &&& part[0] != '-'
    &&& part.last() != '-'
    &&& forall|i: int|
        0 <= i < part.len() ==> ({
            let c = #[trigger] part[i];
            'a' <= c <= 'z' || '0' <= c <= '9' || c == '.' || c == '_' || c == '-'
        })
}

/// Whoever the user is and whatever the machine is called, the address of the second attempt is
/// one, under the name of the program; and a user and a machine whose names are fit for one are in
/// it as they are.
pub proof fn identities_are_addresses(user: Option<Seq<char>>, host: Option<Seq<char>>)
    ensures
        identity_for(user, host).0 == "git-sync-rs"@,
        exists|local: Seq<char>, domain: Seq<char>|
            #![trigger local + "@"@ + domain]
            identity_for(user, host).1 == local + "@"@ + domain && fit_for_an_address(local)
                && fit_for_an_address(domain) && (user is Some && fit_for_an_address(user->0)
                ==> local == user->0) && (host is Some && fit_for_an_address(host->0) ==> domain
                == host->0) && (user is None ==> local == "git-sync-rs"@) && (host is None
                ==> domain == "localhost"@),
{
    reveal_strlit("git-sync-rs");
    reveal_strlit("localhost");
    let u = crate::sync::transport::unless_blank(user, "git-sync-rs"@);
    let h = crate::sync::transport::unless_blank(host, "localhost"@);
    assert(fit_for_an_address("git-sync-rs"@));
    assert(fit_for_an_address("localhost"@));
    parts_are_fit(u);
    parts_are_fit(h);
    if let Some(user) = user {
        if fit_for_an_address(user) {
            fit_parts_stay(user);
        }
    }
    if let Some(host) = host {
        if fit_for_an_address(host) {
            fit_parts_stay(host);
        }
    }
    fit_parts_stay("git-sync-rs"@);
    fit_parts_stay("localhost"@);
    let local = crate::sync::transport::unless_empty(
        crate::sync::transport::address_part(u),
        "git-sync-rs"@,
    );
    let domain = crate::sync::transport::unless_empty(
        crate::sync::transport::address_part(h),
        "localhost"@,
    );
    assert(identity_for(user, host).1 == local + "@"@ + domain);
}

proof fn parts_are_fit(value: Seq<char>)
    ensures
        ({
            let part = crate::sync::transport::address_part(value);
            part.len() > 0 ==> fit_for_an_address(part)
        }),
{
    let mapped = value.map_values(|c: char| crate::sync::transport::address_char(c));
    let part = crate::sync::transport::address_part(value);
    crate::text_laws::only_outer_hyphens_go(mapped);
    let (a, b) = choose|a: Seq<char>, b: Seq<char>|
        mapped == #[trigger] (a + part + b) && (forall|i: int|
            0 <= i < a.len() ==> #[trigger] a[i] == '-') && (forall|i: int|
            0 <= i < b.len() ==> #[trigger] b[i] == '-');
    assert forall|i: int| 0 <= i < part.len() implies ({
        let c = #[trigger] part[i];
        'a' <= c <= 'z' || '0' <= c <= '9' || c == '.' || c == '_' || c == '-'
    }) by {
        assert(part[i] == mapped[a.len() + i]);
        assert(mapped[a.len() + i] == crate::sync::transport::address_char(value[a.len() + i]));
    }
}

proof fn fit_parts_stay(value: Seq<char>)
    requires
        fit_for_an_address(value),
    ensures
        crate::sync::transport::address_part(value) == value,
        trimmed(value).len() > 0,
{
    let mapped = value.map_values(|c: char| crate::sync::transport::address_char(c));
    assert(mapped =~= value) by {
        assert forall|i: int| 0 <= i < value.len() implies mapped[i] == value[i] by {
            let c = value[i];
            assert('a' <= c <= 'z' || '0' <= c <= '9' || c == '.' || c == '_' || c == '-');
        }
    }
    let drop = |c: char| c == '-';
    assert(crate::text::without_leading(value, drop) == value);
    assert(crate::text::without_trailing(value, drop) == value);
    let c = value[0];
    assert('a' <= c <= 'z' || '0' <= c <= '9' || c == '.' || c == '_' || c == '-');
    assert(!crate::text::white_space(c));
    crate::text_laws::trimming_takes_only_white_space(value);
    if trimmed(value).len() == 0 {
        let (a, b) = choose|a: Seq<char>, b: Seq<char>|
            value == #[trigger] (a + trimmed(value) + b) && (forall|i: int|
                0 <= i < a.len() ==> crate::text::white_space(#[trigger] a[i])) && (forall|i: int|
                0 <= i < b.len() ==> crate::text::white_space(#[trigger] b[i]));
        if a.len() > 0 {
            assert(value[0] == a[0]);
        } else {
            assert(value[0] == b[0]);
        }
    }
}

/// A second attempt ends as git says; where it fails too, both are told.
pub proof fn second_attempts_go_as_git_says(
    message: Seq<char>,
    skip_hooks: bool,
    out: Vec<u8>,
    err: Vec<u8>,
    user: Option<String>,
    host: Option<String>,
    stdout: Vec<u8>,
    stderr: Vec<u8>,
    later: Seq<Reply>,
)
    requires
        ({
            let lower = lowercased(lossily_decoded(err@) + "\n"@ + lossily_decoded(out@));
            !nothing_to_commit(lower) && nobody_to_commit_as(lower)
        }),
    ensures
        ({
            let known = |l: Seq<Reply>| upon(failed(out, err), upon(Reply::UserAndHost(user, host), l));
            let lower = lowercased(lossily_decoded(stderr@) + "\n"@ + lossily_decoded(stdout@));
            let r = commit_script(message, skip_hooks, known(upon(failed(stdout, stderr), later)));
            &&& commit_script(message, skip_hooks, known(unanswered())) == Outcome::<
                Attempt<CommitOutcome>,
            >::Ask(
                GitOp::Commit {
                    message,
                    skip_hooks,
                    identity: Some(identity_for(option_view(user), option_view(host))),
                },
            )
            &&& commit_script(message, skip_hooks, known(upon(succeeded(stdout, stderr), later)))
                == Outcome::<Attempt<CommitOutcome>>::Done(Ok(CommitOutcome::Created), later)
            &&& nothing_to_commit(lower) ==> r == Outcome::<Attempt<CommitOutcome>>::Done(
                Ok(CommitOutcome::NoChanges),
                later,
            )
            &&& !nothing_to_commit(lower) ==> (r matches Outcome::Done(Err(_), rest) && rest
                == later)
        }),
{
    broadcast use lemma_upon;

    reveal(commit_script);
    let first = lossily_decoded(err@) + "\n"@ + lossily_decoded(out@);
    let second = lossily_decoded(stderr@) + "\n"@ + lossily_decoded(stdout@);
    words_are_found(lowercased(first));
    words_are_found(lowercased(second));
}

/// Local changes are staged, with new files where they are synced and without them where they are
/// not; what is staged is committed where it differs from the last commit or there is none, with
/// the message of the configuration, the machine and the time, and with or without hooks as
/// configured; where it does not differ, nothing is committed.
pub proof fn local_changes_are_staged_and_committed(
    c: SyncConfig<Seq<char>>,
    tree: String,
    head: String,
    e: GitError,
    host: String,
    time: String,
    why: String,
    later: Seq<Reply>,
)
    ensures
        ({
            let done = Reply::Done(Ok(()));
            let staged = |l: Seq<Reply>| upon(done, upon(Reply::Text(Ok(tree)), l));
            let differs = |l: Seq<Reply>| staged(upon(Reply::Text(Ok(head)), l));
            let unborn = |l: Seq<Reply>| staged(upon(Reply::Text(Err(e)), l));
            let message = commit_message(c.commit_message, host@, time@);
            let asked = Outcome::<Attempt<()>>::Ask(
                GitOp::Commit { message, skip_hooks: c.skip_hooks, identity: None },
            );
            &&& auto_commit_script(c, unanswered()) == Outcome::<Attempt<()>>::Ask(
                if c.sync_new_files {
                    GitOp::StageAll
                } else {
                    GitOp::StageTracked
                },
            )
            &&& auto_commit_script(c, upon(done, unanswered())) == Outcome::<Attempt<()>>::Ask(
                GitOp::WriteTree,
            )
            &&& auto_commit_script(c, staged(unanswered())) == Outcome::<Attempt<()>>::Ask(
                GitOp::HeadTree,
            )
            &&& head@ == tree@ ==> auto_commit_script(c, differs(later)) == Outcome::<
                Attempt<()>,
            >::Done(Ok(()), later)
            &&& head@ != tree@ ==> {
                &&& auto_commit_script(c, differs(unanswered())) == Outcome::<Attempt<()>>::Ask(
                    GitOp::HostAndTime { layout: TimeLayout::Message },
                )
                &&& auto_commit_script(
                    c,
                    differs(upon(Reply::HostAndTime(Ok(host), time), unanswered())),
                ) == asked
                &&& auto_commit_script(c, differs(upon(Reply::HostAndTime(Err(why), time), later)))
                    == Outcome::<Attempt<()>>::Done(Err(SyncError::IoError(why@)), later)
            }
            &&& e.code == GitErrorCode::UnbornBranch ==> auto_commit_script(
                c,
                unborn(upon(Reply::HostAndTime(Ok(host), time), unanswered())),
            ) == asked
            &&& e.code != GitErrorCode::UnbornBranch ==> auto_commit_script(c, unborn(later))
                == Outcome::<Attempt<()>>::Done(Err(SyncError::GitError(e@)), later)
        }),
{
    broadcast use lemma_upon;

    reveal(auto_commit_script);
    reveal(commit_script);
}

/// A commit of local changes succeeds where git commits, and where it says that there is nothing
/// to commit; where git fails to stage or to commit, so does the commit.
pub proof fn local_commits_go_as_git_says(
    c: SyncConfig<Seq<char>>,
    tree: String,
    head: String,
    host: String,
    time: String,
    stdout: Vec<u8>,
    stderr: Vec<u8>,
    e: GitError,
    later: Seq<Reply>,
)
    requires
        head@ != tree@,
    ensures
        ({
            let ready = |l: Seq<Reply>|
                upon(
                    Reply::Done(Ok(())),
                    upon(
                        Reply::Text(Ok(tree)),
                        upon(
                            Reply::Text(Ok(head)),
                            upon(Reply::HostAndTime(Ok(host), time), l),
                        ),
                    ),
                );
            let lower = lowercased(lossily_decoded(stderr@) + "\n"@ + lossily_decoded(stdout@));
            let r = auto_commit_script(c, ready(upon(failed(stdout, stderr), later)));
            &&& auto_commit_script(c, ready(upon(succeeded(stdout, stderr), later))) == Outcome::<
                Attempt<()>,
            >::Done(Ok(()), later)
            &&& nothing_to_commit(lower) ==> r == Outcome::<Attempt<()>>::Done(Ok(()), later)
            &&& !nothing_to_commit(lower) && !nobody_to_commit_as(lower) ==> (r matches
                Outcome::Done(Err(_), rest) && rest == later)
            &&& auto_commit_script(c, upon(Reply::Done(Err(e)), later)) == Outcome::<
                Attempt<()>,
            >::Done(Err(SyncError::GitError(e@)), later)
        }),
{
    broadcast use lemma_upon;

    reveal(auto_commit_script);
    reveal(commit_script);
    let written = lossily_decoded(stderr@) + "\n"@ + lossily_decoded(stdout@);
    words_are_found(lowercased(written));
}

/// The branch of the configuration is fetched first. Where that fails, so does the fetch, unless
/// the branch has no commits here and the remote has no such branch. Without fallback branches
/// nothing else is fetched.
pub proof fn the_branch_is_fetched(
    c: SyncConfig<Seq<char>>,
    unborn: bool,
    stdout: Vec<u8>,
    stderr: Vec<u8>,
    why: String,
    later: Seq<Reply>,
)
    ensures
        ({
            let missing = mentions(lossily_decoded(stderr@), "couldn't find remote ref"@);
            let r = fetch_script(c, unborn, upon(failed(stdout, stderr), later));
            &&& fetch_script(c, unborn, unanswered()) == Outcome::<Attempt<()>>::Ask(
                GitOp::Run(RemoteCommand::Fetch { remote: c.remote_name, branch: c.branch_name }),
            )
            &&& !c.conflict_branch ==> fetch_script(
                c,
                unborn,
                upon(succeeded(stdout, stderr), later),
            ) == Outcome::<Attempt<()>>::Done(Ok(()), later)
            &&& missing && !unborn ==> r == Outcome::<Attempt<()>>::Done(
                Err(
                    SyncError::RemoteBranchNotFound { remote: c.remote_name, branch: c.branch_name },
                ),
                later,
            )
            &&& missing && unborn && !c.conflict_branch ==> r == Outcome::<Attempt<()>>::Done(
                Ok(()),
                later,
            )
            &&& !missing ==> (r matches Outcome::Done(Err(_), rest) && rest == later)
            &&& fetch_script(c, unborn, upon(Reply::Output(Err(why)), later)) matches Outcome::Done(
                Err(_),
                rest,
            ) && rest == later
        }),
{
    broadcast use lemma_upon;

    reveal(fetch_script);
    reveal(remote_script);
    words_are_found(lossily_decoded(stderr@));
}

/// Where conflicts lead to fallback branches, the branch that is configured to be returned to is
/// fetched too, from the same remote, unless it is the one that was just fetched; whether that
/// succeeds makes no difference.
pub proof fn the_target_is_fetched_too(
    c: SyncConfig<Seq<char>>,
    unborn: bool,
    target: Seq<char>,
    stdout: Vec<u8>,
    stderr: Vec<u8>,
    output: Result<CommandOutput, String>,
    later: Seq<Reply>,
)
    requires
        c.conflict_branch,
        c.target_branch == Some(target),
        target.len() > 0,
    ensures
        target != c.branch_name ==> fetch_script(
            c,
            unborn,
            upon(succeeded(stdout, stderr), unanswered()),
        ) == Outcome::<Attempt<()>>::Ask(
            GitOp::Run(RemoteCommand::Fetch { remote: c.remote_name, branch: target }),
        ),
        target != c.branch_name ==> fetch_script(
            c,
            unborn,
            upon(succeeded(stdout, stderr), upon(Reply::Output(output), later)),
        ) == Outcome::<Attempt<()>>::Done(Ok(()), later),
        target == c.branch_name ==> fetch_script(c, unborn, upon(succeeded(stdout, stderr), later))
            == Outcome::<Attempt<()>>::Done(Ok(()), later),
{
    broadcast use lemma_upon;

    reveal(fetch_script);
    reveal(remote_script);
    reveal(target_branch_script);
}

/// The exit code says what to do: 128 where there is no repository, 1 where the user has to act, 3
/// where it can be tried again later, 2 for everything else that is wrong with the repository or
/// its surroundings; never 0, which is success.
pub proof fn exit_codes_say_what_to_do(e: SyncError<Seq<char>>)
    ensures
        exit_code_of(e) != 0,
        e is NotARepository ==> exit_code_of(e) == 128,
        e is ManualInterventionRequired || e is HookRejected || e is BranchNotConfigured
            ==> exit_code_of(e) == 1,
        e is NetworkError || e is AuthenticationFailed ==> exit_code_of(e) == 3,
        e is UnsafeRepositoryState || e is DetachedHead || e is NoRemoteConfigured
            || e is RemoteBranchNotFound || e is GitCommandFailed || e is IoError || e is WatchError
            || e is TaskError || e is Other ==> exit_code_of(e) == 2,
        e matches SyncError::GitError(g) ==> exit_code_of(e) == if g.code == GitErrorCode::NotFound {
            128int
        } else if g.code == GitErrorCode::Conflict {
            1
        } else {
            2
        },
{
}

/// Whatever branch conflicts are to be returned from to, be it configured or found to be the
/// default, is fetched from the configured remote, once the branch itself was fetched or, where it
/// has no commits, turned out not to be there; where it cannot be told which one it is, nothing
/// else is fetched.
pub proof fn any_target_is_fetched_too(
    c: SyncConfig<Seq<char>>,
    stdout: Vec<u8>,
    stderr: Vec<u8>,
    a: Seq<Reply>,
    target: Seq<char>,
    b: Seq<Reply>,
    x: SyncError<Seq<char>>,
    unborn: bool,
)
    requires
        c.conflict_branch,
    ensures
        ({
            let missing = mentions(lossily_decoded(stderr@), "couldn't find remote ref"@);
            let which = target_branch_script(c.target_branch, a);
            let follows_up = |out: Outcome<Attempt<()>>|
                {
                    &&& which matches Outcome::Ask(op) ==> out == Outcome::<Attempt<()>>::Ask(op)
                    &&& which == Outcome::<Attempt<Seq<char>>>::Done(Err(x), b) ==> out
                        == Outcome::<Attempt<()>>::Done(Ok(()), b)
                    &&& which == Outcome::<Attempt<Seq<char>>>::Done(Ok(target), b) && target
                        == c.branch_name ==> out == Outcome::<Attempt<()>>::Done(Ok(()), b)
                    &&& which == Outcome::<Attempt<Seq<char>>>::Done(Ok(target), b) && target
                        != c.branch_name && b.len() == 0 ==> out == Outcome::<Attempt<()>>::Ask(
                        GitOp::Run(
                            RemoteCommand::Fetch { remote: c.remote_name, branch: target },
                        ),
                    )
                    &&& which == Outcome::<Attempt<Seq<char>>>::Done(Ok(target), b) && target
                        != c.branch_name && b.len() > 0 && b[0] is Output ==> out == Outcome::<
                        Attempt<()>,
                    >::Done(Ok(()), b.skip(1))
                };
            &&& follows_up(fetch_script(c, unborn, upon(succeeded(stdout, stderr), a)))
            &&& missing && unborn ==> follows_up(
                fetch_script(c, unborn, upon(failed(stdout, stderr), a)),
            )
        }),
{
    broadcast use lemma_upon;

    reveal(fetch_script);
    reveal(remote_script);
    words_are_found(lossily_decoded(stderr@));
}

/// A command that could not be run says which one, and why.
pub proof fn commands_that_do_not_run_say_so(
    remote: Seq<char>,
    branch: Seq<char>,
    why: String,
    later: Seq<Reply>,
)
    ensures
        ({
            let none = upon(Reply::Output(Err(why)), later);
            let fetch = Outcome::<Attempt<()>>::Done(
                Err(SyncError::Other("Failed to run git fetch: "@ + why@)),
                later,
            );
            let push = Outcome::<Attempt<()>>::Done(
                Err(SyncError::Other("Failed to run git push: "@ + why@)),
                later,
            );
            &&& remote_script(RemoteCommand::Fetch { remote, branch }, none) == fetch
            &&& remote_script(RemoteCommand::Push { remote, refspec: branch }, none) == push
            &&& remote_script(RemoteCommand::PushUpstream { remote, branch }, none) == push
        }),
{
    broadcast use lemma_upon;

    reveal(remote_script);
}

/// A push that misses a branch of the remote says so, with the branch where it names one.
pub proof fn pushes_may_miss_a_branch(
    remote: Seq<char>,
    branch: Seq<char>,
    stdout: Vec<u8>,
    stderr: Vec<u8>,
    later: Seq<Reply>,
)
    requires
        mentions(lossily_decoded(stderr@), "couldn't find remote ref"@),
    ensures
        remote_script(
            RemoteCommand::PushUpstream { remote, branch },
            upon(failed(stdout, stderr), later),
        ) == Outcome::<Attempt<()>>::Done(
            Err(SyncError::RemoteBranchNotFound { remote, branch }),
            later,
        ),
        remote_script(
            RemoteCommand::Push { remote, refspec: branch },
            upon(failed(stdout, stderr), later),
        ) == Outcome::<Attempt<()>>::Done(
            Err(SyncError::RemoteBranchNotFound { remote, branch: "<unknown>"@ }),
            later,
        ),
{
    broadcast use lemma_upon;

    reveal(remote_script);
    words_are_found(lossily_decoded(stderr@));
}

/// Where both attempts of a commit fail, what both wrote is told, and whether a hook has spoken in
/// either; a second attempt that could not be run says so.
pub proof fn both_attempts_are_told(
    message: Seq<char>,
    skip_hooks: bool,
    out: Vec<u8>,
    err: Vec<u8>,
    user: Option<String>,
    host: Option<String>,
    stdout: Vec<u8>,
    stderr: Vec<u8>,
    why: String,
    later: Seq<Reply>,
)
    requires
        ({
            let lower = lowercased(lossily_decoded(err@) + "\n"@ + lossily_decoded(out@));
            !nothing_to_commit(lower) && nobody_to_commit_as(lower)
        }),
        !nothing_to_commit(
            lowercased(lossily_decoded(stderr@) + "\n"@ + lossily_decoded(stdout@)),
        ),
    ensures
        ({
            let first = lossily_decoded(err@) + "\n"@ + lossily_decoded(out@);
            let second = lossily_decoded(stderr@) + "\n"@ + lossily_decoded(stdout@);
            let both =
                "git commit failed due to missing identity, fallback identity retry also failed.\n\ninitial:\n"@
                + trimmed(first) + "\n\nfallback retry:\n"@ + trimmed(second);
            let lower = lowercased(both);
            let known = |l: Seq<Reply>|
                upon(failed(out, err), upon(Reply::UserAndHost(user, host), l));
            let r = commit_script(message, skip_hooks, known(upon(failed(stdout, stderr), later)));
            let missing = mentions(both, "couldn't find remote ref"@);
            &&& !missing && !access_is_refused(lower) && hook_speaks(lower) ==> r == Outcome::<
                Attempt<CommitOutcome>,
            >::Done(Err(SyncError::HookRejected { details: trimmed(both) }), later)
            &&& !missing && !access_is_refused(lower) && !hook_speaks(lower) ==> r == Outcome::<
                Attempt<CommitOutcome>,
            >::Done(
                Err(
                    SyncError::GitCommandFailed {
                        command: "git commit"@,
                        stderr: trimmed(both),
                    },
                ),
                later,
            )
            &&& commit_script(message, skip_hooks, known(upon(Reply::Output(Err(why)), later)))
                == Outcome::<Attempt<CommitOutcome>>::Done(
                Err(SyncError::Other("Failed to rerun git commit: "@ + why@)),
                later,
            )
        }),
{
    broadcast use lemma_upon;

    reveal(commit_script);
    let first = lossily_decoded(err@) + "\n"@ + lossily_decoded(out@);
    let second = lossily_decoded(stderr@) + "\n"@ + lossily_decoded(stdout@);
    let both =
        "git commit failed due to missing identity, fallback identity retry also failed.\n\ninitial:\n"@
        + trimmed(first) + "\n\nfallback retry:\n"@ + trimmed(second);
    words_are_found(lowercased(first));
    words_are_found(lowercased(second));
    words_are_found(both);
    words_are_found(lowercased(both));
    words_are_found("git commit"@);
    assert(mentions("git commit"@, "commit"@)) by {
        reveal_strlit("git commit");
        reveal_strlit("commit");
        let a = seq!['g', 'i', 't', ' '];
        let b = Seq::<char>::empty();
        assert("git commit"@ =~= a + "commit"@ + b);
    }
}

/// In an address letters are in lower case, and what does not belong there is a hyphen; the rest is
/// as it was, in the same order.
pub proof fn addresses_keep_what_belongs_there(value: Seq<char>, i: int)
    requires
        value.len() > 0,
        crate::text::ascii_alphanumeric(value[0]),
        crate::text::ascii_alphanumeric(value.last()),
        0 <= i < value.len(),
    ensures
        ({
            let part = crate::sync::transport::address_part(value);
            let c = value[i];
            &&& part.len() == value.len()
            &&& 'a' <= c <= 'z' || '0' <= c <= '9' || c == '.' || c == '_' || c == '-' ==> part[i]
                == c
            &&& 'A' <= c <= 'Z' ==> part[i] as u32 == c as u32 + 32
            &&& !('a' <= c <= 'z' || '0' <= c <= '9' || c == '.' || c == '_' || c == '-' || 'A'
                <= c <= 'Z') ==> part[i] == '-'
        }),
{
    let mapped = value.map_values(|c: char| crate::sync::transport::address_char(c));
    let drop = |c: char| c == '-';
    assert(mapped[0] != '-');
    assert(mapped.last() != '-');
    assert(crate::text::without_leading(mapped, drop) == mapped);
    assert(crate::text::without_trailing(mapped, drop) == mapped);
}

/// What is shown for an error says what kind it is and all that is known of it.
pub proof fn messages_say_all_that_is_known(
    a: Seq<char>,
    b: Seq<char>,
    code: GitErrorCode,
)
    ensures
        message_of(SyncError::NotARepository { path: a }) == "Not a git repository: "@ + a,
        message_of(SyncError::UnsafeRepositoryState { state: a }) == "Repository in unsafe state: "@
            + a,
        message_of(SyncError::DetachedHead) == "Not on a branch (detached HEAD)"@,
        message_of(SyncError::NoRemoteConfigured { branch: a })
            == "No remote configured for branch "@ + a,
        message_of(SyncError::RemoteBranchNotFound { remote: a, branch: b })
            == "Remote branch not found: "@ + a + "/"@ + b,
        message_of(SyncError::BranchNotConfigured { branch: a }) == "Branch "@ + a
            + " not configured for sync"@,
        message_of(SyncError::ManualInterventionRequired { reason: a })
            == "Manual intervention required: "@ + a,
        message_of(SyncError::NetworkError(a)) == "Network error: "@ + a,
        message_of(SyncError::AuthenticationFailed { operation: a })
            == "Authentication failed during "@ + a,
        message_of(SyncError::GitCommandFailed { command: a, stderr: b })
            == "Git command failed: "@ + a + "\n"@ + b,
        message_of(SyncError::HookRejected { details: a }) == "Git hooks rejected commit: "@ + a,
        message_of(SyncError::GitError(GitError { code, description: a })) == "Git error: "@ + a,
        message_of(SyncError::IoError(a)) == "IO error: "@ + a,
        message_of(SyncError::WatchError(a)) == "Watch error: "@ + a,
        message_of(SyncError::TaskError(a)) == "Task error: "@ + a,
        message_of(SyncError::Other(a)) == "Other error: "@ + a,
{
}

/// A user or a machine without a name that says anything is called what the program and this
/// machine are called: where there is no name, where it is blank, and where nothing of it belongs
/// in an address.
pub proof fn nameless_ones_are_called_something(name: Seq<char>, host: Option<Seq<char>>)
    requires
        trimmed(name).len() == 0 || forall|i: int|
            0 <= i < name.len() ==> {
                let c = #[trigger] name[i];
                !crate::text::ascii_alphanumeric(c) && c != '.' && c != '_'
            },
    ensures
        identity_for(Some(name), host) == identity_for(None, host),
        identity_for(host, Some(name)) == identity_for(host, None),
{
    reveal_strlit("git-sync-rs");
    reveal_strlit("localhost");
    assert(fit_for_an_address("git-sync-rs"@));
    assert(fit_for_an_address("localhost"@));
    fit_parts_stay("git-sync-rs"@);
    fit_parts_stay("localhost"@);
    if trimmed(name).len() > 0 {
        let mapped = name.map_values(|c: char| crate::sync::transport::address_char(c));
        assert forall|i: int| 0 <= i < mapped.len() implies #[trigger] mapped[i] == '-' by {
            let c = name[i];
            assert(!crate::text::ascii_alphanumeric(c));
        }
        nothing_is_left(mapped);
    }
}

proof fn nothing_is_left(s: Seq<char>)
    requires
        forall|i: int| 0 <= i < s.len() ==> #[trigger] s[i] == '-',
    ensures
        crate::text::without_outer_hyphens(s).len() == 0,
{
    crate::text_laws::only_outer_hyphens_go(s);
    let t = crate::text::without_outer_hyphens(s);
    let (a, b) = choose|a: Seq<char>, b: Seq<char>|
        s == #[trigger] (a + t + b) && (forall|i: int|
            0 <= i < a.len() ==> #[trigger] a[i] == '-') && (forall|i: int|
            0 <= i < b.len() ==> #[trigger] b[i] == '-');
    if t.len() > 0 {
        assert(s[a.len() as int] == t[0]);
    }
}

} // verus!
