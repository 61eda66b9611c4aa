use git_sync_rs::error::{GitError, GitErrorCode};
use git_sync_rs::sync::branch::CurrentBranch;
use git_sync_rs::sync::changes::{INDEX_MODIFIED, WT_MODIFIED, WT_NEW};
use git_sync_rs::sync::commit::render_commit_message;
use git_sync_rs::sync::create::{
    candidate_name, generate_fallback_branch_name, is_fallback_branch,
};
use git_sync_rs::sync::step::{
    CommandOutput, GitOp, HeadInfo, Operation, Procedure, RebaseStep, RemoteCommand, Reply,
    StatusEntry, Step, TimeLayout,
};
use git_sync_rs::sync::unhandled::CONFLICTED;
use git_sync_rs::{
    RepositoryState, RepositorySynchronizer, SyncConfig, SyncError, SyncState, UnhandledFileState,
};

fn text(s: &str) -> Reply {
    Reply::Text(Ok(s.to_string()))
}

fn maybe(s: &str) -> Reply {
    Reply::Maybe(Ok(Some(s.to_string())))
}

fn ok() -> Reply {
    Reply::Done(Ok(()))
}

fn error(description: &str) -> GitError {
    GitError {
        code: GitErrorCode::Other,
        description: description.to_string(),
    }
}

fn on(branch: &str) -> Reply {
    Reply::Head(Ok(HeadInfo {
        is_branch: true,
        shorthand: Some(branch.to_string()),
    }))
}

fn ran(success: bool, stderr: &str) -> Reply {
    Reply::Output(Ok(CommandOutput {
        success,
        stdout: Vec::new(),
        stderr: stderr.as_bytes().to_vec(),
    }))
}

fn files(flags: &[u32]) -> Reply {
    Reply::Statuses(Ok(flags
        .iter()
        .enumerate()
        .map(|(i, flags)| StatusEntry {
            path: Some(format!("file{i}")),
            flags: *flags,
        })
        .collect()))
}

fn moment() -> Reply {
    Reply::HostAndTime(Ok("box".to_string()), "now".to_string())
}

fn synchronizer(config: SyncConfig) -> RepositorySynchronizer {
    RepositorySynchronizer::new("/repo", config, true).unwrap()
}

fn plain() -> RepositorySynchronizer {
    synchronizer(SyncConfig {
        branch_name: "main".to_string(),
        ..SyncConfig::default()
    })
}

fn with_fallback() -> RepositorySynchronizer {
    synchronizer(SyncConfig {
        conflict_branch: true,
        target_branch: Some("main".to_string()),
        ..SyncConfig::default()
    })
}

/// Runs a procedure with the given replies. All of them have to be used.
fn run<P: Procedure>(step: Step<P, P::Output>, replies: Vec<Reply>) -> (Vec<GitOp>, P::Output) {
    let mut asked = Vec::new();
    let mut replies = replies.into_iter();
    let mut step = step;
    loop {
        match step {
            Step::Done(output) => {
                assert!(replies.next().is_none(), "not all replies were used");
                return (asked, output);
            }
            Step::Ask(run, op) => {
                asked.push(op);
                let reply = replies.next();
                match reply {
                    Some(reply) => step = run.resume(reply),
                    None => panic!("no reply to {:?}", asked.last()),
                }
            }
        }
    }
}

/// What a repository in order says up to the point where the branch is fetched.
fn ready(branch: &str) -> Vec<Reply> {
    vec![
        Reply::Flag(Ok(false)),
        Reply::Operation(Operation::Clean),
        files(&[]),
        files(&[]),
        on(branch),
    ]
}

#[test]
fn what_is_in_progress_is_told_apart() {
    let cases = [
        (Operation::Merge, RepositoryState::Merging),
        (Operation::Revert, RepositoryState::Reverting),
        (Operation::RevertSequence, RepositoryState::Reverting),
        (Operation::CherryPick, RepositoryState::CherryPicking),
        (Operation::CherryPickSequence, RepositoryState::CherryPicking),
        (Operation::Bisect, RepositoryState::Bisecting),
        (Operation::Rebase, RepositoryState::Rebasing),
        (Operation::RebaseInteractive, RepositoryState::Rebasing),
        (Operation::RebaseMerge, RepositoryState::Rebasing),
        (Operation::ApplyMailbox, RepositoryState::ApplyingPatches),
        (Operation::ApplyMailboxOrRebase, RepositoryState::ApplyingPatches),
    ];
    for (operation, expected) in cases {
        let replies = vec![Reply::Flag(Ok(false)), Reply::Operation(operation)];
        let (_, state) = run(plain().get_repository_state(), replies);
        assert_eq!(state.unwrap(), expected);
        let replies = vec![Reply::Flag(Ok(false)), Reply::Operation(operation)];
        let (_, (result, _)) = run(plain().sync(false), replies);
        assert!(matches!(
            result,
            Err(SyncError::UnsafeRepositoryState { ref state }) if *state == format!("{expected:?}")
        ));
    }
    let dirty = vec![
        Reply::Flag(Ok(false)),
        Reply::Operation(Operation::Clean),
        files(&[WT_NEW]),
    ];
    let (asked, state) = run(plain().get_repository_state(), dirty);
    assert_eq!(state.unwrap(), RepositoryState::Dirty);
    assert_eq!(asked[2], GitOp::Statuses { untracked: true });
    let (_, state) = run(plain().get_repository_state(), vec![Reply::Flag(Ok(true))]);
    assert_eq!(state.unwrap(), RepositoryState::DetachedHead);
}

#[test]
fn staged_and_unstaged_changes_count_and_new_files_where_they_are_synced() {
    let changed = |new_files: bool, flags: &[u32]| {
        let synchronizer = synchronizer(SyncConfig {
            sync_new_files: new_files,
            ..SyncConfig::default()
        });
        run(synchronizer.has_local_changes(), vec![files(flags)])
            .1
            .unwrap()
    };
    assert!(!changed(true, &[]));
    assert!(changed(true, &[0, WT_NEW]));
    assert!(!changed(false, &[WT_NEW]));
    assert!(changed(false, &[WT_NEW, WT_MODIFIED]));
    assert!(changed(false, &[INDEX_MODIFIED]));
    assert!(!changed(true, &[CONFLICTED]));
}

#[test]
fn a_file_with_conflicts_stops_everything() {
    let (_, found) = run(
        plain().check_unhandled_files(),
        vec![files(&[WT_MODIFIED, CONFLICTED | WT_MODIFIED, CONFLICTED])],
    );
    assert_eq!(
        found.unwrap(),
        Some(UnhandledFileState::Conflicted {
            path: "file1".to_string()
        })
    );
    let mut replies = ready("main");
    replies.truncate(3);
    replies.push(Reply::Statuses(Ok(vec![StatusEntry {
        path: None,
        flags: CONFLICTED,
    }])));
    let (_, (result, _)) = run(plain().sync(true), replies);
    assert!(matches!(
        result,
        Err(SyncError::ManualInterventionRequired { ref reason })
            if reason == "Conflicted file: <unknown>"
    ));
}

#[test]
fn the_branch_that_is_checked_out_is_found() {
    let current = |replies: Vec<Reply>| run(plain().get_current_branch(), replies).1;
    assert!(matches!(
        current(vec![on("main")]),
        Ok(CurrentBranch { ref name, unborn: false }) if name == "main"
    ));
    let detached = Reply::Head(Ok(HeadInfo {
        is_branch: false,
        shorthand: Some("HEAD".to_string()),
    }));
    assert!(matches!(
        current(vec![detached]),
        Err(SyncError::DetachedHead)
    ));
    let nameless = Reply::Head(Ok(HeadInfo {
        is_branch: true,
        shorthand: None,
    }));
    assert!(matches!(
        current(vec![nameless]),
        Err(SyncError::Other(ref why)) if why == "Could not get branch name"
    ));
    let unborn = || {
        Reply::Head(Err(GitError {
            code: GitErrorCode::UnbornBranch,
            description: "unborn".to_string(),
        }))
    };
    assert!(matches!(
        current(vec![unborn(), maybe("refs/heads/a/b")]),
        Ok(CurrentBranch { ref name, unborn: true }) if name == "a/b"
    ));
    assert!(matches!(
        current(vec![unborn(), maybe("refs/other")]),
        Err(SyncError::GitError(ref e)) if e.description == "unborn"
    ));
    assert!(matches!(
        current(vec![Reply::Head(Err(error("no")))]),
        Err(SyncError::GitError(_))
    ));
    assert!(matches!(
        current(vec![ok()]),
        Err(SyncError::Other(ref why)) if why == "Reply does not fit the operation"
    ));
}

#[test]
fn branches_are_compared_with_their_upstream() {
    let compared = |counts: (usize, usize)| {
        let replies = vec![on("main"), maybe("a"), maybe("b"), Reply::Counts(Ok(counts))];
        run(plain().get_sync_state(), replies).1.unwrap()
    };
    assert_eq!(compared((0, 0)), SyncState::Equal);
    assert_eq!(compared((2, 0)), SyncState::Ahead(2));
    assert_eq!(compared((0, 3)), SyncState::Behind(3));
    assert_eq!(
        compared((2, 3)),
        SyncState::Diverged {
            ahead: 2,
            behind: 3
        }
    );
    let (asked, state) = run(
        plain().get_sync_state(),
        vec![on("main"), maybe("a"), maybe("a")],
    );
    assert_eq!(state.unwrap(), SyncState::Equal);
    assert_eq!(
        asked[2],
        GitOp::UpstreamOid {
            branch: "main".to_string()
        }
    );
    let none = vec![on("main"), maybe("a"), Reply::Maybe(Err(error("none")))];
    assert_eq!(
        run(plain().get_sync_state(), none).1.unwrap(),
        SyncState::NoUpstream
    );
    let local = vec![on("main"), Reply::Maybe(Ok(None)), maybe("a")];
    assert_eq!(
        run(plain().get_sync_state(), local).1.unwrap_err().message(),
        "Other error: Could not get local branch OID"
    );
    let upstream = vec![on("main"), maybe("a"), Reply::Maybe(Ok(None))];
    assert_eq!(
        run(plain().get_sync_state(), upstream)
            .1
            .unwrap_err()
            .message(),
        "Other error: Could not get upstream branch OID"
    );
}

#[test]
fn messages_and_branch_names_say_where_and_when() {
    let template = |t: &str| Some(t.to_string());
    assert_eq!(
        render_commit_message(&None, "box", "noon"),
        "changes from box on noon"
    );
    assert_eq!(
        render_commit_message(&template("{hostname}{hostname} {timestamp} {x}"), "b", "t"),
        "bb t {x}"
    );
    // What is filled in first is not looked at again for the same placeholder.
    assert_eq!(
        render_commit_message(&template("{hostname}"), "{hostname}", "t"),
        "{hostname}"
    );
    assert_eq!(
        generate_fallback_branch_name(Ok("box".to_string()), "2026-01-23-143052"),
        "git-sync/box-2026-01-23-143052"
    );
    assert_eq!(
        generate_fallback_branch_name(Err("no".to_string()), "t"),
        "git-sync/unknown-t"
    );
    assert!(is_fallback_branch("git-sync/x") && !is_fallback_branch("my/git-sync/x"));
    let (_, on_fallback) = run(with_fallback().is_on_fallback_branch(), vec![on("git-sync/x")]);
    assert!(on_fallback.unwrap());
}

#[test]
fn nothing_is_committed_where_nothing_differs() {
    let (asked, result) = run(plain().auto_commit(), vec![ok(), text("tree"), text("tree")]);
    assert!(result.is_ok());
    assert_eq!(asked, vec![GitOp::StageAll, GitOp::WriteTree, GitOp::HeadTree]);
    let replies = vec![ok(), text("new"), text("old"), moment(), ran(true, "")];
    let (asked, result) = run(plain().auto_commit(), replies);
    assert!(result.is_ok());
    assert_eq!(
        asked[3],
        GitOp::HostAndTime {
            layout: TimeLayout::Message
        }
    );
    assert_eq!(
        asked[4],
        GitOp::Commit {
            message: "changes from box on now".to_string(),
            skip_hooks: false,
            identity: None
        }
    );
    let nameless = Reply::HostAndTime(Err("no name".to_string()), "now".to_string());
    let (_, result) = run(
        plain().auto_commit(),
        vec![ok(), text("new"), text("old"), nameless],
    );
    assert!(matches!(result, Err(SyncError::IoError(ref why)) if why == "no name"));
    let (_, result) = run(plain().auto_commit(), vec![Reply::Done(Err(error("locked")))]);
    assert!(matches!(result, Err(SyncError::GitError(_))));
}

#[test]
fn the_target_is_fetched_too_where_there_are_fallback_branches() {
    let (asked, result) = run(plain().fetch(), vec![ran(true, "")]);
    assert!(result.is_ok());
    assert_eq!(
        asked,
        vec![GitOp::Run(RemoteCommand::Fetch {
            remote: "origin".to_string(),
            branch: "main".to_string()
        })]
    );
    let mut other = with_fallback();
    other.config.branch_name = "git-sync/x".to_string();
    // The second of the two may fail.
    let (asked, result) = run(other.fetch(), vec![ran(true, ""), ran(false, "no")]);
    assert!(result.is_ok());
    assert_eq!(
        asked[1],
        GitOp::Run(RemoteCommand::Fetch {
            remote: "origin".to_string(),
            branch: "main".to_string()
        })
    );
    let (_, result) = run(plain().fetch(), vec![ran(false, "couldn't find remote ref main")]);
    assert!(matches!(
        result,
        Err(SyncError::RemoteBranchNotFound { .. })
    ));
}

#[test]
fn a_fast_forward_goes_to_the_upstream() {
    let replies = vec![on("main"), maybe("abc"), ok(), ok(), ok()];
    let (asked, result) = run(plain().fast_forward_merge(), replies);
    assert!(result.is_ok());
    assert_eq!(
        asked[2..],
        [
            GitOp::SetHeadTarget {
                oid: "abc".to_string(),
                message: "fast-forward merge".to_string()
            },
            GitOp::CheckoutTree {
                oid: "abc".to_string()
            },
            GitOp::SetHead {
                name: "refs/heads/main".to_string()
            },
        ]
    );
    let (_, result) = run(
        plain().fast_forward_merge(),
        vec![on("main"), Reply::Maybe(Ok(None))],
    );
    assert_eq!(
        result.unwrap_err().message(),
        "Other error: Could not get upstream OID"
    );
}

fn up_to_rebase() -> Vec<Reply> {
    vec![on("main"), text("u"), text("l"), text("b"), ok()]
}

fn applied(conflicts: bool) -> Reply {
    Reply::Rebase(Ok(RebaseStep::Applied { conflicts }))
}

#[test]
fn a_rebase_applies_commit_after_commit() {
    let mut replies = up_to_rebase();
    replies.extend([applied(false), ok(), applied(false), ok()]);
    replies.push(Reply::Rebase(Ok(RebaseStep::Finished)));
    replies.extend([ok(), text("head"), ok()]);
    let (asked, result) = run(plain().rebase(), replies);
    assert!(result.is_ok());
    assert_eq!(
        asked[3],
        GitOp::MergeBase {
            one: "l".to_string(),
            two: "u".to_string()
        }
    );
    assert_eq!(
        asked[5..],
        [
            GitOp::NextRebaseStep,
            GitOp::CommitRebaseStep,
            GitOp::NextRebaseStep,
            GitOp::CommitRebaseStep,
            GitOp::NextRebaseStep,
            GitOp::FinishRebase,
            GitOp::HeadCommit,
            GitOp::CheckoutTree {
                oid: "head".to_string()
            },
        ]
    );
}

#[test]
fn conflicts_give_a_rebase_up() {
    let mut replies = up_to_rebase();
    replies.extend([applied(true), ok()]);
    let (asked, result) = run(plain().rebase(), replies);
    assert_eq!(asked.last(), Some(&GitOp::AbortRebase));
    assert_eq!(
        result.unwrap_err().message(),
        "Manual intervention required: Rebase conflicts detected. Please resolve manually."
    );
    let mut replies = up_to_rebase();
    replies.extend([applied(true), ok(), moment(), Reply::Flag(Ok(false))]);
    replies.extend([text("head"), ok(), ok(), ok()]);
    replies.extend([files(&[]), ran(true, "")]);
    let (asked, result) = run(with_fallback().rebase(), replies);
    assert!(result.is_ok());
    assert_eq!(
        asked[10],
        GitOp::CreateBranch {
            branch: "git-sync/box-now".to_string(),
            oid: "head".to_string()
        }
    );
    assert_eq!(
        asked.last(),
        Some(&GitOp::Run(RemoteCommand::PushUpstream {
            remote: "origin".to_string(),
            branch: "git-sync/box-now".to_string()
        }))
    );
}

#[test]
fn a_fallback_branch_that_cannot_be_made_is_reported() {
    let taken = Reply::Done(Err(error("exists")));
    let (_, result) = run(
        plain().create_fallback_branch(),
        vec![moment(), Reply::Flag(Ok(false)), text("head"), taken],
    );
    assert_eq!(
        result.unwrap_err().message(),
        "Other error: Failed to create fallback branch: exists"
    );
    let stuck = Reply::Done(Err(error("busy")));
    let (_, result) = run(
        plain().create_fallback_branch(),
        vec![moment(), Reply::Flag(Ok(false)), text("head"), ok(), ok(), stuck],
    );
    assert_eq!(
        result.unwrap_err().message(),
        "Other error: Failed to checkout fallback branch: busy"
    );
}

#[test]
fn a_fallback_branch_takes_no_name_that_there_is() {
    let replies = vec![
        moment(),
        Reply::Flag(Ok(true)),
        Reply::Flag(Ok(true)),
        Reply::Flag(Ok(false)),
        text("head"),
        ok(),
        ok(),
        ok(),
    ];
    let (asked, result) = run(plain().create_fallback_branch(), replies);
    assert_eq!(result.unwrap(), "git-sync/box-now-3");
    let tried = |name: &str| GitOp::BranchExists {
        branch: name.to_string(),
    };
    assert_eq!(
        asked[1..4],
        [
            tried("git-sync/box-now"),
            tried("git-sync/box-now-2"),
            tried("git-sync/box-now-3")
        ]
    );
    assert_eq!(
        asked[5],
        GitOp::CreateBranch {
            branch: "git-sync/box-now-3".to_string(),
            oid: "head".to_string()
        }
    );
    assert_eq!(candidate_name("b", u64::MAX), "b-18446744073709551615");
    let odd = Reply::Flag(Err(error("odd")));
    let (_, result) = run(plain().create_fallback_branch(), vec![moment(), odd]);
    assert!(matches!(result, Err(SyncError::GitError(_))));
}

#[test]
fn the_configured_branch_is_no_fallback_branch() {
    let configured = |branch: &str| {
        synchronizer(SyncConfig {
            conflict_branch: true,
            target_branch: Some(branch.to_string()),
            ..SyncConfig::default()
        })
    };
    let (_, on_fallback) = run(
        configured("git-sync/x").is_on_fallback_branch(),
        vec![on("git-sync/x")],
    );
    assert!(!on_fallback.unwrap());
    let (_, on_fallback) = run(
        configured("git-sync/y").is_on_fallback_branch(),
        vec![on("git-sync/x")],
    );
    assert!(on_fallback.unwrap());
    let (asked, (result, after)) = run(
        configured("git-sync/x").try_return_to_target(),
        vec![on("git-sync/x")],
    );
    assert!(!result.unwrap());
    assert_eq!(asked.len(), 1);
    assert_eq!(after.config.target_branch.as_deref(), Some("git-sync/x"));
    // The same where it is the default branch of the remote.
    let (_, (result, _)) = run(
        plain().try_return_to_target(),
        vec![on("git-sync/x"), maybe("origin/git-sync/x")],
    );
    assert!(!result.unwrap());
}

#[test]
fn merges_are_tried_in_memory() {
    let mergeable = |replies: Vec<Reply>| run(plain().can_merge_cleanly("main"), replies);
    let (asked, result) = mergeable(vec![
        maybe("t"),
        text("t"),
        text("h"),
        Reply::Flag(Ok(false)),
        Reply::Flag(Ok(true)),
    ]);
    assert!(!result.unwrap());
    assert_eq!(
        asked[0],
        GitOp::ReferenceOid {
            name: "refs/remotes/origin/main".to_string()
        }
    );
    assert_eq!(
        asked[4],
        GitOp::MergeConflicts {
            ours: "h".to_string(),
            theirs: "t".to_string()
        }
    );
    let (_, result) = mergeable(vec![maybe("t"), text("t"), text("h"), Reply::Flag(Ok(true))]);
    assert!(result.unwrap());
    let (_, result) = mergeable(vec![Reply::Maybe(Err(error("gone")))]);
    assert_eq!(
        result.unwrap_err().message(),
        "Other error: Failed to find target branch main: gone"
    );
    let (_, result) = mergeable(vec![
        maybe("t"),
        text("t"),
        text("h"),
        Reply::Flag(Ok(false)),
        Reply::Flag(Err(error("odd"))),
    ]);
    assert_eq!(
        result.unwrap_err().message(),
        "Other error: Failed to perform merge check: odd"
    );
}

#[test]
fn the_target_branch_is_configured_or_detected() {
    let (asked, target) = run(with_fallback().get_target_branch(), Vec::new());
    assert!(asked.is_empty());
    assert_eq!(target.unwrap(), "main");
    let detected = |replies: Vec<Reply>| run(plain().get_target_branch(), replies).1.unwrap();
    let no = || Reply::Flag(Ok(false));
    assert_eq!(detected(vec![maybe("origin/trunk")]), "trunk");
    let elsewhere = || maybe("backup/trunk");
    assert_eq!(detected(vec![elsewhere(), Reply::Flag(Ok(true))]), "main");
    assert_eq!(
        detected(vec![elsewhere(), no(), Reply::Flag(Ok(true))]),
        "main"
    );
    let replies = vec![elsewhere(), no(), no(), Reply::Flag(Ok(true))];
    assert_eq!(detected(replies), "master");
    let replies = vec![elsewhere(), no(), no(), no(), no(), on("dev")];
    assert_eq!(detected(replies), "dev");
}

#[test]
fn a_fallback_branch_is_left_only_where_nothing_stands_in_the_way() {
    // Not on a fallback branch.
    let (_, (result, _)) = run(with_fallback().try_return_to_target(), vec![on("main")]);
    assert!(!result.unwrap());
    // The target branch is gone.
    let gone = vec![on("git-sync/x"), Reply::Maybe(Err(error("gone")))];
    let (_, (result, after)) = run(with_fallback().try_return_to_target(), gone);
    assert!(!result.unwrap());
    assert!(after.fallback_state.last_checked_target_oid.is_none());
    // It conflicts: that is remembered, and not tried again.
    let conflicts = vec![
        on("git-sync/x"),
        maybe("t1"),
        maybe("t1"),
        text("t1"),
        text("h"),
        Reply::Flag(Ok(false)),
        Reply::Flag(Ok(true)),
    ];
    let (_, (result, after)) = run(with_fallback().try_return_to_target(), conflicts);
    assert!(!result.unwrap());
    assert_eq!(
        after.fallback_state.last_checked_target_oid.as_deref(),
        Some("t1")
    );
    let unmoved = vec![on("git-sync/x"), maybe("t1")];
    let (_, (result, after)) = run(after.try_return_to_target(), unmoved);
    assert!(!result.unwrap());
    // It has moved, and nothing stands in the way; there is one commit to take along.
    let free = vec![
        on("git-sync/x"),
        maybe("t2"),
        maybe("t2"),
        text("t2"),
        text("h"),
        Reply::Flag(Ok(true)),
        on("git-sync/x"),
        maybe("h"),
        text("base"),
        Reply::Counts(Ok((1, 0))),
        maybe("t2"),
        Reply::Flag(Ok(false)),
        ok(),
        ok(),
        ok(),
        ok(),
        applied(false),
        ok(),
        Reply::Rebase(Ok(RebaseStep::Finished)),
        ok(),
        text("new"),
        ok(),
        text("new"),
        ok(),
        ok(),
        ok(),
    ];
    let (asked, (result, after)) = run(after.try_return_to_target(), free);
    assert!(result.unwrap());
    assert_eq!(after.config.branch_name, "main");
    assert!(after.fallback_state.last_checked_target_oid.is_none());
    assert_eq!(
        asked[12],
        GitOp::CreateBranch {
            branch: "main".to_string(),
            oid: "t2".to_string()
        }
    );
    assert_eq!(
        asked[asked.len() - 3..],
        [
            GitOp::ForceReference {
                name: "refs/heads/main".to_string(),
                oid: "new".to_string(),
                message: "git-sync: taking commits along to target branch".to_string()
            },
            GitOp::SetHead {
                name: "refs/heads/main".to_string()
            },
            GitOp::CheckoutHead,
        ]
    );
}

#[test]
fn a_return_that_conflicts_after_all_is_undone() {
    let replies = vec![
        on("git-sync/x"),
        maybe("t"),
        maybe("t"),
        text("t"),
        text("h"),
        Reply::Flag(Ok(true)),
        on("git-sync/x"),
        maybe("h"),
        text("base"),
        Reply::Counts(Ok((1, 0))),
        maybe("t"),
        Reply::Flag(Ok(true)),
        ok(),
        ok(),
        ok(),
        ok(),
        applied(true),
        ok(),
        ok(),
        ok(),
    ];
    let (asked, (result, after)) = run(with_fallback().try_return_to_target(), replies);
    assert!(!result.unwrap());
    assert_eq!(after.config.branch_name, "git-sync/x");
    // It is tried again the next time.
    assert!(after.fallback_state.last_checked_target_oid.is_none());
    assert_eq!(
        asked[12],
        GitOp::ForceReference {
            name: "refs/heads/main".to_string(),
            oid: "t".to_string(),
            message: "git-sync: updating target branch before return".to_string()
        }
    );
    assert_eq!(
        asked[asked.len() - 2],
        GitOp::SetHead {
            name: "refs/heads/git-sync/x".to_string()
        }
    );
}

#[test]
fn a_branch_that_is_ahead_is_pushed() {
    let mut replies = ready("main");
    replies.extend([ran(true, ""), files(&[])]);
    replies.extend([on("main"), maybe("a"), maybe("b"), Reply::Counts(Ok((1, 0)))]);
    replies.push(ran(true, ""));
    replies.extend([on("main"), maybe("a"), maybe("a")]);
    let (asked, (result, after)) = run(plain().sync(false), replies);
    assert!(result.is_ok());
    assert_eq!(after.config.branch_name, "main");
    assert!(asked.contains(&GitOp::Run(RemoteCommand::Push {
        remote: "origin".to_string(),
        refspec: "main:main".to_string()
    })));
}

#[test]
fn a_branch_that_is_still_apart_is_an_error() {
    let mut replies = ready("main");
    replies.extend([ran(true, ""), files(&[])]);
    replies.extend([on("main"), maybe("a"), maybe("b"), Reply::Counts(Ok((1, 0)))]);
    replies.push(ran(true, ""));
    replies.extend([on("main"), maybe("a"), maybe("b"), Reply::Counts(Ok((0, 1)))]);
    let (_, (result, _)) = run(plain().sync(false), replies);
    assert_eq!(
        result.unwrap_err().message(),
        "Other error: Sync completed but repository is not in sync"
    );
}

#[test]
fn nothing_goes_on_after_a_failed_fetch() {
    let mut replies = ready("main");
    replies.push(ran(false, "Could not read from remote repository"));
    let (asked, (result, _)) = run(plain().sync(false), replies);
    assert!(matches!(
        result,
        Err(SyncError::AuthenticationFailed { ref operation })
            if operation == "git fetch origin main"
    ));
    assert!(matches!(asked.last(), Some(GitOp::Run(_))));
}
