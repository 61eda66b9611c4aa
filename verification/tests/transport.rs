use git_sync_rs::error::{GitError, GitErrorCode};
use git_sync_rs::sync::step::{CommandOutput, GitOp, Procedure, RemoteCommand, Reply, Step};
use git_sync_rs::sync::transport::{CommandGitTransport, CommitOutcome, CommitRun, GitTransport};
use git_sync_rs::SyncError;

fn output(success: bool, stdout: &str, stderr: &str) -> CommandOutput {
    CommandOutput {
        success,
        stdout: stdout.as_bytes().to_vec(),
        stderr: stderr.as_bytes().to_vec(),
    }
}

fn finished(step: Step<CommitRun, Result<CommitOutcome, SyncError>>) -> Result<CommitOutcome, SyncError> {
    match step {
        Step::Done(result) => result,
        Step::Ask(_, op) => panic!("still waits for {op:?}"),
    }
}

fn asked(
    step: Step<CommitRun, Result<CommitOutcome, SyncError>>,
    expected: GitOp,
) -> CommitRun {
    match step {
        Step::Ask(run, op) => {
            assert_eq!(op, expected);
            run
        }
        Step::Done(result) => panic!("over already: {result:?}"),
    }
}

#[test]
fn classifies_missing_remote_ref_errors() {
    let transport = CommandGitTransport;
    let err = transport.classify_git_error(
        "git fetch origin feature",
        "fatal: couldn't find remote ref feature",
        Some("origin"),
        Some("feature"),
    );
    assert!(matches!(
        err,
        SyncError::RemoteBranchNotFound {
            ref remote,
            ref branch
        } if remote == "origin" && branch == "feature"
    ));
}

#[test]
fn classifies_authentication_errors() {
    let transport = CommandGitTransport;
    let err = transport.classify_git_error(
        "git push origin main:main",
        "Permission denied (publickey).",
        Some("origin"),
        Some("main"),
    );
    assert!(matches!(err, SyncError::AuthenticationFailed { .. }));
}

#[test]
fn classifies_hook_rejections() {
    let transport = CommandGitTransport;
    let err = transport.classify_git_error(
        "git commit",
        "error: failed to push some refs\npre-commit hook failed",
        None,
        None,
    );
    assert!(matches!(err, SyncError::HookRejected { .. }));
}

#[test]
fn detects_missing_identity_errors() {
    assert!(CommandGitTransport::is_missing_identity_error(
        "Author identity unknown\nfatal: unable to auto-detect email address"
    ));
    assert!(CommandGitTransport::is_missing_identity_error(
        "Please tell me who you are."
    ));
    assert!(CommandGitTransport::is_missing_identity_error(
        "fatal: empty ident name (for <>) not allowed"
    ));
    assert!(!CommandGitTransport::is_missing_identity_error(
        "nothing to commit, working tree clean"
    ));
}

#[test]
fn other_failures_keep_what_git_said() {
    let err = CommandGitTransport.classify_git_error(
        "git push origin main:main",
        "  ! [rejected]\n",
        Some("origin"),
        None,
    );
    assert!(matches!(
        err,
        SyncError::GitCommandFailed { ref command, ref stderr }
            if command == "git push origin main:main" && stderr == "! [rejected]"
    ));
    let unnamed =
        CommandGitTransport.classify_git_error("git fetch", "couldn't find remote ref x", None, None);
    assert!(matches!(
        unnamed,
        SyncError::RemoteBranchNotFound { ref remote, ref branch }
            if remote == "origin" && branch == "<unknown>"
    ));
    // A hook is only blamed for a commit.
    let push = CommandGitTransport.classify_git_error("git push", "pre-commit", None, None);
    assert!(matches!(push, SyncError::GitCommandFailed { .. }));
}

#[test]
fn addresses_are_made_of_plain_characters() {
    assert_eq!(
        CommandGitTransport::sanitize_email_component("--Jo Doe\u{e9}_x.Y--"),
        "jo-doe-_x.y"
    );
    assert_eq!(CommandGitTransport::sanitize_email_component("--"), "");
    assert_eq!(
        CommandGitTransport::commit_identity(Some("Ann".to_string()), Some("Big Box".to_string())),
        ("git-sync-rs".to_string(), "ann@big-box".to_string())
    );
    assert_eq!(
        CommandGitTransport::commit_identity(Some("  ".to_string()), None),
        (
            "git-sync-rs".to_string(),
            "git-sync-rs@localhost".to_string()
        )
    );
    assert_eq!(
        CommandGitTransport::commit_identity(Some("///".to_string()), Some("???".to_string())),
        (
            "git-sync-rs".to_string(),
            "git-sync-rs@localhost".to_string()
        )
    );
    let (name, email) = CommandGitTransport::fallback_commit_identity(Some("ann".to_string()));
    assert_eq!(name, "git-sync-rs");
    assert!(email.starts_with("ann@") && email.len() > "ann@".len());
}

#[test]
fn a_commit_is_tried_again_under_a_fallback_identity() {
    let run = asked(
        CommandGitTransport.commit("message", true),
        GitOp::Commit {
            message: "message".to_string(),
            skip_hooks: true,
            identity: None,
        },
    );
    let step = run.resume(Reply::Output(Ok(output(
        false,
        "",
        "*** Please tell me who you are.",
    ))));
    let run = asked(step, GitOp::UserAndHost);
    let step = run.resume(Reply::UserAndHost(
        Some("ann".to_string()),
        Some("box".to_string()),
    ));
    let run = asked(
        step,
        GitOp::Commit {
            message: "message".to_string(),
            skip_hooks: true,
            identity: Some(("git-sync-rs".to_string(), "ann@box".to_string())),
        },
    );
    let result = finished(run.resume(Reply::Output(Ok(output(true, "", "")))));
    assert!(matches!(result, Ok(CommitOutcome::Created)));
}

#[test]
fn both_attempts_of_a_commit_are_reported() {
    let run = asked(
        CommandGitTransport.commit("m", false),
        GitOp::Commit {
            message: "m".to_string(),
            skip_hooks: false,
            identity: None,
        },
    );
    let step = run.resume(Reply::Output(Ok(output(false, "out", "empty ident name"))));
    let Step::Ask(run, _) = step else {
        panic!("over already")
    };
    let Step::Ask(run, _) = run.resume(Reply::UserAndHost(None, None)) else {
        panic!("over already")
    };
    let result = finished(run.resume(Reply::Output(Ok(output(false, "", "still no")))));
    match result {
        Err(SyncError::GitCommandFailed { command, stderr }) => {
            assert_eq!(command, "git commit");
            assert_eq!(
                stderr,
                "git commit failed due to missing identity, fallback identity retry also failed.\n\ninitial:\nempty ident name\nout\n\nfallback retry:\nstill no"
            );
        }
        other => panic!("unexpected: {other:?}"),
    }
}

#[test]
fn the_output_of_a_commit_is_understood() {
    assert!(matches!(
        CommandGitTransport::parse_commit_output(&output(true, "", "")),
        Ok(CommitOutcome::Created)
    ));
    assert!(matches!(
        CommandGitTransport::parse_commit_output(&output(
            false,
            "On branch main\nNothing to commit, working tree clean",
            ""
        )),
        Ok(CommitOutcome::NoChanges)
    ));
    let written = CommandGitTransport::parse_commit_output(&CommandOutput {
        success: false,
        stdout: b"out".to_vec(),
        stderr: vec![b'e', 0xff],
    });
    assert!(matches!(written, Err(ref text) if text == "e\u{fffd}\nout"));
    let run = asked(
        CommandGitTransport.commit("m", false),
        GitOp::Commit {
            message: "m".to_string(),
            skip_hooks: false,
            identity: None,
        },
    );
    let result = finished(run.resume(Reply::Output(Err("no git".to_string()))));
    assert!(matches!(result, Err(SyncError::Other(ref text)) if text == "Failed to run git commit: no git"));
    let Step::Ask(run, _) = CommandGitTransport.commit("m", false) else {
        panic!("over already")
    };
    assert!(matches!(
        finished(run.resume(Reply::Flag(Ok(true)))),
        Err(SyncError::Other(_))
    ));
}

#[test]
fn commands_are_put_together() {
    let fetch = CommandGitTransport.fetch_branch("origin", "main");
    assert_eq!(fetch.arguments(), vec!["fetch", "origin", "main"]);
    let push = CommandGitTransport.push_refspec("origin", "main:main");
    assert_eq!(push.arguments(), vec!["push", "origin", "main:main"]);
    let publish = CommandGitTransport.push_branch_upstream("backup", "b");
    assert_eq!(publish.arguments(), vec!["push", "-u", "backup", "b"]);
    assert_eq!(
        CommandGitTransport::commit_arguments("m", true),
        vec!["commit", "--no-verify", "-m", "m"]
    );
    assert_eq!(
        CommandGitTransport::commit_arguments("m", false),
        vec!["commit", "-m", "m"]
    );
    assert_eq!(
        CommandGitTransport::identity_environment("n", "e"),
        vec![
            ("GIT_AUTHOR_NAME".to_string(), "n".to_string()),
            ("GIT_AUTHOR_EMAIL".to_string(), "e".to_string()),
            ("GIT_COMMITTER_NAME".to_string(), "n".to_string()),
            ("GIT_COMMITTER_EMAIL".to_string(), "e".to_string()),
        ]
    );
}

#[test]
fn the_result_of_a_remote_command_names_the_command() {
    let command = RemoteCommand::PushUpstream {
        remote: "backup".to_string(),
        branch: "b".to_string(),
    };
    assert!(CommandGitTransport
        .remote_command_result(&command, Ok(output(true, "", "ignored")))
        .is_ok());
    let failed =
        CommandGitTransport.remote_command_result(&command, Ok(output(false, "", "Authentication failed")));
    assert!(matches!(
        failed,
        Err(SyncError::AuthenticationFailed { ref operation }) if operation == "git push -u backup b"
    ));
    let fetch = RemoteCommand::Fetch {
        remote: "backup".to_string(),
        branch: "b".to_string(),
    };
    let missing = CommandGitTransport
        .remote_command_result(&fetch, Ok(output(false, "", "couldn't find remote ref b")));
    assert!(matches!(
        missing,
        Err(SyncError::RemoteBranchNotFound { ref remote, ref branch }) if remote == "backup" && branch == "b"
    ));
    let unrun = CommandGitTransport.remote_command_result(&fetch, Err("gone".to_string()));
    assert!(matches!(unrun, Err(SyncError::Other(ref text)) if text == "Failed to run git fetch: gone"));
}

#[test]
fn errors_have_exit_codes_and_messages() {
    let cases: Vec<(SyncError, i32, &str)> = vec![
        (
            SyncError::NotARepository { path: "/x".to_string() },
            128,
            "Not a git repository: /x",
        ),
        (
            SyncError::UnsafeRepositoryState { state: "Merging".to_string() },
            2,
            "Repository in unsafe state: Merging",
        ),
        (SyncError::DetachedHead, 2, "Not on a branch (detached HEAD)"),
        (
            SyncError::NoRemoteConfigured { branch: "b".to_string() },
            2,
            "No remote configured for branch b",
        ),
        (
            SyncError::RemoteBranchNotFound { remote: "o".to_string(), branch: "b".to_string() },
            2,
            "Remote branch not found: o/b",
        ),
        (
            SyncError::BranchNotConfigured { branch: "b".to_string() },
            1,
            "Branch b not configured for sync",
        ),
        (
            SyncError::ManualInterventionRequired { reason: "r".to_string() },
            1,
            "Manual intervention required: r",
        ),
        (SyncError::NetworkError("n".to_string()), 3, "Network error: n"),
        (
            SyncError::AuthenticationFailed { operation: "git push".to_string() },
            3,
            "Authentication failed during git push",
        ),
        (
            SyncError::GitCommandFailed { command: "c".to_string(), stderr: "s".to_string() },
            2,
            "Git command failed: c\ns",
        ),
        (
            SyncError::HookRejected { details: "d".to_string() },
            1,
            "Git hooks rejected commit: d",
        ),
        (SyncError::IoError("i".to_string()), 2, "IO error: i"),
        (SyncError::WatchError("w".to_string()), 2, "Watch error: w"),
        (SyncError::TaskError("t".to_string()), 2, "Task error: t"),
        (SyncError::Other("o".to_string()), 2, "Other error: o"),
    ];
    for (error, code, message) in cases {
        assert_eq!(error.exit_code(), code, "{message}");
        assert_eq!(error.message(), message);
    }
    for (code, exit) in [
        (GitErrorCode::NotFound, 128),
        (GitErrorCode::Conflict, 1),
        (GitErrorCode::Locked, 2),
        (GitErrorCode::UnbornBranch, 2),
        (GitErrorCode::Other, 2),
    ] {
        let error = SyncError::GitError(GitError { code, description: "g".to_string() });
        assert_eq!(error.exit_code(), exit);
        assert_eq!(error.message(), "Git error: g");
    }
}
