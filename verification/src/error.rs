//! The errors a synchronization can end with.

use vstd::prelude::*;
use vstd::string::*;

verus! {

/// The kinds of failure of a git operation that are told apart.
#[derive(Debug, Clone, Copy, PartialEq, Eq, Structural)]
pub enum GitErrorCode {
    /// The object or reference does not exist
    NotFound,
    /// A conflict prevents the operation
    Conflict,
    /// A lock file is held by another process
    Locked,
    /// HEAD names a branch without commits
    UnbornBranch,
    /// Any other failure
    Other,
}

/// A failed git operation.
#[derive(Debug, Clone)]
pub struct GitError<S = String> {
    pub code: GitErrorCode,
    /// What the operation reported
    pub description: S,
}

impl View for GitError {
    type V = GitError<Seq<char>>;

    open spec fn view(&self) -> GitError<Seq<char>> {
        GitError { code: self.code, description: self.description@ }
    }
}

/// Why a synchronization failed. The parameter is the representation of texts.
#[derive(Debug, Clone)]
pub enum SyncError<S = String> {
    NotARepository { path: S },
    UnsafeRepositoryState { state: S },
    DetachedHead,
    NoRemoteConfigured { branch: S },
    RemoteBranchNotFound { remote: S, branch: S },
    BranchNotConfigured { branch: S },
    ManualInterventionRequired { reason: S },
    NetworkError(S),
    AuthenticationFailed { operation: S },
    GitCommandFailed { command: S, stderr: S },
    HookRejected { details: S },
    GitError(GitError<S>),
    IoError(S),
    WatchError(S),
    TaskError(S),
    Other(S),
}

impl View for SyncError {
    type V = SyncError<Seq<char>>;

    open spec fn view(&self) -> SyncError<Seq<char>> {
        match self {
            SyncError::NotARepository { path } => SyncError::NotARepository { path: path@ },
            SyncError::UnsafeRepositoryState { state } => SyncError::UnsafeRepositoryState {
                state: state@,
            },
            SyncError::DetachedHead => SyncError::DetachedHead,
            SyncError::NoRemoteConfigured { branch } => SyncError::NoRemoteConfigured {
                branch: branch@,
            },
            SyncError::RemoteBranchNotFound { remote, branch } => SyncError::RemoteBranchNotFound {
                remote: remote@,
                branch: branch@,
            },
            SyncError::BranchNotConfigured { branch } => SyncError::BranchNotConfigured {
                branch: branch@,
            },
            SyncError::ManualInterventionRequired {
                reason,
            } => SyncError::ManualInterventionRequired { reason: reason@ },
            SyncError::NetworkError(text) => SyncError::NetworkError(text@),
            SyncError::AuthenticationFailed { operation } => SyncError::AuthenticationFailed {
                operation: operation@,
            },
            SyncError::GitCommandFailed { command, stderr } => SyncError::GitCommandFailed {
                command: command@,
                stderr: stderr@,
            },
            SyncError::HookRejected { details } => SyncError::HookRejected { details: details@ },
            SyncError::GitError(e) => SyncError::GitError(e@),
            SyncError::IoError(text) => SyncError::IoError(text@),
            SyncError::WatchError(text) => SyncError::WatchError(text@),
            SyncError::TaskError(text) => SyncError::TaskError(text@),
            SyncError::Other(text) => SyncError::Other(text@),
        }
    }
}

/// The exit code of each kind of error: 1 where the user has to act, 2 for an unsafe state or a
/// failed operation, 3 for a failure of the network, 128 where there is no repository.
pub open spec fn exit_code_of<S>(e: SyncError<S>) -> int {
    match e {
        SyncError::NotARepository { .. } => 128,
        SyncError::BranchNotConfigured { .. } => 1,
        SyncError::ManualInterventionRequired { .. } => 1,
        SyncError::HookRejected { .. } => 1,
        SyncError::NetworkError(..) => 3,
        SyncError::AuthenticationFailed { .. } => 3,
        SyncError::GitError(e) => match e.code {
            GitErrorCode::NotFound => 128,
            GitErrorCode::Conflict => 1,
            _ => 2,
        },
        _ => 2,
    }
}

/// What is shown to the user for each error.
pub open spec fn message_of(e: SyncError<Seq<char>>) -> Seq<char> {
    match e {
        SyncError::NotARepository { path } => "Not a git repository: "@ + path,
        SyncError::UnsafeRepositoryState { state } => "Repository in unsafe state: "@ + state,
        SyncError::DetachedHead => "Not on a branch (detached HEAD)"@,
        SyncError::NoRemoteConfigured { branch } => "No remote configured for branch "@ + branch,
        SyncError::RemoteBranchNotFound { remote, branch } => "Remote branch not found: "@ + remote
            + "/"@ + branch,
        SyncError::BranchNotConfigured { branch } => "Branch "@ + branch
            + " not configured for sync"@,
        SyncError::ManualInterventionRequired { reason } => "Manual intervention required: "@
            + reason,
        SyncError::NetworkError(text) => "Network error: "@ + text,
        SyncError::AuthenticationFailed { operation } => "Authentication failed during "@
            + operation,
        SyncError::GitCommandFailed { command, stderr } => "Git command failed: "@ + command
            + "\n"@ + stderr,
        SyncError::HookRejected { details } => "Git hooks rejected commit: "@ + details,
        SyncError::GitError(e) => "Git error: "@ + e.description,
        SyncError::IoError(text) => "IO error: "@ + text,
        SyncError::WatchError(text) => "Watch error: "@ + text,
        SyncError::TaskError(text) => "Task error: "@ + text,
        SyncError::Other(text) => "Other error: "@ + text,
    }
}

impl SyncError {
    /// The exit code for this error.
    pub fn exit_code(&self) -> (code: i32)
        ensures
            code == exit_code_of(self@),
    {
        match self {
            SyncError::NotARepository { .. } => 128,
            SyncError::UnsafeRepositoryState { .. } => 2,
            SyncError::DetachedHead => 2,
            SyncError::NoRemoteConfigured { .. } => 2,
            SyncError::RemoteBranchNotFound { .. } => 2,
            SyncError::BranchNotConfigured { .. } => 1,
            SyncError::ManualInterventionRequired { .. } => 1,
            SyncError::NetworkError(_) => 3,
            SyncError::AuthenticationFailed { .. } => 3,
            SyncError::GitCommandFailed { .. } => 2,
            SyncError::HookRejected { .. } => 1,
            SyncError::GitError(e) => match e.code {
                GitErrorCode::NotFound => 128,
                GitErrorCode::Conflict => 1,
                GitErrorCode::Locked => 2,
                _ => 2,
            },
            SyncError::IoError(_) => 2,
            SyncError::WatchError(_) => 2,
            SyncError::TaskError(_) => 2,
            SyncError::Other(_) => 2,
        }
    }

    /// The text shown to the user for this error.
    pub fn message(&self) -> (text: String)
        ensures
            text@ == message_of(self@),
    {
        match self {
            SyncError::NotARepository { path } => "Not a git repository: ".to_string().concat(
                path.as_str(),
            ),
            SyncError::UnsafeRepositoryState {
                state,
            } => "Repository in unsafe state: ".to_string().concat(state.as_str()),
            SyncError::DetachedHead => "Not on a branch (detached HEAD)".to_string(),
            SyncError::NoRemoteConfigured {
                branch,
            } => "No remote configured for branch ".to_string().concat(branch.as_str()),
            SyncError::RemoteBranchNotFound {
                remote,
                branch,
            } => "Remote branch not found: ".to_string().concat(remote.as_str()).concat("/").concat(
                branch.as_str(),
            ),
            SyncError::BranchNotConfigured { branch } => "Branch ".to_string().concat(
                branch.as_str(),
            ).concat(" not configured for sync"),
            SyncError::ManualInterventionRequired {
                reason,
            } => "Manual intervention required: ".to_string().concat(reason.as_str()),
            SyncError::NetworkError(text) => "Network error: ".to_string().concat(text.as_str()),
            SyncError::AuthenticationFailed {
                operation,
            } => "Authentication failed during ".to_string().concat(operation.as_str()),
            SyncError::GitCommandFailed {
                command,
                stderr,
            } => "Git command failed: ".to_string().concat(command.as_str()).concat("\n").concat(
                stderr.as_str(),
            ),
            SyncError::HookRejected { details } => "Git hooks rejected commit: ".to_string().concat(
                details.as_str(),
            ),
            SyncError::GitError(e) => "Git error: ".to_string().concat(e.description.as_str()),
            SyncError::IoError(text) => "IO error: ".to_string().concat(text.as_str()),
            SyncError::WatchError(text) => "Watch error: ".to_string().concat(text.as_str()),
            SyncError::TaskError(text) => "Task error: ".to_string().concat(text.as_str()),
            SyncError::Other(text) => "Other error: ".to_string().concat(text.as_str()),
        }
    }
}

} // verus!
