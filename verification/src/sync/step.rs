//! The vocabulary between the procedures of a synchronization and whoever runs git for them.
//!
//! A procedure never touches a repository itself. It asks for one git operation at a time and is
//! resumed with the reply. What a procedure does is stated by its *script*: a function from the
//! replies received so far to what comes next, either a further operation or the result.

use crate::error::{GitError, SyncError};
use vstd::prelude::*;

verus! {

/// A git command that talks to a remote. The parameter is the representation of texts.
#[derive(Debug, Clone, PartialEq, Eq)]
pub enum RemoteCommand<S = String> {
    /// Fetch one branch
    Fetch { remote: S, branch: S },
    /// Push a refspec
    Push { remote: S, refspec: S },
    /// Push a branch and make the remote branch its upstream
    PushUpstream { remote: S, branch: S },
}

/// One operation that a procedure asks for. The parameter is the representation of texts.
#[derive(Debug, Clone, PartialEq, Eq)]
pub enum GitOp<S = String> {
    /// Whether HEAD is detached
    HeadDetached,
    /// Which operation is in progress in the repository
    Operation,
    /// The status of every file that is not up to date
    Statuses { untracked: bool },
    /// What HEAD resolves to
    Head,
    /// The reference that HEAD names, whether it exists or not
    HeadSymbolicTarget,
    /// The commit that HEAD resolves to
    HeadCommit,
    /// The object that HEAD points at directly
    HeadOid,
    /// The tree of the commit that HEAD resolves to
    HeadTree,
    /// The object that a local branch points at
    BranchOid { branch: S },
    /// The object that the upstream of a local branch points at
    UpstreamOid { branch: S },
    /// The commit that a local branch resolves to
    BranchCommit { branch: S },
    /// The commit that the upstream of a local branch resolves to
    UpstreamCommit { branch: S },
    /// The object that a reference points at
    ReferenceOid { name: S },
    /// The commit that a reference resolves to
    ReferenceCommit { name: S },
    /// Whether a reference exists
    ReferenceExists { name: S },
    /// Whether a local branch exists
    BranchExists { branch: S },
    /// The short name that a symbolic reference resolves to, if it does
    ResolvedShorthand { name: S },
    /// How many commits each side has that the other has not
    AheadBehind { local: S, upstream: S },
    /// A best common ancestor of two commits
    MergeBase { one: S, two: S },
    /// Whether a commit descends from another
    DescendantOf { commit: S, ancestor: S },
    /// Whether merging two commits in memory leaves conflicts
    MergeConflicts { ours: S, theirs: S },
    /// The name of this machine, and the local time
    HostAndTime { layout: TimeLayout },
    /// The name of the user, and of this machine
    UserAndHost,
    /// Run a git command that talks to a remote
    Run(RemoteCommand<S>),
    /// Run `git commit`, under the given name and address if there is one
    Commit { message: S, skip_hooks: bool, identity: Option<(S, S)> },
    /// Stage every change, new files included
    StageAll,
    /// Stage the changes to tracked files
    StageTracked,
    /// Write the index as a tree
    WriteTree,
    /// Make the reference behind HEAD point at an object
    SetHeadTarget { oid: S, message: S },
    /// Make HEAD name a reference
    SetHead { name: S },
    /// Make the working tree that of an object
    CheckoutTree { oid: S },
    /// Make the working tree that of HEAD
    CheckoutHead,
    /// Create a local branch at a commit
    CreateBranch { branch: S, oid: S },
    /// Make a reference point at an object, whether it exists or not
    ForceReference { name: S, oid: S, message: S },
    /// Begin to rebase a local branch onto its upstream
    StartRebaseOntoUpstream { branch: S },
    /// Begin to rebase the commits of one reference onto another, both of which stay where they
    /// are
    StartRebase { branch: S, onto: S },
    /// Apply the next commit of the rebase
    NextRebaseStep,
    /// Commit what the rebase applied
    CommitRebaseStep,
    /// Give the rebase up and restore what was there before
    AbortRebase,
    /// Complete the rebase
    FinishRebase,
}

/// How a time is written.
#[derive(Debug, Clone, Copy, PartialEq, Eq, Structural)]
pub enum TimeLayout {
    /// As in commit messages
    Message,
    /// As in branch names
    Branch,
    /// As in what is shown to the user
    Status,
}

/// Operations that change neither the repository nor its remote.
pub open spec fn read_only<S>(op: GitOp<S>) -> bool {
    match op {
        GitOp::Run(..) => false,
        GitOp::Commit { .. } => false,
        GitOp::StageAll => false,
        GitOp::StageTracked => false,
        GitOp::WriteTree => false,
        GitOp::SetHeadTarget { .. } => false,
        GitOp::SetHead { .. } => false,
        GitOp::CheckoutTree { .. } => false,
        GitOp::CheckoutHead => false,
        GitOp::CreateBranch { .. } => false,
        GitOp::ForceReference { .. } => false,
        GitOp::StartRebaseOntoUpstream { .. } => false,
        GitOp::StartRebase { .. } => false,
        GitOp::NextRebaseStep => false,
        GitOp::CommitRebaseStep => false,
        GitOp::AbortRebase => false,
        GitOp::FinishRebase => false,
        _ => true,
    }
}

/// Operations that send something to a remote.
pub open spec fn pushes<S>(op: GitOp<S>) -> bool {
    match op {
        GitOp::Run(RemoteCommand::Push { .. }) => true,
        GitOp::Run(RemoteCommand::PushUpstream { .. }) => true,
        _ => false,
    }
}

/// What an in-progress operation leaves behind in a repository.
#[derive(Debug, Clone, Copy, PartialEq, Eq, Structural)]
pub enum Operation {
    /// None is in progress
    Clean,
    Merge,
    Revert,
    RevertSequence,
    CherryPick,
    CherryPickSequence,
    Bisect,
    Rebase,
    RebaseInteractive,
    RebaseMerge,
    ApplyMailbox,
    ApplyMailboxOrRebase,
}

/// What HEAD resolves to.
#[derive(Debug, Clone)]
pub struct HeadInfo {
    /// Whether it is a local branch
    pub is_branch: bool,
    /// Its short name, if it can be read
    pub shorthand: Option<String>,
}

/// The status of one file: its path, if it can be read, and the flags that apply.
#[derive(Debug, Clone)]
pub struct StatusEntry {
    pub path: Option<String>,
    pub flags: u32,
}

/// How far a rebase has come.
#[derive(Debug, Clone, Copy, PartialEq, Eq, Structural)]
pub enum RebaseStep {
    /// There is no further commit
    Finished,
    /// A commit was applied, with or without conflicts in the index
    Applied { conflicts: bool },
}

/// How a command ended.
#[derive(Debug, Clone)]
pub struct CommandOutput {
    pub success: bool,
    pub stdout: Vec<u8>,
    pub stderr: Vec<u8>,
}

/// The reply to an operation.
#[derive(Debug)]
pub enum Reply {
    Flag(Result<bool, GitError>),
    Operation(Operation),
    Statuses(Result<Vec<StatusEntry>, GitError>),
    Head(Result<HeadInfo, GitError>),
    /// A text or an object id, where there may be none
    Maybe(Result<Option<String>, GitError>),
    /// A text or an object id
    Text(Result<String, GitError>),
    /// Ahead, behind
    Counts(Result<(usize, usize), GitError>),
    Rebase(Result<RebaseStep, GitError>),
    /// The name of this machine, or why it could not be read; and the local time
    HostAndTime(Result<String, String>, String),
    /// The name of the user, and of this machine
    UserAndHost(Option<String>, Option<String>),
    /// The output of a command, or why it could not be run
    Output(Result<CommandOutput, String>),
    Done(Result<(), GitError>),
}

pub open spec fn pair_view(pair: Option<(String, String)>) -> Option<(Seq<char>, Seq<char>)> {
    match pair {
        Some((a, b)) => Some((a@, b@)),
        None => None,
    }
}

impl View for RemoteCommand {
    type V = RemoteCommand<Seq<char>>;

    open spec fn view(&self) -> RemoteCommand<Seq<char>> {
        match self {
            RemoteCommand::Fetch { remote, branch } => RemoteCommand::Fetch {
                remote: remote@,
                branch: branch@,
            },
            RemoteCommand::Push { remote, refspec } => RemoteCommand::Push {
                remote: remote@,
                refspec: refspec@,
            },
            RemoteCommand::PushUpstream { remote, branch } => RemoteCommand::PushUpstream {
                remote: remote@,
                branch: branch@,
            },
        }
    }
}

impl View for GitOp {
    type V = GitOp<Seq<char>>;

    open spec fn view(&self) -> GitOp<Seq<char>> {
        match self {
            GitOp::HeadDetached => GitOp::HeadDetached,
            GitOp::Operation => GitOp::Operation,
            GitOp::Statuses { untracked } => GitOp::Statuses { untracked: *untracked },
            GitOp::Head => GitOp::Head,
            GitOp::HeadSymbolicTarget => GitOp::HeadSymbolicTarget,
            GitOp::HeadCommit => GitOp::HeadCommit,
            GitOp::HeadOid => GitOp::HeadOid,
            GitOp::HeadTree => GitOp::HeadTree,
            GitOp::BranchOid { branch } => GitOp::BranchOid { branch: branch@ },
            GitOp::UpstreamOid { branch } => GitOp::UpstreamOid { branch: branch@ },
            GitOp::BranchCommit { branch } => GitOp::BranchCommit { branch: branch@ },
            GitOp::UpstreamCommit { branch } => GitOp::UpstreamCommit { branch: branch@ },
            GitOp::ReferenceOid { name } => GitOp::ReferenceOid { name: name@ },
            GitOp::ReferenceCommit { name } => GitOp::ReferenceCommit { name: name@ },
            GitOp::ReferenceExists { name } => GitOp::ReferenceExists { name: name@ },
            GitOp::BranchExists { branch } => GitOp::BranchExists { branch: branch@ },
            GitOp::ResolvedShorthand { name } => GitOp::ResolvedShorthand { name: name@ },
            GitOp::AheadBehind { local, upstream } => GitOp::AheadBehind {
                local: local@,
                upstream: upstream@,
            },
            GitOp::MergeBase { one, two } => GitOp::MergeBase { one: one@, two: two@ },
            GitOp::DescendantOf { commit, ancestor } => GitOp::DescendantOf {
                commit: commit@,
                ancestor: ancestor@,
            },
            GitOp::MergeConflicts { ours, theirs } => GitOp::MergeConflicts {
                ours: ours@,
                theirs: theirs@,
            },
            GitOp::HostAndTime { layout } => GitOp::HostAndTime { layout: *layout },
            GitOp::UserAndHost => GitOp::UserAndHost,
            GitOp::Run(command) => GitOp::Run(command@),
            GitOp::Commit { message, skip_hooks, identity } => GitOp::Commit {
                message: message@,
                skip_hooks: *skip_hooks,
                identity: pair_view(*identity),
            },
            GitOp::StageAll => GitOp::StageAll,
            GitOp::StageTracked => GitOp::StageTracked,
            GitOp::WriteTree => GitOp::WriteTree,
            GitOp::SetHeadTarget { oid, message } => GitOp::SetHeadTarget {
                oid: oid@,
                message: message@,
            },
            GitOp::SetHead { name } => GitOp::SetHead { name: name@ },
            GitOp::CheckoutTree { oid } => GitOp::CheckoutTree { oid: oid@ },
            GitOp::CheckoutHead => GitOp::CheckoutHead,
            GitOp::CreateBranch { branch, oid } => GitOp::CreateBranch {
                branch: branch@,
                oid: oid@,
            },
            GitOp::ForceReference { name, oid, message } => GitOp::ForceReference {
                name: name@,
                oid: oid@,
                message: message@,
            },
            GitOp::StartRebaseOntoUpstream { branch } => GitOp::StartRebaseOntoUpstream {
                branch: branch@,
            },
            GitOp::StartRebase { branch, onto } => GitOp::StartRebase {
                branch: branch@,
                onto: onto@,
            },
            GitOp::NextRebaseStep => GitOp::NextRebaseStep,
            GitOp::CommitRebaseStep => GitOp::CommitRebaseStep,
            GitOp::AbortRebase => GitOp::AbortRebase,
            GitOp::FinishRebase => GitOp::FinishRebase,
        }
    }
}

/// What a script says of the replies received so far: which operation comes next, or that the
/// procedure is over, with its result and the replies it did not use.
pub enum Outcome<T> {
    Ask(GitOp<Seq<char>>),
    Done(T, Seq<Reply>),
}

/// What a procedure that can fail results in.
pub type Attempt<T> = Result<T, SyncError<Seq<char>>>;

/// The end of a procedure whose last operation failed.
pub open spec fn git_failed<T>(e: GitError, rest: Seq<Reply>) -> Outcome<Attempt<T>> {
    Outcome::Done(Err(SyncError::GitError(e@)), rest)
}

/// The end of a procedure that was resumed with a reply of the wrong kind.
pub open spec fn unfit<T>(rest: Seq<Reply>) -> Outcome<Attempt<T>> {
    Outcome::Done(Err(misfit()), rest)
}

/// A result that holds no text but for the error, as scripts state it.
pub open spec fn attempt<T>(r: Result<T, SyncError>) -> Attempt<T> {
    match r {
        Ok(value) => Ok(value),
        Err(e) => Err(e@),
    }
}

/// A resulting text as scripts state it.
pub open spec fn attempt_text(r: Result<String, SyncError>) -> Attempt<Seq<char>> {
    match r {
        Ok(text) => Ok(text@),
        Err(e) => Err(e@),
    }
}

/// A script: from the replies to what comes next.
pub type Script<T> = spec_fn(Seq<Reply>) -> Outcome<T>;

/// A procedure that is under way, and the operation it waits for; or its result.
pub enum Step<R, T> {
    Ask(R, GitOp),
    Done(T),
}

/// Whether `step` waits, as `run`, for the reply to `op`.
pub open spec fn asks<R, T>(step: Step<R, T>, run: R, op: GitOp) -> bool {
    step == Step::<R, T>::Ask(run, op)
}

/// Whether `step` is over and has the given output.
pub open spec fn ends<R, T>(step: Step<R, T>, output: T) -> bool {
    step == Step::<R, T>::Done(output)
}

/// What a procedure that waits for the reply to an operation does from there on.
pub trait Scripted: Sized {
    /// What the procedure results in
    type Output;

    /// The result as the script states it
    type Outline;

    spec fn outline(output: Self::Output) -> Self::Outline;

    /// What the procedure does from here on, given the replies to come.
    spec fn script(self, replies: Seq<Reply>) -> Outcome<Self::Outline>;
}

/// A procedure that waits for the reply to an operation.
pub trait Procedure: Scripted {
    /// Goes on with the reply to the operation that the procedure waits for.
    fn resume(self, reply: Reply) -> (next: Step<Self, Self::Output>)
        ensures
            follows(|later: Seq<Reply>| self.script(seq![reply] + later), next),
    ;
}

/// Replies that may come: nothing is ruled out.
pub open spec fn conceivable(replies: Seq<Reply>) -> bool {
    true
}

/// Whether `step` does what `script` says: it asks for the operation that the script asks for
/// without any reply, and goes on as the script does; or it has the result of the script.
pub open spec fn follows<P: Scripted>(
    script: Script<P::Outline>,
    step: Step<P, P::Output>,
) -> bool {
    match step {
        Step::Ask(next, op) => {
            &&& conceivable(Seq::empty()) ==> script(Seq::empty()) == Outcome::<
                P::Outline,
            >::Ask(op@)
            &&& forall|later: Seq<Reply>|
                #![trigger conceivable(later)]
                #![trigger next.script(later)]
                conceivable(later) ==> next.script(later) == script(later)
        },
        Step::Done(output) => forall|later: Seq<Reply>|
            #![trigger conceivable(later)]
            #![trigger script(later)]
            conceivable(later) ==> script(later) == Outcome::Done(P::outline(output), later),
    }
}

/// The error of a procedure that was resumed with a reply of the wrong kind.
pub open spec fn misfit() -> SyncError<Seq<char>> {
    SyncError::Other("Reply does not fit the operation"@)
}

/// The error of a procedure that was resumed with a reply of the wrong kind.
pub fn misfit_error() -> (e: SyncError)
    ensures
        e@ == misfit(),
{
    SyncError::Other("Reply does not fit the operation".to_string())
}

/// The first of the replies and the others, where a procedure goes on with `reply` and then
/// receives `later`.
pub broadcast proof fn lemma_first_reply(reply: Reply, later: Seq<Reply>)
    ensures
        #![trigger (seq![reply] + later)]
        (seq![reply] + later).len() > 0,
        (seq![reply] + later)[0] == reply,
        (seq![reply] + later).skip(1) == later,
{
    assert((seq![reply] + later).skip(1) =~= later);
}

} // verus!
