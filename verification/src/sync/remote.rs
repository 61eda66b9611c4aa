//! The commands that talk to a remote.

use crate::error::SyncError;
use crate::sync::SyncConfig;
use crate::sync::step::{
    attempt, follows, lemma_first_reply, misfit_error, unfit, Attempt, GitOp, Outcome, Procedure,
    RemoteCommand, Reply, Scripted, Step,
};
use crate::sync::transport::{remote_result, CommandGitTransport, GitTransport};
use vstd::prelude::*;
use vstd::string::*;

verus! {

/// Runs a command that talks to a remote.
#[verifier::opaque]
pub open spec fn remote_script(command: RemoteCommand<Seq<char>>, h: Seq<Reply>) -> Outcome<
    Attempt<()>,
> {
    if h.len() == 0 {
        Outcome::Ask(GitOp::Run(command))
    } else {
        match h[0] {
            Reply::Output(output) => Outcome::Done(remote_result(command, output), h.skip(1)),
            _ => unfit(h.skip(1)),
        }
    }
}

/// The command that fetches a branch.
pub open spec fn fetch_command(c: SyncConfig<Seq<char>>, branch: Seq<char>) -> RemoteCommand<
    Seq<char>,
> {
    RemoteCommand::Fetch { remote: c.remote_name, branch }
}

/// The command that pushes the branch of the configuration to the branch of the same name.
pub open spec fn push_command(c: SyncConfig<Seq<char>>) -> RemoteCommand<Seq<char>> {
    RemoteCommand::Push { remote: c.remote_name, refspec: c.branch_name + ":"@ + c.branch_name }
}

/// The command that pushes a branch and makes the remote branch its upstream.
pub open spec fn push_upstream_command(
    c: SyncConfig<Seq<char>>,
    branch: Seq<char>,
) -> RemoteCommand<Seq<char>> {
    RemoteCommand::PushUpstream { remote: c.remote_name, branch }
}

/// A command that talks to a remote, under way.
#[derive(Debug)]
pub struct RemoteRun {
    pub command: RemoteCommand,
}

/// A command that means the same.
fn copy_command(command: &RemoteCommand) -> (copy: RemoteCommand)
    ensures
        copy == command,
{
    match command {
        RemoteCommand::Fetch { remote, branch } => RemoteCommand::Fetch {
            remote: remote.clone(),
            branch: branch.clone(),
        },
        RemoteCommand::Push { remote, refspec } => RemoteCommand::Push {
            remote: remote.clone(),
            refspec: refspec.clone(),
        },
        RemoteCommand::PushUpstream { remote, branch } => RemoteCommand::PushUpstream {
            remote: remote.clone(),
            branch: branch.clone(),
        },
    }
}

impl RemoteRun {
    /// Runs a command that talks to a remote.
    pub fn start(command: RemoteCommand) -> (step: Step<RemoteRun, Result<(), SyncError>>)
        ensures
            follows(|h: Seq<Reply>| remote_script(command@, h), step),
            step is Ask,
    {
        proof {
            reveal(remote_script);
        }
        let copy: RemoteCommand = copy_command(&command);
        Step::Ask(RemoteRun { command }, GitOp::Run(copy))
    }

    /// Fetches a branch.
    pub fn fetch(config: &SyncConfig, branch: &str) -> (step: Step<
        RemoteRun,
        Result<(), SyncError>,
    >)
        ensures
            follows(|h: Seq<Reply>| remote_script(fetch_command(config@, branch@), h), step),
            step is Ask,
    {
        Self::start(CommandGitTransport.fetch_branch(config.remote_name.as_str(), branch))
    }

    /// Pushes the branch of the configuration.
    pub fn push(config: &SyncConfig) -> (step: Step<RemoteRun, Result<(), SyncError>>)
        ensures
            follows(|h: Seq<Reply>| remote_script(push_command(config@), h), step),
            step is Ask,
    {
        let refspec: String = config.branch_name.clone().concat(":").concat(
            config.branch_name.as_str(),
        );
        Self::start(
            CommandGitTransport.push_refspec(config.remote_name.as_str(), refspec.as_str()),
        )
    }

    /// Pushes a branch and makes the remote branch its upstream.
    pub fn push_upstream(config: &SyncConfig, branch: &str) -> (step: Step<
        RemoteRun,
        Result<(), SyncError>,
    >)
        ensures
            follows(
                |h: Seq<Reply>| remote_script(push_upstream_command(config@, branch@), h),
                step,
            ),
            step is Ask,
    {
        Self::start(CommandGitTransport.push_branch_upstream(config.remote_name.as_str(), branch))
    }
}

impl Scripted for RemoteRun {
    type Output = Result<(), SyncError>;

    type Outline = Attempt<()>;

    open spec fn outline(output: Self::Output) -> Self::Outline {
        attempt(output)
    }

    closed spec fn script(self, h: Seq<Reply>) -> Outcome<Self::Outline> {
        remote_script(self.command@, h)
    }
}

impl Procedure for RemoteRun {
    fn resume(self, reply: Reply) -> (next: Step<Self, Self::Output>) {
        broadcast use lemma_first_reply;

        proof {
            reveal(remote_script);
        }

        match reply {
            Reply::Output(output) => Step::Done(
                CommandGitTransport.remote_command_result(&self.command, output),
            ),
            _ => Step::Done(Err(misfit_error())),
        }
    }
}

} // verus!
