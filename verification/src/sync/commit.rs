//! Committing local changes.

use crate::error::{GitErrorCode, SyncError};
use crate::sync::SyncConfig;
use crate::sync::step::{
    asks, attempt, ends, follows, git_failed, lemma_first_reply, misfit_error, unfit, Attempt,
    GitOp, Outcome, Procedure, Reply, Scripted, Step, TimeLayout,
};
use crate::sync::transport::{commit_script, CommandGitTransport, CommitOutcome, CommitRun, GitTransport};
use crate::text;
use crate::text::option_view;
use vstd::prelude::*;
use vstd::string::*;

verus! {

/// The message of a commit that is made on `host` at `time`.
pub open spec fn commit_message(
    template: Option<Seq<char>>,
    host: Seq<char>,
    time: Seq<char>,
) -> Seq<char> {
    match template {
        Some(template) => text::replaced(
            text::replaced(template, "{hostname}"@, host),
            "{timestamp}"@,
            time,
        ),
        None => "changes from "@ + host + " on "@ + time,
    }
}

/// The message of a commit that is made on `host` at `time`.
pub fn render_commit_message(template: &Option<String>, host: &str, time: &str) -> (message: String)
    ensures
        message@ == commit_message(option_view(*template), host@, time@),
{
    match template {
        Some(template) => {
            proof {
                reveal_strlit("{hostname}");
                reveal_strlit("{timestamp}");
            }
            let with_host: String = text::replace(template.as_str(), "{hostname}", host);
            text::replace(with_host.as_str(), "{timestamp}", time)
        },
        None => "changes from ".to_string().concat(host).concat(" on ").concat(time),
    }
}

pub open spec fn stage_op<S>(new_files: bool) -> GitOp<S> {
    if new_files {
        GitOp::StageAll
    } else {
        GitOp::StageTracked
    }
}

/// Commits the local changes: stages them and, where the index then differs from the commit that
/// HEAD resolves to, or there is no commit yet, commits it.
#[verifier::opaque]
pub open spec fn auto_commit_script(c: SyncConfig<Seq<char>>, h: Seq<Reply>) -> Outcome<
    Attempt<()>,
> {
    if h.len() == 0 {
        Outcome::Ask(stage_op(c.sync_new_files))
    } else {
        match h[0] {
            Reply::Done(Ok(_)) => write_tree_script(c, h.skip(1)),
            Reply::Done(Err(e)) => git_failed(e, h.skip(1)),
            _ => unfit(h.skip(1)),
        }
    }
}

pub open spec fn write_tree_script(c: SyncConfig<Seq<char>>, h: Seq<Reply>) -> Outcome<
    Attempt<()>,
> {
    if h.len() == 0 {
        Outcome::Ask(GitOp::WriteTree)
    } else {
        match h[0] {
            Reply::Text(Ok(tree)) => head_tree_script(c, tree@, h.skip(1)),
            Reply::Text(Err(e)) => git_failed(e, h.skip(1)),
            _ => unfit(h.skip(1)),
        }
    }
}

pub open spec fn head_tree_script(
    c: SyncConfig<Seq<char>>,
    tree: Seq<char>,
    h: Seq<Reply>,
) -> Outcome<Attempt<()>> {
    if h.len() == 0 {
        Outcome::Ask(GitOp::HeadTree)
    } else {
        match h[0] {
            Reply::Text(Ok(head)) => if head@ == tree {
                Outcome::Done(Ok(()), h.skip(1))
            } else {
                message_script(c, h.skip(1))
            },
            Reply::Text(Err(e)) => if e.code == GitErrorCode::UnbornBranch {
                message_script(c, h.skip(1))
            } else {
                git_failed(e, h.skip(1))
            },
            _ => unfit(h.skip(1)),
        }
    }
}

pub open spec fn message_script(c: SyncConfig<Seq<char>>, h: Seq<Reply>) -> Outcome<Attempt<()>> {
    if h.len() == 0 {
        Outcome::Ask(GitOp::HostAndTime { layout: TimeLayout::Message })
    } else {
        match h[0] {
            Reply::HostAndTime(Ok(host), time) => committed(
                commit_script(
                    commit_message(c.commit_message, host@, time@),
                    c.skip_hooks,
                    h.skip(1),
                ),
            ),
            Reply::HostAndTime(Err(why), _) => Outcome::Done(
                Err(SyncError::IoError(why@)),
                h.skip(1),
            ),
            _ => unfit(h.skip(1)),
        }
    }
}

/// A commit, whether or not there was anything to commit.
pub open spec fn committed(o: Outcome<Attempt<CommitOutcome>>) -> Outcome<Attempt<()>> {
    match o {
        Outcome::Ask(op) => Outcome::Ask(op),
        Outcome::Done(Ok(_), rest) => Outcome::Done(Ok(()), rest),
        Outcome::Done(Err(e), rest) => Outcome::Done(Err(e), rest),
    }
}

/// An automatic commit that is under way.
#[derive(Debug)]
pub enum AutoCommitRun {
    Stage { config: SyncConfig },
    WriteTree { config: SyncConfig },
    HeadTree { config: SyncConfig, tree: String },
    Message { config: SyncConfig },
    Commit(CommitRun),
}

impl AutoCommitRun {
    /// Commits the local changes.
    pub fn start(config: SyncConfig) -> (step: Step<AutoCommitRun, Result<(), SyncError>>)
        ensures
            follows(|h: Seq<Reply>| auto_commit_script(config@, h), step),
            step is Ask,
    {
        proof {
            reveal(auto_commit_script);
        }
        let op: GitOp = if config.sync_new_files {
            GitOp::StageAll
        } else {
            GitOp::StageTracked
        };
        Step::Ask(AutoCommitRun::Stage { config }, op)
    }

    fn commit(step: Step<CommitRun, Result<CommitOutcome, SyncError>>) -> (next: Step<
        AutoCommitRun,
        Result<(), SyncError>,
    >)
        ensures
            match step {
                Step::Ask(run, op) => asks(next, AutoCommitRun::Commit(run), op),
                Step::Done(Ok(_)) => ends(next, Ok(())),
                Step::Done(Err(e)) => ends(next, Err(e)),
            },
    {
        match step {
            Step::Ask(run, op) => Step::Ask(AutoCommitRun::Commit(run), op),
            Step::Done(Ok(_)) => Step::Done(Ok(())),
            Step::Done(Err(e)) => Step::Done(Err(e)),
        }
    }
}

impl Scripted for AutoCommitRun {
    type Output = Result<(), SyncError>;

    type Outline = Attempt<()>;

    open spec fn outline(output: Self::Output) -> Self::Outline {
        attempt(output)
    }

    closed spec fn script(self, h: Seq<Reply>) -> Outcome<Self::Outline> {
        match self {
            AutoCommitRun::Stage { config } => auto_commit_script(config@, h),
            AutoCommitRun::WriteTree { config } => write_tree_script(config@, h),
            AutoCommitRun::HeadTree { config, tree } => head_tree_script(config@, tree@, h),
            AutoCommitRun::Message { config } => message_script(config@, h),
            AutoCommitRun::Commit(run) => committed(run.script(h)),
        }
    }
}

impl Procedure for AutoCommitRun {
    fn resume(self, reply: Reply) -> (next: Step<Self, Self::Output>) {
        broadcast use lemma_first_reply;

        proof {
            reveal(auto_commit_script);
        }

        match self {
            AutoCommitRun::Stage { config } => match reply {
                Reply::Done(Ok(_)) => Step::Ask(
                    AutoCommitRun::WriteTree { config },
                    GitOp::WriteTree,
                ),
                Reply::Done(Err(e)) => Step::Done(Err(SyncError::GitError(e))),
                _ => Step::Done(Err(misfit_error())),
            },
            AutoCommitRun::WriteTree { config } => match reply {
                Reply::Text(Ok(tree)) => Step::Ask(
                    AutoCommitRun::HeadTree { config, tree },
                    GitOp::HeadTree,
                ),
                Reply::Text(Err(e)) => Step::Done(Err(SyncError::GitError(e))),
                _ => Step::Done(Err(misfit_error())),
            },
            AutoCommitRun::HeadTree { config, tree } => match reply {
                Reply::Text(Ok(head)) => if head == tree {
                    Step::Done(Ok(()))
                } else {
                    Step::Ask(
                        AutoCommitRun::Message { config },
                        GitOp::HostAndTime { layout: TimeLayout::Message },
                    )
                },
                Reply::Text(Err(e)) => if e.code == GitErrorCode::UnbornBranch {
                    Step::Ask(
                        AutoCommitRun::Message { config },
                        GitOp::HostAndTime { layout: TimeLayout::Message },
                    )
                } else {
                    Step::Done(Err(SyncError::GitError(e)))
                },
                _ => Step::Done(Err(misfit_error())),
            },
            AutoCommitRun::Message { config } => match reply {
                Reply::HostAndTime(Ok(host), time) => {
                    let message: String = render_commit_message(
                        &config.commit_message,
                        host.as_str(),
                        time.as_str(),
                    );
                    Self::commit(CommandGitTransport.commit(message.as_str(), config.skip_hooks))
                },
                Reply::HostAndTime(Err(why), _) => Step::Done(Err(SyncError::IoError(why))),
                _ => Step::Done(Err(misfit_error())),
            },
            AutoCommitRun::Commit(run) => Self::commit(run.resume(reply)),
        }
    }
}

} // verus!
