//! Whether a branch of the remote can be merged without conflicts.

use crate::error::SyncError;
use crate::sync::SyncConfig;
use crate::sync::step::{
    attempt, follows, git_failed, lemma_first_reply, misfit_error, unfit, Attempt, GitOp, Outcome,
    Procedure, Reply, Scripted, Step,
};
use vstd::prelude::*;
use vstd::string::*;

verus! {

/// The reference of a branch of a remote.
pub open spec fn remote_ref(remote: Seq<char>, branch: Seq<char>) -> Seq<char> {
    "refs/remotes/"@ + remote + "/"@ + branch
}

/// The reference of a branch of a remote.
pub fn remote_reference(remote: &str, branch: &str) -> (name: String)
    ensures
        name@ == remote_ref(remote@, branch@),
{
    "refs/remotes/".to_string().concat(remote).concat("/").concat(branch)
}

/// Whether HEAD and a branch of the remote can be merged without conflicts: HEAD is an ancestor
/// of the branch, or a merge in memory shows none.
#[verifier::opaque]
pub open spec fn can_merge_script(remote: Seq<char>, branch: Seq<char>, h: Seq<Reply>) -> Outcome<
    Attempt<bool>,
> {
    if h.len() == 0 {
        Outcome::Ask(GitOp::ReferenceOid { name: remote_ref(remote, branch) })
    } else {
        match h[0] {
            Reply::Maybe(Ok(_)) => merge_target_script(remote, branch, h.skip(1)),
            Reply::Maybe(Err(e)) => Outcome::Done(
                Err(
                    SyncError::Other(
                        "Failed to find target branch "@ + branch + ": "@ + e.description@,
                    ),
                ),
                h.skip(1),
            ),
            _ => unfit(h.skip(1)),
        }
    }
}

pub open spec fn merge_target_script(
    remote: Seq<char>,
    branch: Seq<char>,
    h: Seq<Reply>,
) -> Outcome<Attempt<bool>> {
    if h.len() == 0 {
        Outcome::Ask(GitOp::ReferenceCommit { name: remote_ref(remote, branch) })
    } else {
        match h[0] {
            Reply::Text(Ok(target)) => merge_head_script(target@, h.skip(1)),
            Reply::Text(Err(e)) => git_failed(e, h.skip(1)),
            _ => unfit(h.skip(1)),
        }
    }
}

pub open spec fn merge_head_script(target: Seq<char>, h: Seq<Reply>) -> Outcome<Attempt<bool>> {
    if h.len() == 0 {
        Outcome::Ask(GitOp::HeadCommit)
    } else {
        match h[0] {
            Reply::Text(Ok(head)) => merge_ancestor_script(target, head@, h.skip(1)),
            Reply::Text(Err(e)) => git_failed(e, h.skip(1)),
            _ => unfit(h.skip(1)),
        }
    }
}

pub open spec fn merge_ancestor_script(
    target: Seq<char>,
    head: Seq<char>,
    h: Seq<Reply>,
) -> Outcome<Attempt<bool>> {
    if h.len() == 0 {
        Outcome::Ask(GitOp::DescendantOf { commit: target, ancestor: head })
    } else {
        match h[0] {
            Reply::Flag(Ok(true)) => Outcome::Done(Ok(true), h.skip(1)),
            Reply::Flag(Ok(false)) => merge_conflicts_script(target, head, h.skip(1)),
            Reply::Flag(Err(e)) => git_failed(e, h.skip(1)),
            _ => unfit(h.skip(1)),
        }
    }
}

pub open spec fn merge_conflicts_script(
    target: Seq<char>,
    head: Seq<char>,
    h: Seq<Reply>,
) -> Outcome<Attempt<bool>> {
    if h.len() == 0 {
        Outcome::Ask(GitOp::MergeConflicts { ours: head, theirs: target })
    } else {
        match h[0] {
            Reply::Flag(Ok(conflicts)) => Outcome::Done(Ok(!conflicts), h.skip(1)),
            Reply::Flag(Err(e)) => Outcome::Done(
                Err(SyncError::Other("Failed to perform merge check: "@ + e.description@)),
                h.skip(1),
            ),
            _ => unfit(h.skip(1)),
        }
    }
}

/// The check for conflicts, under way.
#[derive(Debug)]
pub enum MergeableRun {
    Find { remote: String, branch: String },
    Target { remote: String, branch: String },
    Head { target: String },
    Ancestor { target: String, head: String },
    Conflicts { target: String, head: String },
}

impl MergeableRun {
    /// Checks whether HEAD and a branch of the remote can be merged without conflicts.
    pub fn start(config: &SyncConfig, branch: &str) -> (step: Step<
        MergeableRun,
        Result<bool, SyncError>,
    >)
        ensures
            follows(
                |h: Seq<Reply>| can_merge_script(config@.remote_name, branch@, h),
                step,
            ),
            step is Ask,
    {
        proof {
            reveal(can_merge_script);
        }
        let op: GitOp = GitOp::ReferenceOid {
            name: remote_reference(config.remote_name.as_str(), branch),
        };
        Step::Ask(
            MergeableRun::Find { remote: config.remote_name.clone(), branch: branch.to_string() },
            op,
        )
    }
}

impl Scripted for MergeableRun {
    type Output = Result<bool, SyncError>;

    type Outline = Attempt<bool>;

    open spec fn outline(output: Self::Output) -> Self::Outline {
        attempt(output)
    }

    closed spec fn script(self, h: Seq<Reply>) -> Outcome<Self::Outline> {
        match self {
            MergeableRun::Find { remote, branch } => can_merge_script(remote@, branch@, h),
            MergeableRun::Target { remote, branch } => merge_target_script(remote@, branch@, h),
            MergeableRun::Head { target } => merge_head_script(target@, h),
            MergeableRun::Ancestor { target, head } => merge_ancestor_script(target@, head@, h),
            MergeableRun::Conflicts { target, head } => merge_conflicts_script(target@, head@, h),
        }
    }
}

impl Procedure for MergeableRun {
    fn resume(self, reply: Reply) -> (next: Step<Self, Self::Output>) {
        broadcast use lemma_first_reply;

        proof {
            reveal(can_merge_script);
        }
        match self {
            MergeableRun::Find { remote, branch } => match reply {
                Reply::Maybe(Ok(_)) => {
                    let op: GitOp = GitOp::ReferenceCommit {
                        name: remote_reference(remote.as_str(), branch.as_str()),
                    };
                    Step::Ask(MergeableRun::Target { remote, branch }, op)
                },
                Reply::Maybe(Err(e)) => Step::Done(
                    Err(
                        SyncError::Other(
                            "Failed to find target branch ".to_string().concat(
                                branch.as_str(),
                            ).concat(": ").concat(e.description.as_str()),
                        ),
                    ),
                ),
                _ => Step::Done(Err(misfit_error())),
            },
            MergeableRun::Target { remote, branch } => match reply {
                Reply::Text(Ok(target)) => Step::Ask(
                    MergeableRun::Head { target },
                    GitOp::HeadCommit,
                ),
                Reply::Text(Err(e)) => Step::Done(Err(SyncError::GitError(e))),
                _ => Step::Done(Err(misfit_error())),
            },
            MergeableRun::Head { target } => match reply {
                Reply::Text(Ok(head)) => {
                    let op: GitOp = GitOp::DescendantOf {
                        commit: target.clone(),
                        ancestor: head.clone(),
                    };
                    Step::Ask(MergeableRun::Ancestor { target, head }, op)
                },
                Reply::Text(Err(e)) => Step::Done(Err(SyncError::GitError(e))),
                _ => Step::Done(Err(misfit_error())),
            },
            MergeableRun::Ancestor { target, head } => match reply {
                Reply::Flag(Ok(true)) => Step::Done(Ok(true)),
                Reply::Flag(Ok(false)) => {
                    let op: GitOp = GitOp::MergeConflicts {
                        ours: head.clone(),
                        theirs: target.clone(),
                    };
                    Step::Ask(MergeableRun::Conflicts { target, head }, op)
                },
                Reply::Flag(Err(e)) => Step::Done(Err(SyncError::GitError(e))),
                _ => Step::Done(Err(misfit_error())),
            },
            MergeableRun::Conflicts { target, head } => match reply {
                Reply::Flag(Ok(conflicts)) => Step::Done(Ok(!conflicts)),
                Reply::Flag(Err(e)) => Step::Done(
                    Err(
                        SyncError::Other(
                            "Failed to perform merge check: ".to_string().concat(
                                e.description.as_str(),
                            ),
                        ),
                    ),
                ),
                _ => Step::Done(Err(misfit_error())),
            },
        }
    }
}

} // verus!
