//! Creating a fallback branch: where local commits go that conflict with the upstream.

use crate::error::SyncError;
use crate::sync::branch::{current_branch_script, BranchRun, CurrentBranch};
use crate::sync::forward::{branch_ref, branch_reference};
use crate::sync::step::{
    asks, attempt, attempt_text, ends, follows, git_failed, lemma_first_reply, misfit_error, unfit,
    Attempt, GitOp, Outcome, Procedure, Reply, Scripted, Step, TimeLayout,
};
use crate::text;
use vstd::prelude::*;
use vstd::string::*;

verus! {

/// What the name of every fallback branch begins with.
pub const FALLBACK_BRANCH_PREFIX: &'static str = "git-sync/";

/// Whether a branch is a fallback branch.
pub open spec fn is_fallback(branch: Seq<char>) -> bool {
    text::has_prefix(branch, FALLBACK_BRANCH_PREFIX@)
}

/// Whether a branch is a fallback branch.
pub fn is_fallback_branch(branch: &str) -> (r: bool)
    ensures
        r == is_fallback(branch@),
{
    text::starts_with(branch, FALLBACK_BRANCH_PREFIX)
}

/// Whether a repository on the given branch is in fallback mode: the branch is a fallback branch,
/// and not the one that is configured.
pub open spec fn in_fallback_mode(branch: Seq<char>, configured: Option<Seq<char>>) -> bool {
    is_fallback(branch) && configured != Some(branch)
}

/// Whether a repository on the given branch is in fallback mode.
pub fn is_fallback_mode(branch: &str, configured: &Option<String>) -> (r: bool)
    ensures
        r == in_fallback_mode(branch@, text::option_view(*configured)),
{
    if !is_fallback_branch(branch) {
        return false;
    }
    match configured {
        Some(configured) => !text::same_text(configured.as_str(), branch),
        None => true,
    }
}

/// The name of a fallback branch that is created on `host` at `time`.
pub open spec fn fallback_name(host: Result<String, String>, time: Seq<char>) -> Seq<char> {
    let host = match host {
        Ok(host) => host@,
        Err(_) => "unknown"@,
    };
    FALLBACK_BRANCH_PREFIX@ + host + "-"@ + time
}

/// The name of a fallback branch that is created on `host` at `time`.
pub fn generate_fallback_branch_name(host: Result<String, String>, time: &str) -> (name: String)
    ensures
        name@ == fallback_name(host, time@),
{
    let host: String = match host {
        Ok(host) => host,
        Err(_) => "unknown".to_string(),
    };
    FALLBACK_BRANCH_PREFIX.to_string().concat(host.as_str()).concat("-").concat(time)
}

/// The names that are tried for a fallback branch, one after the other: with a number behind all
/// but the first.
pub open spec fn candidate(name: Seq<char>, n: u64) -> Seq<char> {
    if n <= 1 {
        name
    } else {
        name + "-"@ + text::decimal(n as nat)
    }
}

/// A name that is tried for a fallback branch.
pub fn candidate_name(name: &str, n: u64) -> (tried: String)
    ensures
        tried@ == candidate(name@, n),
{
    if n <= 1 {
        name.to_string()
    } else {
        name.to_string().concat("-").concat(text::number(n).as_str())
    }
}

/// Creates a fallback branch at the commit that HEAD resolves to, under a name that no branch has,
/// and checks it out. Results in its name.
#[verifier::opaque]
pub open spec fn create_fallback_script(h: Seq<Reply>) -> Outcome<Attempt<Seq<char>>> {
    if h.len() == 0 {
        Outcome::Ask(GitOp::HostAndTime { layout: TimeLayout::Branch })
    } else {
        match h[0] {
            Reply::HostAndTime(host, time) => fallback_name_script(
                fallback_name(host, time@),
                1,
                h.skip(1),
            ),
            _ => unfit(h.skip(1)),
        }
    }
}

/// Looks for a name that no branch has yet, from the candidate with the given number on. The last
/// that can be counted is taken at any rate.
pub open spec fn fallback_name_script(name: Seq<char>, n: u64, h: Seq<Reply>) -> Outcome<
    Attempt<Seq<char>>,
>
    decreases h.len(),
{
    if h.len() == 0 {
        Outcome::Ask(GitOp::BranchExists { branch: candidate(name, n) })
    } else {
        match h[0] {
            Reply::Flag(Ok(taken)) => if taken && n < u64::MAX {
                fallback_name_script(name, (n + 1) as u64, h.skip(1))
            } else {
                fallback_commit_script(candidate(name, n), h.skip(1))
            },
            Reply::Flag(Err(e)) => git_failed(e, h.skip(1)),
            _ => unfit(h.skip(1)),
        }
    }
}

pub open spec fn fallback_commit_script(name: Seq<char>, h: Seq<Reply>) -> Outcome<
    Attempt<Seq<char>>,
> {
    if h.len() == 0 {
        Outcome::Ask(GitOp::HeadCommit)
    } else {
        match h[0] {
            Reply::Text(Ok(oid)) => fallback_branch_script(name, oid@, h.skip(1)),
            Reply::Text(Err(e)) => git_failed(e, h.skip(1)),
            _ => unfit(h.skip(1)),
        }
    }
}

pub open spec fn fallback_branch_script(name: Seq<char>, oid: Seq<char>, h: Seq<Reply>) -> Outcome<
    Attempt<Seq<char>>,
> {
    if h.len() == 0 {
        Outcome::Ask(GitOp::CreateBranch { branch: name, oid })
    } else {
        match h[0] {
            Reply::Done(Ok(_)) => fallback_head_script(name, h.skip(1)),
            Reply::Done(Err(e)) => Outcome::Done(
                Err(SyncError::Other("Failed to create fallback branch: "@ + e.description@)),
                h.skip(1),
            ),
            _ => unfit(h.skip(1)),
        }
    }
}

pub open spec fn fallback_head_script(name: Seq<char>, h: Seq<Reply>) -> Outcome<
    Attempt<Seq<char>>,
> {
    if h.len() == 0 {
        Outcome::Ask(GitOp::SetHead { name: branch_ref(name) })
    } else {
        match h[0] {
            Reply::Done(Ok(_)) => fallback_checkout_script(name, h.skip(1)),
            Reply::Done(Err(e)) => git_failed(e, h.skip(1)),
            _ => unfit(h.skip(1)),
        }
    }
}

pub open spec fn fallback_checkout_script(name: Seq<char>, h: Seq<Reply>) -> Outcome<
    Attempt<Seq<char>>,
> {
    if h.len() == 0 {
        Outcome::Ask(GitOp::CheckoutHead)
    } else {
        match h[0] {
            Reply::Done(Ok(_)) => Outcome::Done(Ok(name), h.skip(1)),
            Reply::Done(Err(e)) => Outcome::Done(
                Err(SyncError::Other("Failed to checkout fallback branch: "@ + e.description@)),
                h.skip(1),
            ),
            _ => unfit(h.skip(1)),
        }
    }
}

/// The creation of a fallback branch, under way.
#[derive(Debug)]
pub enum CreateRun {
    Name,
    Free { name: String, n: u64 },
    Commit { name: String },
    Branch { name: String, oid: String },
    Head { name: String },
    Checkout { name: String },
}

impl CreateRun {
    /// Creates a fallback branch and checks it out.
    pub fn start() -> (step: Step<CreateRun, Result<String, SyncError>>)
        ensures
            follows(|h: Seq<Reply>| create_fallback_script(h), step),
            step is Ask,
    {
        proof {
            reveal(create_fallback_script);
        }
        Step::Ask(CreateRun::Name, GitOp::HostAndTime { layout: TimeLayout::Branch })
    }
}

impl Scripted for CreateRun {
    type Output = Result<String, SyncError>;

    type Outline = Attempt<Seq<char>>;

    open spec fn outline(output: Self::Output) -> Self::Outline {
        attempt_text(output)
    }

    closed spec fn script(self, h: Seq<Reply>) -> Outcome<Self::Outline> {
        match self {
            CreateRun::Name => create_fallback_script(h),
            CreateRun::Free { name, n } => fallback_name_script(name@, n, h),
            CreateRun::Commit { name } => fallback_commit_script(name@, h),
            CreateRun::Branch { name, oid } => fallback_branch_script(name@, oid@, h),
            CreateRun::Head { name } => fallback_head_script(name@, h),
            CreateRun::Checkout { name } => fallback_checkout_script(name@, h),
        }
    }
}

impl Procedure for CreateRun {
    fn resume(self, reply: Reply) -> (next: Step<Self, Self::Output>) {
        broadcast use lemma_first_reply;

        proof {
            reveal(create_fallback_script);
            reveal_with_fuel(fallback_name_script, 2);
        }

        match self {
            CreateRun::Name => match reply {
                Reply::HostAndTime(host, time) => {
                    let name: String = generate_fallback_branch_name(host, time.as_str());
                    let op: GitOp = GitOp::BranchExists {
                        branch: candidate_name(name.as_str(), 1),
                    };
                    Step::Ask(CreateRun::Free { name, n: 1 }, op)
                },
                _ => Step::Done(Err(misfit_error())),
            },
            CreateRun::Free { name, n } => match reply {
                Reply::Flag(Ok(taken)) => if taken && n < u64::MAX {
                    let n: u64 = n + 1;
                    let op: GitOp = GitOp::BranchExists {
                        branch: candidate_name(name.as_str(), n),
                    };
                    Step::Ask(CreateRun::Free { name, n }, op)
                } else {
                    let name: String = candidate_name(name.as_str(), n);
                    Step::Ask(CreateRun::Commit { name }, GitOp::HeadCommit)
                },
                Reply::Flag(Err(e)) => Step::Done(Err(SyncError::GitError(e))),
                _ => Step::Done(Err(misfit_error())),
            },
            CreateRun::Commit { name } => match reply {
                Reply::Text(Ok(oid)) => {
                    let op: GitOp = GitOp::CreateBranch { branch: name.clone(), oid: oid.clone() };
                    Step::Ask(CreateRun::Branch { name, oid }, op)
                },
                Reply::Text(Err(e)) => Step::Done(Err(SyncError::GitError(e))),
                _ => Step::Done(Err(misfit_error())),
            },
            CreateRun::Branch { name, oid } => match reply {
                Reply::Done(Ok(_)) => {
                    let op: GitOp = GitOp::SetHead { name: branch_reference(name.as_str()) };
                    Step::Ask(CreateRun::Head { name }, op)
                },
                Reply::Done(Err(e)) => Step::Done(
                    Err(
                        SyncError::Other(
                            "Failed to create fallback branch: ".to_string().concat(
                                e.description.as_str(),
                            ),
                        ),
                    ),
                ),
                _ => Step::Done(Err(misfit_error())),
            },
            CreateRun::Head { name } => match reply {
                Reply::Done(Ok(_)) => Step::Ask(CreateRun::Checkout { name }, GitOp::CheckoutHead),
                Reply::Done(Err(e)) => Step::Done(Err(SyncError::GitError(e))),
                _ => Step::Done(Err(misfit_error())),
            },
            CreateRun::Checkout { name } => match reply {
                Reply::Done(Ok(_)) => Step::Done(Ok(name)),
                Reply::Done(Err(e)) => Step::Done(
                    Err(
                        SyncError::Other(
                            "Failed to checkout fallback branch: ".to_string().concat(
                                e.description.as_str(),
                            ),
                        ),
                    ),
                ),
                _ => Step::Done(Err(misfit_error())),
            },
        }
    }
}

/// Whether the repository is in fallback mode, where the given branch is configured.
pub open spec fn on_fallback_script(configured: Option<Seq<char>>, h: Seq<Reply>) -> Outcome<
    Attempt<bool>,
> {
    fallback_or_not(configured, current_branch_script(h))
}

pub open spec fn fallback_or_not(
    configured: Option<Seq<char>>,
    o: Outcome<Attempt<CurrentBranch<Seq<char>>>>,
) -> Outcome<Attempt<bool>> {
    match o {
        Outcome::Ask(op) => Outcome::Ask(op),
        Outcome::Done(Ok(branch), rest) => Outcome::Done(
            Ok(in_fallback_mode(branch.name, configured)),
            rest,
        ),
        Outcome::Done(Err(e), rest) => Outcome::Done(Err(e), rest),
    }
}

/// Whether the repository is in fallback mode, under way.
#[derive(Debug)]
pub struct OnFallbackRun {
    pub configured: Option<String>,
    pub run: BranchRun,
}

impl OnFallbackRun {
    /// Asks whether the repository is in fallback mode, where the given branch is configured.
    pub fn start(configured: &Option<String>) -> (step: Step<
        OnFallbackRun,
        Result<bool, SyncError>,
    >)
        ensures
            follows(
                |h: Seq<Reply>| on_fallback_script(text::option_view(*configured), h),
                step,
            ),
            step is Ask,
    {
        Self::branch(text::copy_option(configured), BranchRun::start())
    }

    fn branch(
        configured: Option<String>,
        step: Step<BranchRun, Result<CurrentBranch, SyncError>>,
    ) -> (next: Step<OnFallbackRun, Result<bool, SyncError>>)
        ensures
            match step {
                Step::Ask(run, op) => asks(next, OnFallbackRun { configured, run }, op),
                Step::Done(Ok(branch)) => ends(
                    next,
                    Ok(in_fallback_mode(branch.name@, text::option_view(configured))),
                ),
                Step::Done(Err(e)) => ends(next, Err(e)),
            },
    {
        match step {
            Step::Ask(run, op) => Step::Ask(OnFallbackRun { configured, run }, op),
            Step::Done(Ok(branch)) => Step::Done(
                Ok(is_fallback_mode(branch.name.as_str(), &configured)),
            ),
            Step::Done(Err(e)) => Step::Done(Err(e)),
        }
    }
}

impl Scripted for OnFallbackRun {
    type Output = Result<bool, SyncError>;

    type Outline = Attempt<bool>;

    open spec fn outline(output: Self::Output) -> Self::Outline {
        attempt(output)
    }

    closed spec fn script(self, h: Seq<Reply>) -> Outcome<Self::Outline> {
        fallback_or_not(text::option_view(self.configured), self.run.script(h))
    }
}

impl Procedure for OnFallbackRun {
    fn resume(self, reply: Reply) -> (next: Step<Self, Self::Output>) {
        Self::branch(self.configured, self.run.resume(reply))
    }
}

} // verus!
