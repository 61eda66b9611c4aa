//! The git commands that fetch, push and commit, and what their output means.

use crate::error::SyncError;
use crate::host::host_name;
use crate::sync::step::{
    misfit_error, CommandOutput, GitOp, Procedure, RemoteCommand, Reply, Scripted, Step,
};
use crate::sync::step::{attempt, follows, lemma_first_reply, misfit, Outcome};
use crate::text;
use crate::text::{option_view, str_view};
use vstd::prelude::*;
use vstd::string::*;
use vstd::utf8::*;

verus! {

/// Whether a commit was made.
#[derive(Debug, Clone, Copy, PartialEq, Eq, Structural)]
pub enum CommitOutcome {
    Created,
    NoChanges,
}

/// What git says where it knows no name or address to commit under, in lower case.
pub open spec fn mentions_missing_identity(lower: Seq<char>) -> bool {
    ||| text::contains_text(lower, "author identity unknown"@)
    ||| text::contains_text(lower, "committer identity unknown"@)
    ||| text::contains_text(lower, "please tell me who you are"@)
    ||| text::contains_text(lower, "unable to auto-detect email address"@)
    ||| text::contains_text(lower, "empty ident name"@)
    ||| text::contains_text(lower, "empty ident email"@)
}

/// What git says where there is nothing to commit, in lower case.
pub open spec fn mentions_nothing_to_commit(lower: Seq<char>) -> bool {
    ||| text::contains_text(lower, "nothing to commit"@)
    ||| text::contains_text(lower, "nothing added to commit"@)
    ||| text::contains_text(lower, "no changes added to commit"@)
}

/// What git says where the remote lets nobody in, in lower case.
pub open spec fn mentions_refused_access(lower: Seq<char>) -> bool {
    ||| text::contains_text(lower, "authentication failed"@)
    ||| text::contains_text(lower, "permission denied"@)
    ||| text::contains_text(lower, "could not read from remote repository"@)
}

/// What git says where a hook stopped a commit, in lower case.
pub open spec fn mentions_hook(lower: Seq<char>) -> bool {
    ||| text::contains_text(lower, "hook declined"@)
    ||| text::contains_text(lower, "pre-commit"@)
    ||| text::contains_text(lower, "commit-msg"@)
}

pub open spec fn text_or(t: Option<Seq<char>>, default: Seq<char>) -> Seq<char> {
    match t {
        Some(t) => t,
        None => default,
    }
}

/// The error that a failed command stands for, where `lower` is its output in lower case: first
/// a missing remote branch, then refused access, then a hook that stopped a commit, else the
/// command itself.
pub open spec fn classified(
    command: Seq<char>,
    stderr: Seq<char>,
    lower: Seq<char>,
    remote: Option<Seq<char>>,
    branch: Option<Seq<char>>,
) -> SyncError<Seq<char>> {
    if text::contains_text(stderr, "couldn't find remote ref"@) {
        SyncError::RemoteBranchNotFound {
            remote: text_or(remote, "origin"@),
            branch: text_or(branch, "<unknown>"@),
        }
    } else if mentions_refused_access(lower) {
        SyncError::AuthenticationFailed { operation: command }
    } else if text::contains_text(command, "commit"@) && mentions_hook(lower) {
        SyncError::HookRejected { details: text::trimmed(stderr) }
    } else {
        SyncError::GitCommandFailed { command, stderr: text::trimmed(stderr) }
    }
}

/// One character of an address: ASCII letters in lower case, digits, full stops, underscores and
/// hyphens are kept, and anything else becomes a hyphen.
pub open spec fn address_char(c: char) -> char {
    if text::ascii_alphanumeric(c) || c == '.' || c == '_' || c == '-' {
        text::ascii_lower(c)
    } else {
        '-'
    }
}

/// A text as one side of an address, without hyphens at its ends.
pub open spec fn address_part(value: Seq<char>) -> Seq<char> {
    text::without_outer_hyphens(value.map_values(|c: char| address_char(c)))
}

/// The given text, or `default` where there is none or it is blank.
pub open spec fn unless_blank(t: Option<Seq<char>>, default: Seq<char>) -> Seq<char> {
    match t {
        Some(t) => if text::trimmed(t).len() == 0 {
            default
        } else {
            t
        },
        None => default,
    }
}

pub open spec fn unless_empty(t: Seq<char>, default: Seq<char>) -> Seq<char> {
    if t.len() == 0 {
        default
    } else {
        t
    }
}

/// The name and address to commit under on a machine where git has none.
pub open spec fn identity_for(user: Option<Seq<char>>, host: Option<Seq<char>>) -> (
    Seq<char>,
    Seq<char>,
) {
    let local = unless_empty(address_part(unless_blank(user, "git-sync-rs"@)), "git-sync-rs"@);
    let domain = unless_empty(address_part(unless_blank(host, "localhost"@)), "localhost"@);
    ("git-sync-rs"@, local + "@"@ + domain)
}

/// Everything a command wrote: its errors, then its output.
pub open spec fn combined_output(output: CommandOutput) -> Seq<char> {
    text::lossily_decoded(output.stderr@) + "\n"@ + text::lossily_decoded(output.stdout@)
}

/// What the output of `git commit` means; for a failure, what the command wrote.
pub open spec fn commit_result(output: CommandOutput) -> Result<CommitOutcome, Seq<char>> {
    if output.success {
        Ok(CommitOutcome::Created)
    } else if mentions_nothing_to_commit(text::lowercased(combined_output(output))) {
        Ok(CommitOutcome::NoChanges)
    } else {
        Err(combined_output(output))
    }
}

/// The error of a commit that failed with the given output.
pub open spec fn commit_error(output: Seq<char>) -> SyncError<Seq<char>> {
    classified("git commit"@, output, text::lowercased(output), None, None)
}

/// What is reported where both the commit and the retry under the fallback identity failed.
pub open spec fn both_attempts(first: Seq<char>, second: Seq<char>) -> Seq<char> {
    "git commit failed due to missing identity, fallback identity retry also failed.\n\ninitial:\n"@
        + text::trimmed(first) + "\n\nfallback retry:\n"@ + text::trimmed(second)
}

/// The arguments to `git` for a command that talks to a remote.
pub open spec fn arguments_of(command: RemoteCommand<Seq<char>>) -> Seq<Seq<char>> {
    match command {
        RemoteCommand::Fetch { remote, branch } => seq!["fetch"@, remote, branch],
        RemoteCommand::Push { remote, refspec } => seq!["push"@, remote, refspec],
        RemoteCommand::PushUpstream { remote, branch } => seq!["push"@, "-u"@, remote, branch],
    }
}

/// A command as it is named in errors.
pub open spec fn label_of(command: RemoteCommand<Seq<char>>) -> Seq<char> {
    match command {
        RemoteCommand::Fetch { remote, branch } => "git fetch "@ + remote + " "@ + branch,
        RemoteCommand::Push { remote, refspec } => "git push "@ + remote + " "@ + refspec,
        RemoteCommand::PushUpstream { remote, branch } => "git push -u "@ + remote + " "@ + branch,
    }
}

pub open spec fn remote_of(command: RemoteCommand<Seq<char>>) -> Seq<char> {
    match command {
        RemoteCommand::Fetch { remote, .. } => remote,
        RemoteCommand::Push { remote, .. } => remote,
        RemoteCommand::PushUpstream { remote, .. } => remote,
    }
}

pub open spec fn branch_of(command: RemoteCommand<Seq<char>>) -> Option<Seq<char>> {
    match command {
        RemoteCommand::Fetch { branch, .. } => Some(branch),
        RemoteCommand::Push { .. } => None,
        RemoteCommand::PushUpstream { branch, .. } => Some(branch),
    }
}

/// The error of a command that could not be run.
pub open spec fn not_run(command: RemoteCommand<Seq<char>>, why: Seq<char>) -> SyncError<
    Seq<char>,
> {
    match command {
        RemoteCommand::Fetch { .. } => SyncError::Other("Failed to run git fetch: "@ + why),
        _ => SyncError::Other("Failed to run git push: "@ + why),
    }
}

/// The arguments to `git` that commit the index.
pub open spec fn commit_arguments_of(message: Seq<char>, skip_hooks: bool) -> Seq<Seq<char>> {
    if skip_hooks {
        seq!["commit"@, "--no-verify"@, "-m"@, message]
    } else {
        seq!["commit"@, "-m"@, message]
    }
}

/// The environment variables that make git commit under a name and address.
pub open spec fn identity_environment_of(name: Seq<char>, email: Seq<char>) -> Seq<
    (Seq<char>, Seq<char>),
> {
    seq![
        ("GIT_AUTHOR_NAME"@, name),
        ("GIT_AUTHOR_EMAIL"@, email),
        ("GIT_COMMITTER_NAME"@, name),
        ("GIT_COMMITTER_EMAIL"@, email),
    ]
}

/// What a command that talks to a remote comes to.
pub open spec fn remote_result(
    command: RemoteCommand<Seq<char>>,
    output: Result<CommandOutput, String>,
) -> Result<(), SyncError<Seq<char>>> {
    match output {
        Ok(output) => if output.success {
            Ok(())
        } else {
            let stderr = text::lossily_decoded(output.stderr@);
            Err(
                classified(
                    label_of(command),
                    stderr,
                    text::lowercased(stderr),
                    Some(remote_of(command)),
                    branch_of(command),
                ),
            )
        },
        Err(why) => Err(not_run(command, why@)),
    }
}

/// What `git commit` comes to: where git knows no name and address to commit under, the commit
/// is tried once more under a fallback identity.
#[verifier::opaque]
pub open spec fn commit_script(message: Seq<char>, skip_hooks: bool, h: Seq<Reply>) -> Outcome<
    Result<CommitOutcome, SyncError<Seq<char>>>,
> {
    if h.len() == 0 {
        Outcome::Ask(GitOp::Commit { message, skip_hooks, identity: None })
    } else {
        match h[0] {
            Reply::Output(Ok(output)) => match commit_result(output) {
                Ok(outcome) => Outcome::Done(Ok(outcome), h.skip(1)),
                Err(written) => if mentions_missing_identity(text::lowercased(written)) {
                    identity_script(message, skip_hooks, written, h.skip(1))
                } else {
                    Outcome::Done(Err(commit_error(written)), h.skip(1))
                },
            },
            Reply::Output(Err(why)) => Outcome::Done(
                Err(SyncError::Other("Failed to run git commit: "@ + why@)),
                h.skip(1),
            ),
            _ => Outcome::Done(Err(misfit()), h.skip(1)),
        }
    }
}

/// The second attempt of a commit, after the first one wrote `first`.
pub open spec fn identity_script(
    message: Seq<char>,
    skip_hooks: bool,
    first: Seq<char>,
    h: Seq<Reply>,
) -> Outcome<Result<CommitOutcome, SyncError<Seq<char>>>> {
    if h.len() == 0 {
        Outcome::Ask(GitOp::UserAndHost)
    } else {
        match h[0] {
            Reply::UserAndHost(user, host) => {
                let (name, email) = identity_for(option_view(user), option_view(host));
                retry_script(message, skip_hooks, first, name, email, h.skip(1))
            },
            _ => Outcome::Done(Err(misfit()), h.skip(1)),
        }
    }
}

/// The second attempt of a commit, under the given name and address.
pub open spec fn retry_script(
    message: Seq<char>,
    skip_hooks: bool,
    first: Seq<char>,
    name: Seq<char>,
    email: Seq<char>,
    h: Seq<Reply>,
) -> Outcome<Result<CommitOutcome, SyncError<Seq<char>>>> {
    if h.len() == 0 {
        Outcome::Ask(GitOp::Commit { message, skip_hooks, identity: Some((name, email)) })
    } else {
        match h[0] {
            Reply::Output(Ok(output)) => match commit_result(output) {
                Ok(outcome) => Outcome::Done(Ok(outcome), h.skip(1)),
                Err(written) => Outcome::Done(
                    Err(commit_error(both_attempts(first, written))),
                    h.skip(1),
                ),
            },
            Reply::Output(Err(why)) => Outcome::Done(
                Err(SyncError::Other("Failed to rerun git commit: "@ + why@)),
                h.skip(1),
            ),
            _ => Outcome::Done(Err(misfit()), h.skip(1)),
        }
    }
}

/// A commit that is under way.
#[derive(Debug)]
pub enum CommitRun {
    First { message: String, skip_hooks: bool },
    Identity { message: String, skip_hooks: bool, first: String },
    Retry { message: String, skip_hooks: bool, first: String, name: String, email: String },
}

impl CommitRun {
    /// Commits the index with the given message.
    pub fn start(message: String, skip_hooks: bool) -> (step: Step<
        CommitRun,
        Result<CommitOutcome, SyncError>,
    >)
        ensures
            follows(|h: Seq<Reply>| commit_script(message@, skip_hooks, h), step),
            step is Ask,
    {
        proof {
            reveal(commit_script);
        }
        let op: GitOp = GitOp::Commit { message: message.clone(), skip_hooks, identity: None };
        Step::Ask(CommitRun::First { message, skip_hooks }, op)
    }
}

impl Scripted for CommitRun {
    type Output = Result<CommitOutcome, SyncError>;

    type Outline = Result<CommitOutcome, SyncError<Seq<char>>>;

    open spec fn outline(output: Self::Output) -> Self::Outline {
        attempt(output)
    }

    closed spec fn script(self, h: Seq<Reply>) -> Outcome<Self::Outline> {
        match self {
            CommitRun::First { message, skip_hooks } => commit_script(message@, skip_hooks, h),
            CommitRun::Identity { message, skip_hooks, first } => identity_script(
                message@,
                skip_hooks,
                first@,
                h,
            ),
            CommitRun::Retry { message, skip_hooks, first, name, email } => retry_script(
                message@,
                skip_hooks,
                first@,
                name@,
                email@,
                h,
            ),
        }
    }
}

impl Procedure for CommitRun {
    fn resume(self, reply: Reply) -> (next: Step<Self, Self::Output>) {
        broadcast use lemma_first_reply;

        proof {
            reveal(commit_script);
        }

        match self {
            CommitRun::First { message, skip_hooks } => match reply {
                Reply::Output(Ok(output)) => match CommandGitTransport::parse_commit_output(
                    &output,
                ) {
                    Ok(outcome) => Step::Done(Ok(outcome)),
                    Err(written) => if CommandGitTransport::is_missing_identity_error(
                        written.as_str(),
                    ) {
                        Step::Ask(
                            CommitRun::Identity { message, skip_hooks, first: written },
                            GitOp::UserAndHost,
                        )
                    } else {
                        Step::Done(
                            Err(
                                CommandGitTransport.classify_git_error(
                                    "git commit",
                                    written.as_str(),
                                    None,
                                    None,
                                ),
                            ),
                        )
                    },
                },
                Reply::Output(Err(why)) => Step::Done(
                    Err(
                        SyncError::Other(
                            "Failed to run git commit: ".to_string().concat(why.as_str()),
                        ),
                    ),
                ),
                _ => Step::Done(Err(misfit_error())),
            },
            CommitRun::Identity { message, skip_hooks, first } => match reply {
                Reply::UserAndHost(user, host) => {
                    let (name, email): (String, String) = CommandGitTransport::commit_identity(
                        user,
                        host,
                    );
                    let op: GitOp = GitOp::Commit {
                        message: message.clone(),
                        skip_hooks,
                        identity: Some((name.clone(), email.clone())),
                    };
                    Step::Ask(CommitRun::Retry { message, skip_hooks, first, name, email }, op)
                },
                _ => Step::Done(Err(misfit_error())),
            },
            CommitRun::Retry { message, skip_hooks, first, name, email } => match reply {
                Reply::Output(Ok(output)) => match CommandGitTransport::parse_commit_output(
                    &output,
                ) {
                    Ok(outcome) => Step::Done(Ok(outcome)),
                    Err(written) => {
                        let both: String = report_both_attempts(first.as_str(), written.as_str());
                        Step::Done(
                            Err(
                                CommandGitTransport.classify_git_error(
                                    "git commit",
                                    both.as_str(),
                                    None,
                                    None,
                                ),
                            ),
                        )
                    },
                },
                Reply::Output(Err(why)) => Step::Done(
                    Err(
                        SyncError::Other(
                            "Failed to rerun git commit: ".to_string().concat(why.as_str()),
                        ),
                    ),
                ),
                _ => Step::Done(Err(misfit_error())),
            },
        }
    }
}

fn report_both_attempts(first: &str, second: &str) -> (report: String)
    ensures
        report@ == both_attempts(first@, second@),
{
    "git commit failed due to missing identity, fallback identity retry also failed.\n\ninitial:\n".to_string().concat(
    text::trim(first).as_str()).concat("\n\nfallback retry:\n").concat(
        text::trim(second).as_str(),
    )
}

/// How the commands that talk to a remote, and the commit, are put together.
pub trait GitTransport: Send + Sync {
    fn fetch_branch(&self, remote: &str, branch: &str) -> RemoteCommand;

    fn push_refspec(&self, remote: &str, refspec: &str) -> RemoteCommand;

    fn push_branch_upstream(&self, remote: &str, branch: &str) -> RemoteCommand;

    fn commit(&self, message: &str, skip_hooks: bool) -> Step<
        CommitRun,
        Result<CommitOutcome, SyncError>,
    >;
}

/// The transport that runs the `git` program.
#[derive(Debug, Default)]
pub struct CommandGitTransport;

impl GitTransport for CommandGitTransport {
    fn fetch_branch(&self, remote: &str, branch: &str) -> (command: RemoteCommand)
        ensures
            command@ == (RemoteCommand::Fetch { remote: remote@, branch: branch@ }),
    {
        RemoteCommand::Fetch { remote: remote.to_string(), branch: branch.to_string() }
    }

    fn push_refspec(&self, remote: &str, refspec: &str) -> (command: RemoteCommand)
        ensures
            command@ == (RemoteCommand::Push { remote: remote@, refspec: refspec@ }),
    {
        RemoteCommand::Push { remote: remote.to_string(), refspec: refspec.to_string() }
    }

    fn push_branch_upstream(&self, remote: &str, branch: &str) -> (command: RemoteCommand)
        ensures
            command@ == (RemoteCommand::PushUpstream { remote: remote@, branch: branch@ }),
    {
        RemoteCommand::PushUpstream { remote: remote.to_string(), branch: branch.to_string() }
    }

    fn commit(&self, message: &str, skip_hooks: bool) -> (step: Step<
        CommitRun,
        Result<CommitOutcome, SyncError>,
    >)
        ensures
            follows(|h: Seq<Reply>| commit_script(message@, skip_hooks, h), step),
    {
        CommitRun::start(message.to_string(), skip_hooks)
    }
}

/// Whether `lower` is what git says, in lower case, where it knows no name or address.
pub fn says_missing_identity(lower: &str) -> (r: bool)
    ensures
        r == mentions_missing_identity(lower@),
{
    text::contains(lower, "author identity unknown") || text::contains(
        lower,
        "committer identity unknown",
    ) || text::contains(lower, "please tell me who you are") || text::contains(
        lower,
        "unable to auto-detect email address",
    ) || text::contains(lower, "empty ident name") || text::contains(lower, "empty ident email")
}

/// Whether `lower` is what git says, in lower case, where there is nothing to commit.
pub fn says_nothing_to_commit(lower: &str) -> (r: bool)
    ensures
        r == mentions_nothing_to_commit(lower@),
{
    text::contains(lower, "nothing to commit") || text::contains(lower, "nothing added to commit")
        || text::contains(lower, "no changes added to commit")
}

/// The error that a failed command stands for, where `lower` is its output in lower case.
pub fn classify_lowered(
    command: &str,
    stderr: &str,
    lower: &str,
    remote: Option<&str>,
    branch: Option<&str>,
) -> (e: SyncError)
    ensures
        e@ == classified(command@, stderr@, lower@, str_view(remote), str_view(branch)),
{
    if text::contains(stderr, "couldn't find remote ref") {
        let remote: &str = match remote {
            Some(r) => r,
            None => "origin",
        };
        let branch: &str = match branch {
            Some(b) => b,
            None => "<unknown>",
        };
        return SyncError::RemoteBranchNotFound {
            remote: remote.to_string(),
            branch: branch.to_string(),
        };
    }
    if text::contains(lower, "authentication failed") || text::contains(lower, "permission denied")
        || text::contains(lower, "could not read from remote repository") {
        return SyncError::AuthenticationFailed { operation: command.to_string() };
    }
    if text::contains(command, "commit") && (text::contains(lower, "hook declined")
        || text::contains(lower, "pre-commit") || text::contains(lower, "commit-msg")) {
        return SyncError::HookRejected { details: text::trim(stderr) };
    }
    SyncError::GitCommandFailed { command: command.to_string(), stderr: text::trim(stderr) }
}

impl CommandGitTransport {
    /// Whether the output of a commit says that git knows no name or address to commit under.
    pub fn is_missing_identity_error(output: &str) -> (r: bool)
        ensures
            r == mentions_missing_identity(text::lowercased(output@)),
            is_ascii_chars(output@) ==> r == mentions_missing_identity(
                output@.map_values(|c: char| text::ascii_lower(c)),
            ),
    {
        let lower: String = text::lowercase(output);
        says_missing_identity(lower.as_str())
    }

    /// A text as one side of an address.
    pub fn sanitize_email_component(value: &str) -> (part: String)
        ensures
            part@ == address_part(value@),
    {
        let chars: Vec<char> = text::chars_of(value);
        let mut out: String = String::new();
        let ghost wanted = value@.map_values(|c: char| address_char(c));
        let mut i: usize = 0;
        while i < chars.len()
            invariant
                i <= chars@.len(),
                chars@ == value@,
                wanted == value@.map_values(|c: char| address_char(c)),
                out@ == wanted.take(i as int),
            decreases chars@.len() - i,
        {
            let c: char = chars[i];
            if text::is_ascii_alphanumeric(c) || c == '.' || c == '_' || c == '-' {
                out.push(text::to_ascii_lower(c));
            } else {
                out.push('-');
            }
            assert(wanted.take(i as int).push(wanted[i as int]) =~= wanted.take(i + 1));
            i = i + 1;
        }
        assert(wanted.take(wanted.len() as int) =~= wanted);
        text::trim_hyphens(out.as_str())
    }

    /// The name and address to commit under where git has none, from the name of the user, if
    /// there is one, and the name of this machine.
    pub fn fallback_commit_identity(user: Option<String>) -> (identity: (String, String))
        ensures
            exists|host: Option<Seq<char>>|
                (identity.0@, identity.1@) == #[trigger] identity_for(option_view(user), host),
    {
        let host: Option<String> = match host_name() {
            Ok(name) => Some(name),
            Err(_) => None,
        };
        let identity: (String, String) = Self::commit_identity(user, host);
        assert((identity.0@, identity.1@) == identity_for(option_view(user), option_view(host)));
        identity
    }

    /// The name and address to commit under, from the name of the user and of the machine.
    pub fn commit_identity(user: Option<String>, host: Option<String>) -> (identity: (
        String,
        String,
    ))
        ensures
            (identity.0@, identity.1@) == identity_for(option_view(user), option_view(host)),
    {
        let user: String = match user {
            Some(u) => if text::trim(u.as_str()).as_str().is_empty() {
                "git-sync-rs".to_string()
            } else {
                u
            },
            None => "git-sync-rs".to_string(),
        };
        let host: String = match host {
            Some(h) => if text::trim(h.as_str()).as_str().is_empty() {
                "localhost".to_string()
            } else {
                h
            },
            None => "localhost".to_string(),
        };
        let local: String = Self::sanitize_email_component(user.as_str());
        let domain: String = Self::sanitize_email_component(host.as_str());
        let local: String = if local.as_str().is_empty() {
            "git-sync-rs".to_string()
        } else {
            local
        };
        let domain: String = if domain.as_str().is_empty() {
            "localhost".to_string()
        } else {
            domain
        };
        ("git-sync-rs".to_string(), local.concat("@").concat(domain.as_str()))
    }

    /// What the output of `git commit` means; for a failure, what the command wrote.
    pub fn parse_commit_output(output: &CommandOutput) -> (r: Result<CommitOutcome, String>)
        ensures
            match r {
                Ok(outcome) => commit_result(*output) == Ok::<CommitOutcome, Seq<char>>(outcome),
                Err(written) => commit_result(*output) == Err::<CommitOutcome, Seq<char>>(
                    written@,
                ),
            },
    {
        if output.success {
            return Ok(CommitOutcome::Created);
        }
        let stderr: String = text::decode_lossily(&output.stderr);
        let stdout: String = text::decode_lossily(&output.stdout);
        let combined: String = stderr.concat("\n").concat(stdout.as_str());
        let lower: String = text::lowercase(combined.as_str());
        if says_nothing_to_commit(lower.as_str()) {
            return Ok(CommitOutcome::NoChanges);
        }
        Err(combined)
    }

    /// The error that a failed command stands for.
    pub fn classify_git_error(
        &self,
        command: &str,
        stderr: &str,
        remote: Option<&str>,
        branch: Option<&str>,
    ) -> (e: SyncError)
        ensures
            e@ == classified(
                command@,
                stderr@,
                text::lowercased(stderr@),
                str_view(remote),
                str_view(branch),
            ),
            is_ascii_chars(stderr@) ==> e@ == classified(
                command@,
                stderr@,
                stderr@.map_values(|c: char| text::ascii_lower(c)),
                str_view(remote),
                str_view(branch),
            ),
    {
        let lower: String = text::lowercase(stderr);
        classify_lowered(command, stderr, lower.as_str(), remote, branch)
    }

    /// What a command that talks to a remote comes to.
    pub fn remote_command_result(
        &self,
        command: &RemoteCommand,
        output: Result<CommandOutput, String>,
    ) -> (r: Result<(), SyncError>)
        ensures
            attempt(r) == remote_result(command@, output),
    {
        match output {
            Ok(output) => {
                if output.success {
                    return Ok(());
                }
                let stderr: String = text::decode_lossily(&output.stderr);
                let label: String = command_label(command);
                let (remote, branch): (&str, Option<&str>) = match command {
                    RemoteCommand::Fetch { remote, branch } => (
                        remote.as_str(),
                        Some(branch.as_str()),
                    ),
                    RemoteCommand::Push { remote, .. } => (remote.as_str(), None),
                    RemoteCommand::PushUpstream { remote, branch } => (
                        remote.as_str(),
                        Some(branch.as_str()),
                    ),
                };
                Err(
                    self.classify_git_error(label.as_str(), stderr.as_str(), Some(remote), branch),
                )
            },
            Err(why) => {
                let what: &str = match command {
                    RemoteCommand::Fetch { .. } => "Failed to run git fetch: ",
                    _ => "Failed to run git push: ",
                };
                Err(SyncError::Other(what.to_string().concat(why.as_str())))
            },
        }
    }

    /// The arguments to `git` that commit the index.
    pub fn commit_arguments(message: &str, skip_hooks: bool) -> (arguments: Vec<String>)
        ensures
            arguments@.map_values(|a: String| a@) == commit_arguments_of(message@, skip_hooks),
    {
        let mut arguments: Vec<String> = Vec::new();
        arguments.push("commit".to_string());
        if skip_hooks {
            arguments.push("--no-verify".to_string());
        }
        arguments.push("-m".to_string());
        arguments.push(message.to_string());
        assert(arguments@.map_values(|a: String| a@) =~= commit_arguments_of(message@, skip_hooks));
        arguments
    }

    /// The environment variables that make git commit under a name and address.
    pub fn identity_environment(name: &str, email: &str) -> (variables: Vec<(String, String)>)
        ensures
            variables@.map_values(|v: (String, String)| (v.0@, v.1@)) == identity_environment_of(
                name@,
                email@,
            ),
    {
        let mut variables: Vec<(String, String)> = Vec::new();
        variables.push(("GIT_AUTHOR_NAME".to_string(), name.to_string()));
        variables.push(("GIT_AUTHOR_EMAIL".to_string(), email.to_string()));
        variables.push(("GIT_COMMITTER_NAME".to_string(), name.to_string()));
        variables.push(("GIT_COMMITTER_EMAIL".to_string(), email.to_string()));
        assert(variables@.map_values(|v: (String, String)| (v.0@, v.1@))
            =~= identity_environment_of(name@, email@));
        variables
    }
}

/// A command as it is named in errors.
fn command_label(command: &RemoteCommand) -> (label: String)
    ensures
        label@ == label_of(command@),
{
    match command {
        RemoteCommand::Fetch { remote, branch } => "git fetch ".to_string().concat(
            remote.as_str(),
        ).concat(" ").concat(branch.as_str()),
        RemoteCommand::Push { remote, refspec } => "git push ".to_string().concat(
            remote.as_str(),
        ).concat(" ").concat(refspec.as_str()),
        RemoteCommand::PushUpstream { remote, branch } => "git push -u ".to_string().concat(
            remote.as_str(),
        ).concat(" ").concat(branch.as_str()),
    }
}

impl RemoteCommand {
    /// The arguments to `git` for this command.
    pub fn arguments(&self) -> (arguments: Vec<String>)
        ensures
            arguments@.map_values(|a: String| a@) == arguments_of(self@),
    {
        let mut arguments: Vec<String> = Vec::new();
        match self {
            RemoteCommand::Fetch { remote, branch } => {
                arguments.push("fetch".to_string());
                arguments.push(remote.clone());
                arguments.push(branch.clone());
            },
            RemoteCommand::Push { remote, refspec } => {
                arguments.push("push".to_string());
                arguments.push(remote.clone());
                arguments.push(refspec.clone());
            },
            RemoteCommand::PushUpstream { remote, branch } => {
                arguments.push("push".to_string());
                arguments.push("-u".to_string());
                arguments.push(remote.clone());
                arguments.push(branch.clone());
            },
        }
        assert(arguments@.map_values(|a: String| a@) =~= arguments_of(self@));
        arguments
    }
}

} // verus!
