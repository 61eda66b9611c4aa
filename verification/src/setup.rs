//! Making sure that a repository is there, by cloning it where it is not.

use crate::path;
use crate::path_laws::{
    directories_are_above_what_is_in_them, fit_for_a_name, paths_are_put_below_directories,
};
use crate::sync::step::CommandOutput;
use crate::text;
use crate::text::option_view;
use crate::text_laws::{lacks, pieces_are_parted_by_the_separator};
use vstd::prelude::*;
use vstd::string::*;

verus! {

/// One operation. The parameter is the representation of texts.
#[derive(Debug)]
pub enum SetupOp<S = String> {
    /// Whether there is something at a path
    Exists { path: S },
    /// Create a directory, and those above it
    MakeDirectories { path: S },
    /// Run `git clone`
    Clone { url: S, path: S },
    /// Ask git which reference HEAD names
    SymbolicHead { path: S },
    /// Add a value to the configuration of git
    AddConfig { path: S, key: S, value: S },
}

impl View for SetupOp {
    type V = SetupOp<Seq<char>>;

    open spec fn view(&self) -> SetupOp<Seq<char>> {
        match self {
            SetupOp::Exists { path } => SetupOp::Exists { path: path@ },
            SetupOp::MakeDirectories { path } => SetupOp::MakeDirectories { path: path@ },
            SetupOp::Clone { url, path } => SetupOp::Clone { url: url@, path: path@ },
            SetupOp::SymbolicHead { path } => SetupOp::SymbolicHead { path: path@ },
            SetupOp::AddConfig { path, key, value } => SetupOp::AddConfig {
                path: path@,
                key: key@,
                value: value@,
            },
        }
    }
}

/// The reply to an operation; where it could not be performed, why.
#[derive(Debug)]
pub enum SetupReply {
    Flag(bool),
    Done(Result<(), String>),
    Output(Result<CommandOutput, String>),
}

/// What comes next; where it is over, why it failed, if it did.
pub enum SetupNext {
    Ask(SetupOp<Seq<char>>),
    Done(Result<(), Seq<char>>),
}

pub open spec fn setup_misfit() -> SetupNext {
    SetupNext::Done(Err("Reply does not fit the operation"@))
}

/// Makes sure that the repository is there. It is cloned from `url`, where there is nothing at
/// its path yet.
pub open spec fn ensure_script(
    repo_path: Seq<char>,
    url: Option<Seq<char>>,
    h: Seq<SetupReply>,
) -> SetupNext {
    if h.len() == 0 {
        SetupNext::Ask(SetupOp::Exists { path: repo_path })
    } else {
        match h[0] {
            SetupReply::Flag(true) => existing_script(repo_path, h.skip(1)),
            SetupReply::Flag(false) => match url {
                Some(url) => absent_script(repo_path, url, h.skip(1)),
                None => SetupNext::Done(
                    Err(
                        "Directory "@ + text::debug_quoted(repo_path)
                            + " does not exist. Configure its uri or set GIT_SYNC_REPOSITORY to clone it."@,
                    ),
                ),
            },
            _ => setup_misfit(),
        }
    }
}

pub open spec fn existing_script(repo_path: Seq<char>, h: Seq<SetupReply>) -> SetupNext {
    if h.len() == 0 {
        SetupNext::Ask(SetupOp::Exists { path: path::joined_paths(repo_path, ".git"@) })
    } else {
        match h[0] {
            SetupReply::Flag(true) => SetupNext::Done(Ok(())),
            SetupReply::Flag(false) => SetupNext::Done(
                Err(
                    "Directory "@ + text::debug_quoted(repo_path)
                        + " exists but is not a git repository"@,
                ),
            ),
            _ => setup_misfit(),
        }
    }
}

pub open spec fn absent_script(
    repo_path: Seq<char>,
    url: Seq<char>,
    h: Seq<SetupReply>,
) -> SetupNext {
    match path::parent_of(repo_path) {
        Some(parent) => parent_script(repo_path, url, parent, h),
        None => clone_script(repo_path, url, h),
    }
}

pub open spec fn parent_script(
    repo_path: Seq<char>,
    url: Seq<char>,
    parent: Seq<char>,
    h: Seq<SetupReply>,
) -> SetupNext {
    if h.len() == 0 {
        SetupNext::Ask(SetupOp::MakeDirectories { path: parent })
    } else {
        match h[0] {
            SetupReply::Done(Ok(_)) => clone_script(repo_path, url, h.skip(1)),
            SetupReply::Done(Err(why)) => SetupNext::Done(Err(why@)),
            _ => setup_misfit(),
        }
    }
}

pub open spec fn clone_script(
    repo_path: Seq<char>,
    url: Seq<char>,
    h: Seq<SetupReply>,
) -> SetupNext {
    if h.len() == 0 {
        SetupNext::Ask(SetupOp::Clone { url, path: repo_path })
    } else {
        match h[0] {
            SetupReply::Output(Ok(output)) => if output.success {
                head_script(repo_path, h.skip(1))
            } else {
                SetupNext::Done(
                    Err(
                        "Failed to clone repository: "@ + text::lossily_decoded(output.stderr@),
                    ),
                )
            },
            SetupReply::Output(Err(why)) => SetupNext::Done(Err(why@)),
            _ => setup_misfit(),
        }
    }
}

/// The branch that a reference names: what follows the last slash.
pub open spec fn branch_named(reference: Seq<char>) -> Seq<char> {
    text::pieces(text::trimmed(reference), '/').last()
}

pub open spec fn head_script(repo_path: Seq<char>, h: Seq<SetupReply>) -> SetupNext {
    if h.len() == 0 {
        SetupNext::Ask(SetupOp::SymbolicHead { path: repo_path })
    } else {
        match h[0] {
            SetupReply::Output(Ok(output)) => if output.success {
                push_remote_script(
                    repo_path,
                    branch_named(text::lossily_decoded(output.stdout@)),
                    h.skip(1),
                )
            } else {
                SetupNext::Done(Ok(()))
            },
            SetupReply::Output(Err(why)) => SetupNext::Done(Err(why@)),
            _ => setup_misfit(),
        }
    }
}

/// The setting that says where a branch is pushed to.
pub open spec fn push_remote_key(branch: Seq<char>) -> Seq<char> {
    "branch."@ + branch + ".pushRemote"@
}

pub open spec fn push_remote_script(
    repo_path: Seq<char>,
    branch: Seq<char>,
    h: Seq<SetupReply>,
) -> SetupNext {
    if h.len() == 0 {
        SetupNext::Ask(
            SetupOp::AddConfig {
                path: repo_path,
                key: push_remote_key(branch),
                value: "origin"@,
            },
        )
    } else {
        match h[0] {
            SetupReply::Output(Ok(_)) => SetupNext::Done(Ok(())),
            SetupReply::Output(Err(why)) => SetupNext::Done(Err(why@)),
            _ => setup_misfit(),
        }
    }
}

/// How far the work has come.
#[allow(inconsistent_fields)]
#[derive(Debug)]
pub enum SetupRun {
    Exists { repo_path: String, url: Option<String> },
    Existing { repo_path: String },
    Parent { repo_path: String, url: String, parent: String },
    Clone { repo_path: String, url: String },
    Head { repo_path: String },
    PushRemote { repo_path: String, branch: String },
}

#[derive(Debug)]
pub enum SetupStep {
    /// Perform the operation, and resume with the reply
    Ask(SetupRun, SetupOp),
    Done(Result<(), String>),
}

pub open spec fn outcome(r: Result<(), String>) -> Result<(), Seq<char>> {
    match r {
        Ok(_) => Ok(()),
        Err(why) => Err(why@),
    }
}

/// Whether a step does what a script says.
pub open spec fn keeps_to(script: spec_fn(Seq<SetupReply>) -> SetupNext, step: SetupStep) -> bool {
    match step {
        SetupStep::Ask(run, op) => {
            &&& script(Seq::empty()) == SetupNext::Ask(op@)
            &&& forall|h: Seq<SetupReply>| #[trigger] run.script(h) == script(h)
        },
        SetupStep::Done(r) => forall|h: Seq<SetupReply>| #[trigger]
            script(h) == SetupNext::Done(outcome(r)),
    }
}

broadcast proof fn lemma_first(reply: SetupReply, later: Seq<SetupReply>)
    ensures
        #![trigger (seq![reply] + later)]
        (seq![reply] + later).len() > 0,
        (seq![reply] + later)[0] == reply,
        (seq![reply] + later).skip(1) == later,
{
    assert((seq![reply] + later).skip(1) =~= later);
}

fn misfit() -> (step: SetupStep)
    ensures
        step matches SetupStep::Done(Err(why)) && why@ == "Reply does not fit the operation"@,
{
    SetupStep::Done(Err("Reply does not fit the operation".to_string()))
}

/// Where to clone a repository from: what is configured first, then what the environment says.
pub fn clone_source(configured_uri: &Option<String>, variable: &Option<String>) -> (url: Option<
    String,
>)
    ensures
        url == crate::config::first_of(*configured_uri, *variable),
{
    match (configured_uri, variable) {
        (Some(uri), _) => Some(uri.clone()),
        (None, Some(uri)) => Some(uri.clone()),
        (None, None) => None,
    }
}

/// Makes sure that the repository at the given path is there.
pub fn ensure_repository_exists(repo_path: &str, url: Option<String>) -> (step: SetupStep)
    ensures
        keeps_to(
            |h: Seq<SetupReply>| ensure_script(repo_path@, option_view(url), h),
            step,
        ),
{
    SetupStep::Ask(
        SetupRun::Exists { repo_path: repo_path.to_string(), url },
        SetupOp::Exists { path: repo_path.to_string() },
    )
}

impl SetupRun {
    /// What is done from here on, given the replies to come.
    pub open spec fn script(self, h: Seq<SetupReply>) -> SetupNext {
        match self {
            SetupRun::Exists { repo_path, url } => ensure_script(repo_path@, option_view(url), h),
            SetupRun::Existing { repo_path } => existing_script(repo_path@, h),
            SetupRun::Parent { repo_path, url, parent } => parent_script(
                repo_path@,
                url@,
                parent@,
                h,
            ),
            SetupRun::Clone { repo_path, url } => clone_script(repo_path@, url@, h),
            SetupRun::Head { repo_path } => head_script(repo_path@, h),
            SetupRun::PushRemote { repo_path, branch } => push_remote_script(
                repo_path@,
                branch@,
                h,
            ),
        }
    }

    /// Goes on with the reply to the operation that was asked for.
    pub fn resume(self, reply: SetupReply) -> (step: SetupStep)
        ensures
            keeps_to(|h: Seq<SetupReply>| self.script(seq![reply] + h), step),
    {
        broadcast use lemma_first;

        match self {
            SetupRun::Exists { repo_path, url } => match reply {
                SetupReply::Flag(true) => {
                    let op: SetupOp = SetupOp::Exists {
                        path: path::join(repo_path.as_str(), ".git"),
                    };
                    SetupStep::Ask(SetupRun::Existing { repo_path }, op)
                },
                SetupReply::Flag(false) => match url {
                    Some(url) => Self::absent(repo_path, url),
                    None => SetupStep::Done(
                        Err(
                            "Directory ".to_string().concat(
                                text::quote(repo_path.as_str()).as_str(),
                            ).concat(
                                " does not exist. Configure its uri or set GIT_SYNC_REPOSITORY to clone it.",
                            ),
                        ),
                    ),
                },
                _ => misfit(),
            },
            SetupRun::Existing { repo_path } => match reply {
                SetupReply::Flag(true) => SetupStep::Done(Ok(())),
                SetupReply::Flag(false) => SetupStep::Done(
                    Err(
                        "Directory ".to_string().concat(
                            text::quote(repo_path.as_str()).as_str(),
                        ).concat(" exists but is not a git repository"),
                    ),
                ),
                _ => misfit(),
            },
            SetupRun::Parent { repo_path, url, .. } => match reply {
                SetupReply::Done(Ok(_)) => {
                    let op: SetupOp = SetupOp::Clone { url: url.clone(), path: repo_path.clone() };
                    SetupStep::Ask(SetupRun::Clone { repo_path, url }, op)
                },
                SetupReply::Done(Err(why)) => SetupStep::Done(Err(why)),
                _ => misfit(),
            },
            SetupRun::Clone { repo_path, .. } => match reply {
                SetupReply::Output(Ok(output)) => if output.success {
                    let op: SetupOp = SetupOp::SymbolicHead { path: repo_path.clone() };
                    SetupStep::Ask(SetupRun::Head { repo_path }, op)
                } else {
                    let stderr: String = text::decode_lossily(&output.stderr);
                    SetupStep::Done(
                        Err("Failed to clone repository: ".to_string().concat(stderr.as_str())),
                    )
                },
                SetupReply::Output(Err(why)) => SetupStep::Done(Err(why)),
                _ => misfit(),
            },
            SetupRun::Head { repo_path } => match reply {
                SetupReply::Output(Ok(output)) => if output.success {
                    let stdout: String = text::decode_lossily(&output.stdout);
                    let branch: String = last_piece(text::trim(stdout.as_str()).as_str());
                    let op: SetupOp = SetupOp::AddConfig {
                        path: repo_path.clone(),
                        key: "branch.".to_string().concat(branch.as_str()).concat(".pushRemote"),
                        value: "origin".to_string(),
                    };
                    SetupStep::Ask(SetupRun::PushRemote { repo_path, branch }, op)
                } else {
                    SetupStep::Done(Ok(()))
                },
                SetupReply::Output(Err(why)) => SetupStep::Done(Err(why)),
                _ => misfit(),
            },
            SetupRun::PushRemote { .. } => match reply {
                SetupReply::Output(Ok(_)) => SetupStep::Done(Ok(())),
                SetupReply::Output(Err(why)) => SetupStep::Done(Err(why)),
                _ => misfit(),
            },
        }
    }

    fn absent(repo_path: String, url: String) -> (step: SetupStep)
        ensures
            keeps_to(|h: Seq<SetupReply>| absent_script(repo_path@, url@, h), step),
            step is Ask,
    {
        match path::parent(repo_path.as_str()) {
            Some(parent) => {
                let op: SetupOp = SetupOp::MakeDirectories { path: parent.clone() };
                SetupStep::Ask(SetupRun::Parent { repo_path, url, parent }, op)
            },
            None => {
                let op: SetupOp = SetupOp::Clone { url: url.clone(), path: repo_path.clone() };
                SetupStep::Ask(SetupRun::Clone { repo_path, url }, op)
            },
        }
    }
}

/// What follows the last slash of a text.
fn last_piece(s: &str) -> (piece: String)
    ensures
        piece@ == text::pieces(s@, '/').last(),
{
    let pieces: Vec<String> = text::split(s, '/');
    assert(text::pieces(s@, '/').last() == text::views(pieces@)[pieces@.len() - 1]);
    pieces[pieces.len() - 1].clone()
}

/// Nothing is created or cloned where there is something at the path.
pub proof fn what_is_there_is_left_alone(
    repo_path: Seq<char>,
    url: Option<Seq<char>>,
    h: Seq<SetupReply>,
)
    requires
        h.len() > 0,
        h[0] == SetupReply::Flag(true),
    ensures
        ensure_script(repo_path, url, h) matches SetupNext::Ask(op) ==> op is Exists,
        ensure_script(repo_path, None, h) == ensure_script(repo_path, url, h),
{
}

/// A reply, and those that come later.
pub open spec fn upon(reply: SetupReply, later: Seq<SetupReply>) -> Seq<SetupReply> {
    seq![reply] + later
}

broadcast proof fn lemma_upon(reply: SetupReply, later: Seq<SetupReply>)
    ensures
        #![trigger upon(reply, later)]
        upon(reply, later).len() > 0,
        upon(reply, later)[0] == reply,
        upon(reply, later).skip(1) == later,
{
    assert(upon(reply, later).skip(1) =~= later);
}

/// Something that is there is a repository where it has git's own directory in it; where it has
/// not, or where there is nothing and it is not known where to clone it from, the error says so.
pub proof fn repositories_are_recognized(
    repo_path: Seq<char>,
    url: Option<Seq<char>>,
    later: Seq<SetupReply>,
)
    requires
        repo_path.len() > 0,
        repo_path.last() != '/',
    ensures
        ({
            let there = SetupReply::Flag(true);
            let missing = SetupReply::Flag(false);
            &&& ensure_script(repo_path, url, Seq::empty()) == SetupNext::Ask(
                SetupOp::Exists { path: repo_path },
            )
            &&& ensure_script(repo_path, url, upon(there, Seq::empty())) == SetupNext::Ask(
                SetupOp::Exists { path: repo_path + seq!['/'] + ".git"@ },
            )
            &&& ensure_script(repo_path, url, upon(there, upon(there, later))) == SetupNext::Done(
                Ok(()),
            )
            &&& ensure_script(repo_path, url, upon(there, upon(missing, later)))
                == SetupNext::Done(
                Err(
                    "Directory "@ + text::debug_quoted(repo_path)
                        + " exists but is not a git repository"@,
                ),
            )
            &&& ensure_script(repo_path, None, upon(missing, later)) == SetupNext::Done(
                Err(
                    "Directory "@ + text::debug_quoted(repo_path)
                        + " does not exist. Configure its uri or set GIT_SYNC_REPOSITORY to clone it."@,
                ),
            )
        }),
{
    broadcast use lemma_upon;

    reveal_strlit(".git");
    paths_are_put_below_directories(repo_path, ".git"@);
}

/// A repository that is not there is cloned from where it is said to be, to where it should be,
/// once the directory above it is there; where either fails, so does the setup. The branch that it
/// then is on is set to be pushed to `origin`; without one that is all.
pub proof fn missing_repositories_are_cloned(
    base: Seq<char>,
    name: Seq<char>,
    url: Seq<char>,
    made: CommandOutput,
    head: CommandOutput,
    set: CommandOutput,
    why: String,
    above: Seq<char>,
    branch: Seq<char>,
    later: Seq<SetupReply>,
)
    requires
        base.len() > 0,
        fit_for_a_name(name),
        made.success,
        text::trimmed(text::lossily_decoded(head.stdout@)) == above + seq!['/'] + branch,
        lacks(branch, '/'),
    ensures
        ({
            let path = base + seq!['/'] + name;
            let script = |h: Seq<SetupReply>|
                ensure_script(path, Some(url), upon(SetupReply::Flag(false), h));
            let done = SetupReply::Done(Ok(()));
            let cloned = |h: Seq<SetupReply>|
                script(upon(done, upon(SetupReply::Output(Ok(made)), h)));
            &&& script(Seq::empty()) matches SetupNext::Ask(SetupOp::MakeDirectories { path: p })
                && path::same_place(p, base)
            &&& script(upon(SetupReply::Done(Err(why)), later)) == SetupNext::Done(Err(why@))
            &&& script(upon(done, Seq::empty())) == SetupNext::Ask(SetupOp::Clone { url, path })
            &&& script(upon(done, upon(SetupReply::Output(Err(why)), later))) == SetupNext::Done(
                Err(why@),
            )
            &&& cloned(Seq::empty()) == SetupNext::Ask(SetupOp::SymbolicHead { path })
            &&& head.success ==> cloned(upon(SetupReply::Output(Ok(head)), Seq::empty()))
                == SetupNext::Ask(
                SetupOp::AddConfig {
                    path,
                    key: "branch."@ + branch + ".pushRemote"@,
                    value: "origin"@,
                },
            )
            &&& head.success ==> cloned(
                upon(SetupReply::Output(Ok(head)), upon(SetupReply::Output(Ok(set)), later)),
            ) == SetupNext::Done(Ok(()))
            &&& !head.success ==> cloned(upon(SetupReply::Output(Ok(head)), later))
                == SetupNext::Done(Ok(()))
        }),
{
    broadcast use lemma_upon;

    directories_are_above_what_is_in_them(base, name);
    pieces_are_parted_by_the_separator(above, branch, '/');
    pieces_are_parted_by_the_separator(branch, branch, '/');
    let all = text::pieces(above, '/') + seq![branch];
    assert(all.last() == branch);
}

/// A clone that fails says what git wrote.
pub proof fn failed_clones_say_why(
    base: Seq<char>,
    name: Seq<char>,
    url: Seq<char>,
    output: CommandOutput,
    later: Seq<SetupReply>,
)
    requires
        base.len() > 0,
        fit_for_a_name(name),
        !output.success,
    ensures
        ensure_script(
            base + seq!['/'] + name,
            Some(url),
            upon(
                SetupReply::Flag(false),
                upon(SetupReply::Done(Ok(())), upon(SetupReply::Output(Ok(output)), later)),
            ),
        ) == SetupNext::Done(
            Err("Failed to clone repository: "@ + text::lossily_decoded(output.stderr@)),
        ),
{
    broadcast use lemma_upon;

    directories_are_above_what_is_in_them(base, name);
}

} // verus!
