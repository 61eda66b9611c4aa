//! Whether a file prevents a synchronization.

use crate::error::SyncError;
use crate::sync::step::{
    follows, git_failed, lemma_first_reply, misfit_error, unfit, Attempt, GitOp, Outcome, Procedure,
    Reply, Scripted, StatusEntry, Step,
};
use vstd::prelude::*;
use vstd::string::*;

verus! {

/// A file in a state that prevents a synchronization.
#[derive(Debug, Clone, PartialEq)]
pub enum UnhandledFileState<S = String> {
    /// The file has merge conflicts
    Conflicted { path: S },
}

impl View for UnhandledFileState {
    type V = UnhandledFileState<Seq<char>>;

    open spec fn view(&self) -> UnhandledFileState<Seq<char>> {
        match self {
            UnhandledFileState::Conflicted { path } => UnhandledFileState::Conflicted {
                path: path@,
            },
        }
    }
}

/// The flag of a file with conflicts.
pub const CONFLICTED: u32 = 32768;

/// The first file with conflicts.
pub open spec fn first_conflict(entries: Seq<StatusEntry>) -> Option<
    UnhandledFileState<Seq<char>>,
>
    decreases entries.len(),
{
    if entries.len() == 0 {
        None
    } else if entries[0].flags & CONFLICTED != 0 {
        Some(UnhandledFileState::Conflicted { path: path_or_unknown(entries[0].path) })
    } else {
        first_conflict(entries.skip(1))
    }
}

pub open spec fn path_or_unknown(path: Option<String>) -> Seq<char> {
    match path {
        Some(path) => path@,
        None => "<unknown>"@,
    }
}

/// Whether a file is in a state that prevents a synchronization.
#[verifier::opaque]
pub open spec fn unhandled_files_script(h: Seq<Reply>) -> Outcome<
    Attempt<Option<UnhandledFileState<Seq<char>>>>,
> {
    if h.len() == 0 {
        Outcome::Ask(GitOp::Statuses { untracked: true })
    } else {
        match h[0] {
            Reply::Statuses(Ok(entries)) => Outcome::Done(Ok(first_conflict(entries@)), h.skip(1)),
            Reply::Statuses(Err(e)) => git_failed(e, h.skip(1)),
            _ => unfit(h.skip(1)),
        }
    }
}

pub open spec fn unhandled_view(u: Option<UnhandledFileState>) -> Option<
    UnhandledFileState<Seq<char>>,
> {
    match u {
        Some(u) => Some(u@),
        None => None,
    }
}

/// Whether a file prevents a synchronization, under way.
#[derive(Debug)]
pub struct UnhandledRun;

impl UnhandledRun {
    /// Asks for a file in a state that prevents a synchronization.
    pub fn start() -> (step: Step<UnhandledRun, Result<Option<UnhandledFileState>, SyncError>>)
        ensures
            follows(|h: Seq<Reply>| unhandled_files_script(h), step),
            step is Ask,
    {
        proof {
            reveal(unhandled_files_script);
        }
        Step::Ask(UnhandledRun, GitOp::Statuses { untracked: true })
    }
}

impl Scripted for UnhandledRun {
    type Output = Result<Option<UnhandledFileState>, SyncError>;

    type Outline = Attempt<Option<UnhandledFileState<Seq<char>>>>;

    open spec fn outline(output: Self::Output) -> Self::Outline {
        match output {
            Ok(u) => Ok(unhandled_view(u)),
            Err(e) => Err(e@),
        }
    }

    closed spec fn script(self, h: Seq<Reply>) -> Outcome<Self::Outline> {
        unhandled_files_script(h)
    }
}

/// The first file with conflicts.
fn find_conflict(entries: &Vec<StatusEntry>) -> (r: Option<UnhandledFileState>)
    ensures
        unhandled_view(r) == first_conflict(entries@),
{
    let mut i: usize = 0;
    assert(entries@.skip(0) =~= entries@);
    while i < entries.len()
        invariant
            i <= entries@.len(),
            first_conflict(entries@) == first_conflict(entries@.skip(i as int)),
        decreases entries@.len() - i,
    {
        let entry: &StatusEntry = &entries[i];
        assert(entries@.skip(i as int)[0] == entry);
        assert(entries@.skip(i as int).skip(1) =~= entries@.skip(i + 1));
        if entry.flags & CONFLICTED != 0 {
            let path: String = match &entry.path {
                Some(path) => path.clone(),
                None => "<unknown>".to_string(),
            };
            return Some(UnhandledFileState::Conflicted { path });
        }
        i = i + 1;
    }
    None
}

impl Procedure for UnhandledRun {
    fn resume(self, reply: Reply) -> (next: Step<Self, Self::Output>) {
        broadcast use lemma_first_reply;

        proof {
            reveal(unhandled_files_script);
        }

        match reply {
            Reply::Statuses(Ok(entries)) => Step::Done(Ok(find_conflict(&entries))),
            Reply::Statuses(Err(e)) => Step::Done(Err(SyncError::GitError(e))),
            _ => Step::Done(Err(misfit_error())),
        }
    }
}

} // verus!
