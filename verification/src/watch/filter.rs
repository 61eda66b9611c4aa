//! Which changes of files call for a synchronization.

use crate::path;
use crate::path_laws::{
    fit_for_a_name, names_come_after_the_directory, only_what_is_inside_is_below,
};
use crate::text;
use crate::text_laws::lacks;
use vstd::prelude::*;

verus! {

/// What happened to files.
#[derive(Debug, Clone, Copy, PartialEq, Eq, Structural)]
pub enum ChangeKind {
    Create,
    Modify,
    Remove,
    /// They were read, or what happened is not known
    Other,
}

/// Something that happened to files.
#[derive(Debug, Clone)]
pub struct FileEvent {
    pub kind: ChangeKind,
    pub paths: Vec<String>,
}

/// Whether something changed.
pub open spec fn is_change(kind: ChangeKind) -> bool {
    kind == ChangeKind::Create || kind == ChangeKind::Modify || kind == ChangeKind::Remove
}

/// Whether a path is git's own.
pub open spec fn is_internal(path: Seq<char>) -> bool {
    path::components_of(path).contains(".git"@)
}

/// Whether an event calls for a synchronization of the repository at the given path: something
/// changed, none of the paths is git's own, all are inside the repository, and git ignores none
/// of them. `ignored` says for each path whether git ignores it; there is nothing where the
/// repository could not be opened.
pub open spec fn calls_for_sync(
    repo_path: Seq<char>,
    kind: ChangeKind,
    paths: Seq<Seq<char>>,
    ignored: Option<Seq<bool>>,
) -> bool {
    &&& is_change(kind)
    &&& ignored matches Some(ignored) && all_relevant(repo_path, paths, ignored)
}

/// Whether none of the paths is git's own, all are inside the repository, and git ignores none of
/// them.
pub open spec fn all_relevant(
    repo_path: Seq<char>,
    paths: Seq<Seq<char>>,
    ignored: Seq<bool>,
) -> bool {
    forall|i: int|
        0 <= i < paths.len() ==> !is_internal(#[trigger] paths[i]) && path::below(
            paths[i],
            repo_path,
        ) is Some && !ignored[i]
}

/// Tells which changes of files call for a synchronization.
pub struct EventFilter;

impl EventFilter {
    /// Whether an event calls for a synchronization of the repository at the given path.
    pub fn should_process_event(
        repo_path: &str,
        event: &FileEvent,
        ignored: &Option<Vec<bool>>,
    ) -> (r: bool)
        requires
            ignored matches Some(ignored) ==> ignored@.len() == event.paths@.len(),
        ensures
            r == calls_for_sync(
                repo_path@,
                event.kind,
                text::views(event.paths@),
                match *ignored {
                    Some(ignored) => Some(ignored@),
                    None => None,
                },
            ),
    {
        match ignored {
            None => false,
            Some(ignored) => Self::is_relevant_change(event.kind) && Self::all_count(
                repo_path,
                &event.paths,
                ignored,
            ),
        }
    }

    /// Whether none of the paths is git's own, all are inside the repository, and git ignores
    /// none of them.
    fn all_count(repo_path: &str, paths: &Vec<String>, ignored: &Vec<bool>) -> (r: bool)
        requires
            ignored@.len() == paths@.len(),
        ensures
            r == all_relevant(repo_path@, text::views(paths@), ignored@),
    {
        let ghost all = text::views(paths@);
        let mut i: usize = 0;
        while i < paths.len()
            invariant
                i <= paths@.len() == ignored@.len(),
                all == text::views(paths@),
                forall|j: int|
                    0 <= j < i ==> !is_internal(#[trigger] all[j]) && path::below(
                        all[j],
                        repo_path@,
                    ) is Some && !ignored@[j],
            decreases paths@.len() - i,
        {
            assert(all[i as int] == paths@[i as int]@);
            let path: &str = paths[i].as_str();
            if Self::is_git_internal(path) || Self::is_outside(repo_path, path) || ignored[i] {
                return false;
            }
            i = i + 1;
        }
        true
    }

    /// Whether something changed.
    pub fn is_relevant_change(kind: ChangeKind) -> (r: bool)
        ensures
            r == is_change(kind),
    {
        match kind {
            ChangeKind::Create | ChangeKind::Modify | ChangeKind::Remove => true,
            ChangeKind::Other => false,
        }
    }

    /// Whether a path is git's own.
    pub fn is_git_internal(path: &str) -> (r: bool)
        ensures
            r == is_internal(path@),
    {
        path::has_component(path, ".git")
    }

    /// Whether a path is outside the repository.
    pub fn is_outside(repo_path: &str, path: &str) -> (r: bool)
        ensures
            r == path::below(path@, repo_path@) is None,
    {
        path::strip_prefix(path, repo_path).is_none()
    }
}

/// What git does to its own files never calls for a synchronization.
pub proof fn git_does_not_wake_itself(
    repo_path: Seq<char>,
    kind: ChangeKind,
    paths: Seq<Seq<char>>,
    ignored: Option<Seq<bool>>,
    i: int,
)
    requires
        0 <= i < paths.len(),
        is_internal(paths[i]),
    ensures
        !calls_for_sync(repo_path, kind, paths, ignored),
{
}

/// Every change to files in the repository calls for a synchronization, whether they were created,
/// modified or removed, where git ignores none of them and none is git's own.
pub proof fn changes_inside_call_for_sync(
    repo_path: Seq<char>,
    kind: ChangeKind,
    names: Seq<Seq<char>>,
    paths: Seq<Seq<char>>,
    ignored: Seq<bool>,
)
    requires
        repo_path.len() > 0,
        !path::components_of(repo_path).contains(".git"@),
        kind != ChangeKind::Other,
        names.len() == paths.len() && ignored.len() == paths.len(),
        forall|i: int|
            0 <= i < paths.len() ==> #[trigger] paths[i] == repo_path + seq!['/'] + names[i]
                && fit_for_a_name(names[i]) && names[i] != ".git"@ && !ignored[i],
    ensures
        calls_for_sync(repo_path, kind, paths, Some(ignored)),
{
    assert forall|i: int| 0 <= i < paths.len() implies !is_internal(#[trigger] paths[i])
        && path::below(paths[i], repo_path) is Some && !ignored[i] by {
        let parts = path::components_of(repo_path);
        let name = names[i];
        names_come_after_the_directory(repo_path, name);
        let all = path::components_of(paths[i]);
        assert(all.take(parts.len() as int) =~= parts);
        if all.contains(".git"@) {
            let k = choose|k: int| 0 <= k < all.len() && all[k] == ".git"@;
            assert(all[k] == parts[k]);
            assert(parts.contains(".git"@));
        }
    }
}

/// Nothing else does: not what is only read, nothing in a repository that cannot be opened, and no
/// event with a path that git ignores, that is outside the repository, or that is in git's own
/// directory or is that directory.
pub proof fn nothing_else_calls_for_sync(
    repo_path: Seq<char>,
    kind: ChangeKind,
    paths: Seq<Seq<char>>,
    ignored: Seq<bool>,
    i: int,
    base: Seq<char>,
    name: Seq<char>,
    more: Seq<char>,
)
    requires
        ignored.len() == paths.len(),
    ensures
        !calls_for_sync(repo_path, ChangeKind::Other, paths, Some(ignored)),
        !calls_for_sync(repo_path, kind, paths, None),
        0 <= i < paths.len() && ignored[i] ==> !calls_for_sync(
            repo_path,
            kind,
            paths,
            Some(ignored),
        ),
        0 <= i < paths.len() && base.len() > 0 && (paths[i] == base + seq!['/'] + ".git"@ || (
        paths[i] == base + seq!['/'] + ".git"@ + seq!['/'] + name && fit_for_a_name(name)))
            ==> !calls_for_sync(repo_path, kind, paths, Some(ignored)),
        0 <= i < paths.len() && base.len() > 0 && repo_path == base + seq!['/'] + name && paths[i]
            == base + seq!['/'] + name + more && fit_for_a_name(name) && more.len() > 0
            && fit_for_a_name(name + more) ==> !calls_for_sync(
            repo_path,
            kind,
            paths,
            Some(ignored),
        ),
{
    reveal_strlit(".git");
    reveal_strlit(".");
    reveal_strlit("..");
    assert(".git"@.len() == 4);
    assert(lacks(".git"@, '/'));
    if 0 <= i < paths.len() && base.len() > 0 {
        let own = base + seq!['/'] + ".git"@;
        names_come_after_the_directory(base, ".git"@);
        let parts = path::components_of(own);
        assert(parts[parts.len() - 1] == ".git"@);
        if paths[i] == own {
            assert(is_internal(paths[i]));
        }
        if paths[i] == own + seq!['/'] + name && fit_for_a_name(name) {
            names_come_after_the_directory(own, name);
            assert(path::components_of(paths[i])[parts.len() - 1] == ".git"@);
            assert(is_internal(paths[i]));
        }
        if repo_path == base + seq!['/'] + name && paths[i] == base + seq!['/'] + name + more
            && fit_for_a_name(name) && more.len() > 0 && fit_for_a_name(name + more) {
            only_what_is_inside_is_below(base, name, name, more);
        }
    }
}

} // verus!
