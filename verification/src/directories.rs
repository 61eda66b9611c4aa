//! Where the application keeps its files.

use vstd::prelude::*;

verus! {

/// The directories of an application, each where its path is Unicode.
#[derive(Debug)]
pub struct Directories {
    /// The name of the application
    pub application: String,
    /// For configurations
    pub config: Option<String>,
    /// For states, where the machine has such a directory
    pub state: Option<Option<String>>,
    /// For other data that stays on this machine
    pub data_local: Option<String>,
}

/// `ProjectDirs::from` of `directories`, for an application without qualifier and organization,
/// and what `config_dir`, `state_dir` and `data_local_dir` say of it. Where the directories are is
/// up to the machine, so nothing is claimed of them but whose they are.
#[verifier::external_body]
fn directories_of(application: &str) -> (found: Option<Directories>)
    ensures
        found matches Some(d) ==> d.application@ == application@,
{
    let dirs = directories::ProjectDirs::from("", "", application)?;
    Some(Directories {
        application: application.to_string(),
        config: dirs.config_dir().to_str().map(String::from),
        state: dirs.state_dir().map(|dir| dir.to_str().map(String::from)),
        data_local: dirs.data_local_dir().to_str().map(String::from),
    })
}

/// Whether these are directories of this application, if there are any.
pub open spec fn our_own(found: Option<Directories>) -> bool {
    found matches Some(d) ==> d.application@ == "git-sync-rs"@
}

/// The directories of this application, as far as the machine has them.
pub fn own_directories() -> (found: Option<Directories>)
    ensures
        our_own(found),
{
    directories_of("git-sync-rs")
}

/// The directories are those of `git-sync-rs`.
pub proof fn directories_are_our_own(found: Directories)
    ensures
        our_own(Some(found)) <==> found.application@ == "git-sync-rs"@,
        our_own(None),
{
}

} // verus!
