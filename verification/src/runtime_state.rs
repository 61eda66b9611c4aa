//! Which repositories the user has suspended, kept from one run to the next.

use crate::directories::{our_own, own_directories, Directories};
use crate::error::SyncError;
use crate::path;
use crate::path_laws::{directories_are_above_what_is_in_them, fit_for_a_name};
use crate::path_set::{
    ascending, gathered, gathering_keeps_places, gathering_keeps_what_is_in_order, has_place,
    inserted,
    insertions_add_a_place, places, removals_take_a_place, removals_undo_insertions, removed,
    PathSet,
};
use crate::sync::step::{attempt, attempt_text, Attempt};
use crate::text;
use crate::text::str_view;
use vstd::prelude::*;
use vstd::string::*;

verus! {

/// What was found where the state is kept.
#[derive(Debug)]
pub enum Stored {
    /// No file
    Absent,
    /// A file that could not be read, and why
    Unreadable(String),
    /// A file that holds something else, and what is wrong with it
    Malformed(String),
    /// The repositories that are suspended
    Suspended(Vec<String>),
}

/// One operation on files. The parameters are the representation of texts and of lists of them.
#[derive(Debug)]
pub enum FileOp<S = String, L = Vec<String>> {
    /// Create a directory, and those above it
    MakeDirectories { path: S },
    /// Write the suspended repositories down as a text
    Serialize { repositories: L },
    /// Create a file that does not exist yet
    CreateNew { path: S },
    /// Write a text to a file
    Write { path: S, contents: S },
    /// Make sure that a file is on disk
    Flush { path: S },
    /// Rename a file, in place of another
    Rename { from: S, to: S },
    /// Remove a file
    Remove { path: S },
}

/// An operation as contracts state it.
pub type FileOpModel = FileOp<Seq<char>, Seq<Seq<char>>>;

impl View for FileOp {
    type V = FileOpModel;

    open spec fn view(&self) -> FileOpModel {
        match self {
            FileOp::MakeDirectories { path } => FileOp::MakeDirectories { path: path@ },
            FileOp::Serialize { repositories } => FileOp::Serialize {
                repositories: text::views(repositories@),
            },
            FileOp::CreateNew { path } => FileOp::CreateNew { path: path@ },
            FileOp::Write { path, contents } => FileOp::Write { path: path@, contents: contents@ },
            FileOp::Flush { path } => FileOp::Flush { path: path@ },
            FileOp::Rename { from, to } => FileOp::Rename { from: from@, to: to@ },
            FileOp::Remove { path } => FileOp::Remove { path: path@ },
        }
    }
}

/// The reply to an operation: for texts the text, for others an empty one; or why it failed.
pub type FileReply = Result<String, String>;

/// Where the state is kept: in the directory for states, or else for local data.
pub open spec fn state_file(directory: Seq<char>) -> Seq<char> {
    path::joined_paths(directory, "state.toml"@)
}

/// The path under which a repository is kept: where links lead, if that is known.
pub open spec fn key_of(repo_path: Seq<char>, canonical: Option<Seq<char>>) -> Seq<char> {
    match canonical {
        Some(canonical) => canonical,
        None => repo_path,
    }
}

/// The path under which a repository is kept: where links lead, if that is known.
pub fn repository_key(repo_path: &str, canonical: Option<&str>) -> (key: String)
    ensures
        key@ == key_of(repo_path@, str_view(canonical)),
{
    match canonical {
        Some(canonical) => canonical.to_string(),
        None => repo_path.to_string(),
    }
}

/// Which repositories are suspended, and where that is kept.
#[derive(Debug)]
pub struct SuspensionStore {
    pub path: String,
    pub suspended_repositories: PathSet,
}

/// A store as contracts state it: the file, and the suspended repositories.
pub struct StoreModel {
    pub path: Seq<char>,
    pub suspended: Seq<Seq<char>>,
}

impl StoreModel {
    /// Whether a repository is suspended.
    pub open spec fn suspends(self, key: Seq<char>) -> bool {
        has_place(self.suspended, path::components_of(key))
    }
}

impl View for SuspensionStore {
    type V = StoreModel;

    open spec fn view(&self) -> StoreModel {
        StoreModel { path: self.path@, suspended: self.suspended_repositories@ }
    }
}

/// What is done where a repository is suspended or resumed that was not.
#[derive(Debug)]
pub enum StoreStep {
    /// Perform the operation, and resume with the reply
    Ask(StoreRun, FileOp),
    Done(SuspensionStore, Result<(), SyncError>),
}

/// The name of the file that is written first: next to the file, hidden, and different for every
/// process and every time.
pub open spec fn temporary_name(name: Seq<char>, process: u32, serial: u64) -> Seq<char> {
    "."@ + name + ".tmp-"@ + text::decimal(process as nat) + "-"@ + text::decimal(serial as nat)
}

/// The file that is written first.
pub open spec fn temporary_path(path: Seq<char>, process: u32, serial: u64) -> Seq<char> {
    let name = match path::name_of(path) {
        Some(name) => name,
        None => "state.toml"@,
    };
    let directory = match path::parent_of(path) {
        Some(directory) => directory,
        None => Seq::empty(),
    };
    path::joined_paths(directory, temporary_name(name, process, serial))
}

/// A change that is being written down.
#[derive(Debug)]
pub struct Change {
    /// The state with the change
    pub store: SuspensionStore,
    pub key: String,
    /// Whether the repository was suspended before
    pub was_suspended: bool,
    pub directory: String,
    pub temporary: String,
}

/// How far the writing has come.
#[derive(Debug)]
pub enum StoreRun {
    MakeDirectories(Change),
    Serialize(Change),
    CreateNew { change: Change, contents: String },
    Write { change: Change, contents: String },
    Flush(Change),
    Rename(Change),
    /// Writing failed; what there is of the temporary file is removed
    Remove { change: Change, why: String },
}

impl Change {
    pub open spec fn wf(self) -> bool {
        &&& self.store.suspended_repositories.wf()
        &&& self.store@.suspends(self.key@) == !self.was_suspended
    }

    /// The store once the change is undone.
    pub open spec fn before(self) -> StoreModel {
        with_suspension(self.store@, self.key@, self.was_suspended)
    }
}

/// What comes next.
pub enum Next {
    Ask(FileOpModel),
    Done(StoreModel, Attempt<()>),
}

/// Where the state is written to, and what the store is with the change, and once it is undone.
pub struct Plan {
    pub before: StoreModel,
    pub after: StoreModel,
    pub directory: Seq<char>,
    pub temporary: Seq<char>,
}

impl Change {
    pub open spec fn plan(self) -> Plan {
        Plan {
            before: self.before(),
            after: self.store@,
            directory: self.directory@,
            temporary: self.temporary@,
        }
    }
}

/// The end of a change that could not be written down: everything is as it was.
pub open spec fn undone(p: Plan, e: SyncError<Seq<char>>) -> Next {
    Next::Done(p.before, Err(e))
}

/// Writes the state down: to a new file first, which takes the place of the old one once all of
/// it is on disk. Where anything fails, the new file is removed and the change undone.
pub open spec fn save_script(p: Plan, h: Seq<FileReply>) -> Next {
    if h.len() == 0 {
        Next::Ask(FileOp::MakeDirectories { path: p.directory })
    } else {
        match h[0] {
            Ok(_) => serialize_script(p, h.skip(1)),
            Err(why) => undone(p, SyncError::IoError(why@)),
        }
    }
}

pub open spec fn serialize_script(p: Plan, h: Seq<FileReply>) -> Next {
    if h.len() == 0 {
        Next::Ask(FileOp::Serialize { repositories: p.after.suspended })
    } else {
        match h[0] {
            Ok(contents) => create_script(p, contents@, h.skip(1)),
            Err(why) => undone(
                p,
                SyncError::Other("Failed to serialize runtime state: "@ + why@),
            ),
        }
    }
}

pub open spec fn create_script(p: Plan, contents: Seq<char>, h: Seq<FileReply>) -> Next {
    if h.len() == 0 {
        Next::Ask(FileOp::CreateNew { path: p.temporary })
    } else {
        match h[0] {
            Ok(_) => write_script(p, contents, h.skip(1)),
            Err(why) => remove_script(p, why@, h.skip(1)),
        }
    }
}

pub open spec fn write_script(p: Plan, contents: Seq<char>, h: Seq<FileReply>) -> Next {
    if h.len() == 0 {
        Next::Ask(FileOp::Write { path: p.temporary, contents })
    } else {
        match h[0] {
            Ok(_) => flush_script(p, h.skip(1)),
            Err(why) => remove_script(p, why@, h.skip(1)),
        }
    }
}

pub open spec fn flush_script(p: Plan, h: Seq<FileReply>) -> Next {
    if h.len() == 0 {
        Next::Ask(FileOp::Flush { path: p.temporary })
    } else {
        match h[0] {
            Ok(_) => rename_script(p, h.skip(1)),
            Err(why) => remove_script(p, why@, h.skip(1)),
        }
    }
}

pub open spec fn rename_script(p: Plan, h: Seq<FileReply>) -> Next {
    if h.len() == 0 {
        Next::Ask(FileOp::Rename { from: p.temporary, to: p.after.path })
    } else {
        match h[0] {
            Ok(_) => Next::Done(p.after, Ok(())),
            Err(why) => remove_script(p, why@, h.skip(1)),
        }
    }
}

pub open spec fn remove_script(p: Plan, why: Seq<char>, h: Seq<FileReply>) -> Next {
    if h.len() == 0 {
        Next::Ask(FileOp::Remove { path: p.temporary })
    } else {
        undone(p, SyncError::IoError(why))
    }
}

impl StoreRun {
    pub open spec fn change(self) -> Change {
        match self {
            StoreRun::MakeDirectories(change) => change,
            StoreRun::Serialize(change) => change,
            StoreRun::CreateNew { change, .. } => change,
            StoreRun::Write { change, .. } => change,
            StoreRun::Flush(change) => change,
            StoreRun::Rename(change) => change,
            StoreRun::Remove { change, .. } => change,
        }
    }

    /// What the writing does from here on, given the replies to come.
    pub open spec fn script(self, h: Seq<FileReply>) -> Next {
        let p = self.change().plan();
        match self {
            StoreRun::MakeDirectories(_) => save_script(p, h),
            StoreRun::Serialize(_) => serialize_script(p, h),
            StoreRun::CreateNew { contents, .. } => create_script(p, contents@, h),
            StoreRun::Write { contents, .. } => write_script(p, contents@, h),
            StoreRun::Flush(_) => flush_script(p, h),
            StoreRun::Rename(_) => rename_script(p, h),
            StoreRun::Remove { why, .. } => remove_script(p, why@, h),
        }
    }
}

/// Whether a step does what a script says.
pub open spec fn keeps_to(script: spec_fn(Seq<FileReply>) -> Next, step: StoreStep) -> bool {
    match step {
        StoreStep::Ask(run, op) => {
            &&& run.change().wf()
            &&& script(Seq::empty()) == Next::Ask(op@)
            &&& forall|h: Seq<FileReply>| #[trigger] run.script(h) == script(h)
        },
        StoreStep::Done(store, r) => {
            &&& store.suspended_repositories.wf()
            &&& forall|h: Seq<FileReply>| #[trigger]
                script(h) == Next::Done(store@, attempt(r))
        },
    }
}

broadcast proof fn lemma_first(reply: FileReply, later: Seq<FileReply>)
    ensures
        #![trigger (seq![reply] + later)]
        (seq![reply] + later).len() > 0,
        (seq![reply] + later)[0] == reply,
        (seq![reply] + later).skip(1) == later,
{
    assert((seq![reply] + later).skip(1) =~= later);
}

impl Change {
    /// The store before the change.
    fn undo(self) -> (store: SuspensionStore)
        requires
            self.wf(),
        ensures
            store@ == self.before(),
            store.suspended_repositories.wf(),
    {
        let mut store: SuspensionStore = self.store;
        if self.was_suspended {
            store.suspended_repositories.insert(self.key.as_str());
        } else {
            store.suspended_repositories.remove(self.key.as_str());
        }
        store
    }
}

impl StoreRun {
    /// Goes on with the reply to the operation that was asked for.
    pub fn resume(self, reply: FileReply) -> (step: StoreStep)
        requires
            self.change().wf(),
        ensures
            keeps_to(|h: Seq<FileReply>| self.script(seq![reply] + h), step),
    {
        broadcast use lemma_first;

        match self {
            StoreRun::MakeDirectories(change) => match reply {
                Ok(_) => {
                    let op: FileOp = FileOp::Serialize {
                        repositories: text::copy_list(&change.store.suspended_repositories.paths),
                    };
                    StoreStep::Ask(StoreRun::Serialize(change), op)
                },
                Err(why) => StoreStep::Done(change.undo(), Err(SyncError::IoError(why))),
            },
            StoreRun::Serialize(change) => match reply {
                Ok(contents) => {
                    let op: FileOp = FileOp::CreateNew { path: change.temporary.clone() };
                    StoreStep::Ask(StoreRun::CreateNew { change, contents }, op)
                },
                Err(why) => StoreStep::Done(
                    change.undo(),
                    Err(
                        SyncError::Other(
                            "Failed to serialize runtime state: ".to_string().concat(why.as_str()),
                        ),
                    ),
                ),
            },
            StoreRun::CreateNew { change, contents } => match reply {
                Ok(_) => {
                    let op: FileOp = FileOp::Write {
                        path: change.temporary.clone(),
                        contents: contents.clone(),
                    };
                    StoreStep::Ask(StoreRun::Write { change, contents }, op)
                },
                Err(why) => {
                    let op: FileOp = FileOp::Remove { path: change.temporary.clone() };
                    StoreStep::Ask(StoreRun::Remove { change, why }, op)
                },
            },
            StoreRun::Write { change, contents } => match reply {
                Ok(_) => {
                    let op: FileOp = FileOp::Flush { path: change.temporary.clone() };
                    StoreStep::Ask(StoreRun::Flush(change), op)
                },
                Err(why) => {
                    let op: FileOp = FileOp::Remove { path: change.temporary.clone() };
                    StoreStep::Ask(StoreRun::Remove { change, why }, op)
                },
            },
            StoreRun::Flush(change) => match reply {
                Ok(_) => {
                    let op: FileOp = FileOp::Rename {
                        from: change.temporary.clone(),
                        to: change.store.path.clone(),
                    };
                    StoreStep::Ask(StoreRun::Rename(change), op)
                },
                Err(why) => {
                    let op: FileOp = FileOp::Remove { path: change.temporary.clone() };
                    StoreStep::Ask(StoreRun::Remove { change, why }, op)
                },
            },
            StoreRun::Rename(change) => match reply {
                Ok(_) => StoreStep::Done(change.store, Ok(())),
                Err(why) => {
                    let op: FileOp = FileOp::Remove { path: change.temporary.clone() };
                    StoreStep::Ask(StoreRun::Remove { change, why }, op)
                },
            },
            StoreRun::Remove { change, why } => {
                StoreStep::Done(change.undo(), Err(SyncError::IoError(why)))
            },
        }
    }
}

/// The store with a repository suspended or not.
pub open spec fn with_suspension(s: StoreModel, key: Seq<char>, suspended: bool) -> StoreModel {
    StoreModel {
        suspended: if suspended {
            inserted(s.suspended, key)
        } else {
            removed(s.suspended, key)
        },
        ..s
    }
}

/// The store once a change is undone: the repository is suspended again, or not any more.
pub open spec fn put_back(s: StoreModel, key: Seq<char>, suspended: bool) -> StoreModel {
    with_suspension(with_suspension(s, key, suspended), key, !suspended)
}

/// Suspends or resumes a repository: nothing is done where that is how it is already, and the
/// change is undone where it cannot be written down.
pub open spec fn set_script(
    s: StoreModel,
    key: Seq<char>,
    suspended: bool,
    process: u32,
    serial: u64,
    h: Seq<FileReply>,
) -> Next {
    if s.suspends(key) == suspended {
        Next::Done(s, Ok(()))
    } else {
        match path::parent_of(s.path) {
            None => Next::Done(
                put_back(s, key, suspended),
                Err(SyncError::Other("Runtime state path has no parent: "@ + s.path)),
            ),
            Some(directory) => save_script(
                Plan {
                    before: put_back(s, key, suspended),
                    after: with_suspension(s, key, suspended),
                    directory,
                    temporary: temporary_path(s.path, process, serial),
                },
                h,
            ),
        }
    }
}

impl SuspensionStore {
    /// The store in its usual place, with what was found there.
    pub fn load_default(stored: Stored) -> (r: Result<SuspensionStore, SyncError>)
        ensures
            exists|found: Option<Directories>|
                our_own(found) && match (#[trigger] state_path_of(found), r) {
                    (Ok(path), Ok(store)) => store.suspended_repositories.wf() && loaded(
                        path,
                        stored,
                    ) == Ok::<StoreModel, SyncError<Seq<char>>>(store@),
                    (Ok(path), Err(e)) => loaded(path, stored) == Err::<
                        StoreModel,
                        SyncError<Seq<char>>,
                    >(e@),
                    (Err(why), Err(e)) => e@ == why,
                    _ => false,
                },
    {
        match Self::default_path() {
            Ok(path) => Self::load(path, stored),
            Err(e) => Err(e),
        }
    }

    /// The store in the given file, with what was found there.
    pub fn load(path: String, stored: Stored) -> (r: Result<SuspensionStore, SyncError>)
        ensures
            match r {
                Ok(store) => store.suspended_repositories.wf() && loaded(path@, stored) == Ok::<
                    StoreModel,
                    SyncError<Seq<char>>,
                >(store@),
                Err(e) => loaded(path@, stored) == Err::<StoreModel, SyncError<Seq<char>>>(e@),
            },
    {
        match stored {
            Stored::Absent => Ok(
                SuspensionStore { path, suspended_repositories: PathSet::new() },
            ),
            Stored::Unreadable(why) => Err(SyncError::IoError(why)),
            Stored::Malformed(why) => Err(
                SyncError::Other(
                    "Failed to parse runtime state at ".to_string().concat(path.as_str()).concat(
                        ": ",
                    ).concat(why.as_str()),
                ),
            ),
            Stored::Suspended(paths) => Ok(
                SuspensionStore { path, suspended_repositories: PathSet::of(&paths) },
            ),
        }
    }

    /// Where the store usually is.
    pub fn default_path() -> (r: Result<String, SyncError>)
        ensures
            exists|found: Option<Directories>|
                our_own(found) && attempt_text(r) == #[trigger] state_path_of(found),
    {
        let found: Option<Directories> = own_directories();
        let ghost seen = found;
        let r: Result<String, SyncError> = Self::state_path(found);
        assert(our_own(seen) && attempt_text(r) == state_path_of(seen));
        r
    }

    /// Where the store is in the given directories: in that for states, where there is one.
    pub fn state_path(found: Option<Directories>) -> (r: Result<String, SyncError>)
        ensures
            attempt_text(r) == state_path_of(found),
    {
        let directory: Option<String> = match found {
            Some(directories) => match directories.state {
                Some(state) => state,
                None => directories.data_local,
            },
            None => None,
        };
        match directory {
            Some(directory) => Ok(path::join(directory.as_str(), "state.toml")),
            None => Err(
                SyncError::Other("Could not determine git-sync-rs state directory".to_string()),
            ),
        }
    }

    /// Whether a repository is suspended.
    pub fn is_suspended(&self, repo_path: &str, canonical: Option<&str>) -> (suspended: bool)
        requires
            self.suspended_repositories.wf(),
        ensures
            suspended == self@.suspends(key_of(repo_path@, str_view(canonical))),
    {
        let key: String = repository_key(repo_path, canonical);
        self.suspended_repositories.contains(key.as_str())
    }

    /// Suspends or resumes a repository. The process and the serial number keep the file that is
    /// written first apart from others.
    pub fn set_suspended(
        self,
        repo_path: &str,
        canonical: Option<&str>,
        suspended: bool,
        process: u32,
        serial: u64,
    ) -> (step: StoreStep)
        requires
            self.suspended_repositories.wf(),
        ensures
            keeps_to(
                |h: Seq<FileReply>|
                    set_script(
                        self@,
                        key_of(repo_path@, str_view(canonical)),
                        suspended,
                        process,
                        serial,
                        h,
                    ),
                step,
            ),
    {
        let key: String = repository_key(repo_path, canonical);
        let ghost before = self@;
        let was_suspended: bool = self.suspended_repositories.contains(key.as_str());
        if was_suspended == suspended {
            return StoreStep::Done(self, Ok(()));
        }
        proof {
            changes_show(before, key@, suspended);
        }
        let directory: String = match path::parent(self.path.as_str()) {
            Some(directory) => directory,
            None => {
                let e: SyncError = SyncError::Other(
                    "Runtime state path has no parent: ".to_string().concat(self.path.as_str()),
                );
                let mut store: SuspensionStore = self;
                if suspended {
                    store.suspended_repositories.insert(key.as_str());
                    store.suspended_repositories.remove(key.as_str());
                } else {
                    store.suspended_repositories.remove(key.as_str());
                    store.suspended_repositories.insert(key.as_str());
                }
                return StoreStep::Done(store, Err(e));
            },
        };
        let name: String = match path::file_name(self.path.as_str()) {
            Some(name) => name,
            None => "state.toml".to_string(),
        };
        let temporary_name: String = ".".to_string().concat(name.as_str()).concat(".tmp-").concat(
            text::number(process as u64).as_str(),
        ).concat("-").concat(text::number(serial).as_str());
        let temporary: String = path::join(directory.as_str(), temporary_name.as_str());
        let mut store: SuspensionStore = self;
        if suspended {
            store.suspended_repositories.insert(key.as_str());
        } else {
            store.suspended_repositories.remove(key.as_str());
        }
        let op: FileOp = FileOp::MakeDirectories { path: directory.clone() };
        let change: Change = Change { store, key, was_suspended, directory, temporary };
        assert(change.store@ == with_suspension(before, key@, suspended));
        StoreStep::Ask(StoreRun::MakeDirectories(change), op)
    }

    /// The file of the store.
    pub fn path(&self) -> (path: String)
        ensures
            path@ == self@.path,
    {
        self.path.clone()
    }
}

/// The error where there is no place for the store.
pub open spec fn no_directory() -> SyncError<Seq<char>> {
    SyncError::Other("Could not determine git-sync-rs state directory"@)
}

/// The directory of the store among the given ones: that for states where the machine has such a
/// directory, or else that for local data.
pub open spec fn directory_among(d: Directories) -> Option<String> {
    match d.state {
        Some(state) => state,
        None => d.data_local,
    }
}

/// Where the store is in the given directories, if it has a place.
pub open spec fn state_path_of(found: Option<Directories>) -> Attempt<Seq<char>> {
    match found {
        Some(d) => match directory_among(d) {
            Some(directory) => Ok(state_file(directory@)),
            None => Err(no_directory()),
        },
        None => Err(no_directory()),
    }
}

/// The store in the given file, with what was found there.
pub open spec fn loaded(path: Seq<char>, stored: Stored) -> Attempt<StoreModel> {
    match stored {
        Stored::Absent => Ok(StoreModel { path, suspended: Seq::empty() }),
        Stored::Unreadable(why) => Err(SyncError::IoError(why@)),
        Stored::Malformed(why) => Err(
            SyncError::Other("Failed to parse runtime state at "@ + path + ": "@ + why@),
        ),
        Stored::Suspended(paths) => Ok(
            StoreModel { path, suspended: gathered(text::views(paths@)) },
        ),
    }
}

/// A repository that is suspended, or resumed, is so afterwards, and no other one is affected.
proof fn changes_show(s: StoreModel, key: Seq<char>, suspended: bool)
    requires
        ascending(s.suspended),
    ensures
        ascending(with_suspension(s, key, suspended).suspended),
        with_suspension(s, key, suspended).suspends(key) == suspended,
        places(with_suspension(s, key, suspended).suspended) == if suspended {
            places(s.suspended).insert(path::components_of(key))
        } else {
            places(s.suspended).remove(path::components_of(key))
        },
{
    insertions_add_a_place(s.suspended, key);
    removals_take_a_place(s.suspended, key);
    let after = with_suspension(s, key, suspended);
    let place = path::components_of(key);
    assert(places(after.suspended).contains(place) == after.suspends(key));
}

/// Suspending or resuming a repository either does so and leaves every other repository as it is,
/// or fails and leaves them all as they are. A repository that could not be resumed may be written
/// in another way from then on, as the same place.
pub proof fn suspension_is_all_or_nothing(
    s: StoreModel,
    key: Seq<char>,
    suspended: bool,
    process: u32,
    serial: u64,
    h: Seq<FileReply>,
    other: Seq<char>,
)
    requires
        ascending(s.suspended),
    ensures
        set_script(s, key, suspended, process, serial, h) matches Next::Done(after, r) ==> {
            &&& after.path == s.path
            &&& r is Err ==> places(after.suspended) == places(s.suspended)
            &&& r is Err && suspended ==> after == s
            &&& r is Ok ==> after.suspends(key) == suspended
            &&& r is Ok && !path::same_place(other, key) ==> after.suspends(other) == s.suspends(
                other,
            )
        },
{
    let changed = with_suspension(s, key, suspended);
    changes_show(s, key, suspended);
    changes_show(changed, key, !suspended);
    if s.suspends(key) != suspended {
        let place = path::components_of(key);
        assert(places(s.suspended).contains(place) == s.suspends(key));
        assert(places(put_back(s, key, suspended).suspended) =~= places(s.suspended));
        if suspended {
            removals_undo_insertions(s.suspended, key);
        }
        let elsewhere = path::components_of(other);
        assert(places(changed.suspended).contains(elsewhere) == changed.suspends(other));
        assert(places(s.suspended).contains(elsewhere) == s.suspends(other));
    }
}

/// What is written down are the suspended repositories with the change, and they are what is found
/// again.
pub proof fn suspension_survives_a_reload(
    s: StoreModel,
    key: Seq<char>,
    suspended: bool,
    process: u32,
    serial: u64,
    names: Vec<String>,
    h: Seq<FileReply>,
)
    requires
        ascending(s.suspended),
        s.suspends(key) != suspended,
        set_script(s, key, suspended, process, serial, h) matches Next::Done(_, Ok(_)),
        set_script(s, key, suspended, process, serial, h.take(1)) == Next::Ask(
            FileOp::Serialize { repositories: text::views(names@) },
        ),
    ensures
        loaded(s.path, Stored::Suspended(names)) == Ok::<StoreModel, SyncError<Seq<char>>>(
            with_suspension(s, key, suspended),
        ),
        set_script(s, key, suspended, process, serial, h) == Next::Done(
            with_suspension(s, key, suspended),
            Ok(()),
        ),
{
    assert(h.take(1)[0] == h[0]);
    assert(h.take(1).skip(1) =~= Seq::empty());
    changes_show(s, key, suspended);
    gathering_keeps_what_is_in_order(text::views(names@));
}

/// The file is never written to: it is only replaced, by one that holds all that there is to
/// write and is on disk; everything before that concerns another file.
pub proof fn the_file_is_replaced_only_when_the_new_one_is_complete(p: Plan, h: Seq<FileReply>)
    ensures
        save_script(p, h) matches Next::Ask(op) ==> match op {
            FileOp::MakeDirectories { path } => path == p.directory,
            FileOp::Serialize { repositories } => repositories == p.after.suspended,
            FileOp::CreateNew { path } => path == p.temporary,
            FileOp::Write { path, contents } => path == p.temporary && (h[1] matches Ok(text)
                && contents == text@),
            FileOp::Flush { path } => path == p.temporary,
            FileOp::Rename { from, to } => {
                &&& from == p.temporary
                &&& to == p.after.path
                &&& h.len() == 5
                &&& forall|i: int| 0 <= i < 5 ==> (#[trigger] h[i]) is Ok
            },
            FileOp::Remove { path } => path == p.temporary && h.last() is Err,
        },
{
    if let Next::Ask(op) = save_script(p, h) {
        if let FileOp::Rename { .. } = op {
            assert forall|i: int| 0 <= i < 5 implies (#[trigger] h[i]) is Ok by {
                assert(h.skip(1)[0] == h[1]);
                assert(h.skip(1).skip(1)[0] == h[2]);
                assert(h.skip(1).skip(1).skip(1)[0] == h[3]);
                assert(h.skip(1).skip(1).skip(1).skip(1)[0] == h[4]);
            }
        }
    }
}

/// A change is written down in six steps, one after the other: the directory, the contents, a new
/// file, what is in it, that it is on disk, and the new file in the place of the old one. Where all
/// of them succeed, so does the change.
pub proof fn changes_are_written_down_step_by_step(p: Plan, h: Seq<FileReply>)
    requires
        forall|i: int| 0 <= i < h.len() ==> (#[trigger] h[i]) is Ok,
    ensures
        h.len() == 0 ==> save_script(p, h) == Next::Ask(
            FileOp::MakeDirectories { path: p.directory },
        ),
        h.len() == 1 ==> save_script(p, h) == Next::Ask(
            FileOp::Serialize { repositories: p.after.suspended },
        ),
        h.len() == 2 ==> save_script(p, h) == Next::Ask(FileOp::CreateNew { path: p.temporary }),
        h.len() == 3 ==> save_script(p, h) == Next::Ask(
            FileOp::Write { path: p.temporary, contents: h[1]->Ok_0@ },
        ),
        h.len() == 4 ==> save_script(p, h) == Next::Ask(FileOp::Flush { path: p.temporary }),
        h.len() == 5 ==> save_script(p, h) == Next::Ask(
            FileOp::Rename { from: p.temporary, to: p.after.path },
        ),
        h.len() >= 6 ==> save_script(p, h) == Next::Done(p.after, Ok(())),
{
    positions(h);
}

proof fn positions(h: Seq<FileReply>)
    ensures
        h.len() >= 2 ==> h.skip(1)[0] == h[1],
        h.len() >= 3 ==> h.skip(1).skip(1)[0] == h[2],
        h.len() >= 4 ==> h.skip(1).skip(1).skip(1)[0] == h[3],
        h.len() >= 5 ==> h.skip(1).skip(1).skip(1).skip(1)[0] == h[4],
        h.len() >= 6 ==> h.skip(1).skip(1).skip(1).skip(1).skip(1)[0] == h[5],
{
}

/// Where a step fails, the change is undone and the error says why; what there may be of the new
/// file is removed first, whether or not that succeeds.
pub proof fn failed_steps_undo_the_change(p: Plan, h: Seq<FileReply>, k: int)
    requires
        0 <= k < h.len(),
        k <= 5,
        forall|i: int| 0 <= i < k ==> (#[trigger] h[i]) is Ok,
        h[k] is Err,
    ensures
        k == 0 ==> save_script(p, h) == Next::Done(p.before, Err(SyncError::IoError(h[k]->Err_0@))),
        k == 1 ==> save_script(p, h) == Next::Done(
            p.before,
            Err(SyncError::Other("Failed to serialize runtime state: "@ + h[k]->Err_0@)),
        ),
        k >= 2 && h.len() == k + 1 ==> save_script(p, h) == Next::Ask(
            FileOp::Remove { path: p.temporary },
        ),
        k >= 2 && h.len() > k + 1 ==> save_script(p, h) == Next::Done(
            p.before,
            Err(SyncError::IoError(h[k]->Err_0@)),
        ),
{
    positions(h);
    if k > 0 {
        assert(h[0] is Ok);
    }
    if k > 1 {
        assert(h[1] is Ok);
    }
    if k > 2 {
        assert(h[2] is Ok);
    }
    if k > 3 {
        assert(h[3] is Ok);
    }
    if k > 4 {
        assert(h[4] is Ok);
    }
}

/// The new file is next to the old one, hidden, and called after it, the process and the number.
pub proof fn new_files_are_next_to_old_ones(
    base: Seq<char>,
    name: Seq<char>,
    process: u32,
    serial: u64,
)
    requires
        base.len() > 0,
        fit_for_a_name(name),
    ensures
        temporary_name(name, process, serial) == "."@ + name + ".tmp-"@ + text::decimal(
            process as nat,
        ) + "-"@ + text::decimal(serial as nat),
        ({
            let file = base + seq!['/'] + name;
            let directory = path::parent_of(file)->0;
            &&& path::same_place(directory, base)
            &&& temporary_path(file, process, serial) == path::joined_paths(
                directory,
                temporary_name(name, process, serial),
            )
        }),
{
    directories_are_above_what_is_in_them(base, name);
}

/// The store is the file `state.toml` in the directory for states, or in that for local data where
/// the machine has none for states.
pub proof fn stores_have_their_place(d: Directories, directory: String)
    requires
        directory@.len() > 0,
        directory@.last() != '/',
    ensures
        d.state == Some(Some(directory)) ==> state_path_of(Some(d)) == Ok::<
            Seq<char>,
            SyncError<Seq<char>>,
        >(directory@ + "/"@ + "state.toml"@),
        d.state is None && d.data_local == Some(directory) ==> state_path_of(Some(d)) == Ok::<
            Seq<char>,
            SyncError<Seq<char>>,
        >(directory@ + "/"@ + "state.toml"@),
        state_path_of(None) is Err,
{
    reveal_strlit("state.toml");
}

/// What is found is what is suspended: each path that is listed, and nothing else; nothing where
/// there is no file; and where it cannot be read or understood, the error says so.
pub proof fn stores_hold_what_is_listed(
    path: Seq<char>,
    paths: Vec<String>,
    why: String,
    key: Seq<char>,
)
    ensures
        loaded(path, Stored::Absent) matches Ok(s) && s.path == path && !s.suspends(key),
        loaded(path, Stored::Suspended(paths)) matches Ok(s) && s.path == path && (s.suspends(key)
            <==> exists|i: int|
            0 <= i < paths@.len() && path::same_place(#[trigger] paths@[i]@, key)),
        loaded(path, Stored::Unreadable(why)) == Err::<StoreModel, SyncError<Seq<char>>>(
            SyncError::IoError(why@),
        ),
        loaded(path, Stored::Malformed(why)) == Err::<StoreModel, SyncError<Seq<char>>>(
            SyncError::Other("Failed to parse runtime state at "@ + path + ": "@ + why@),
        ),
{
    let names = text::views(paths@);
    let place = path::components_of(key);
    gathering_keeps_places(names);
    assert(places(gathered(names)).contains(place) == has_place(gathered(names), place));
    assert(places(names).contains(place) == has_place(names, place));
    if has_place(names, place) {
        let i = choose|i: int|
            0 <= i < names.len() && path::components_of(#[trigger] names[i]) == place;
        assert(names[i] == paths@[i]@);
        assert(path::same_place(paths@[i]@, key));
    }
    if exists|i: int| 0 <= i < paths@.len() && path::same_place(#[trigger] paths@[i]@, key) {
        let i = choose|i: int| 0 <= i < paths@.len() && path::same_place(#[trigger] paths@[i]@, key);
        assert(names[i] == paths@[i]@);
        assert(has_place(names, place));
    }
}

/// A repository is known by where links lead, where that is known, and by its path otherwise.
pub proof fn repositories_are_known_by_where_links_lead(path: Seq<char>, canonical: Seq<char>)
    ensures
        key_of(path, Some(canonical)) == canonical,
        key_of(path, None) == path,
{
}

/// A repository that is suspended already is not suspended again, and one that is not suspended is
/// not resumed: nothing is written. Where the file has nothing above it, nothing is written either,
/// and the error names it.
pub proof fn nothing_is_written_without_need(
    s: StoreModel,
    key: Seq<char>,
    suspended: bool,
    process: u32,
    serial: u64,
    h: Seq<FileReply>,
)
    ensures
        s.suspends(key) == suspended ==> set_script(s, key, suspended, process, serial, h)
            == Next::Done(s, Ok(())),
        s.suspends(key) != suspended && path::parent_of(s.path) is None ==> (set_script(
            s,
            key,
            suspended,
            process,
            serial,
            h,
        ) matches Next::Done(_, Err(e)) && e == SyncError::<Seq<char>>::Other(
            "Runtime state path has no parent: "@ + s.path,
        )),
        s.suspends(key) != suspended && path::parent_of(s.path) is Some ==> set_script(
            s,
            key,
            suspended,
            process,
            serial,
            Seq::empty(),
        ) == Next::Ask(FileOp::MakeDirectories { path: path::parent_of(s.path)->0 }),
{
}

/// A change that cannot be written down is undone by its opposite: a repository that could not be
/// suspended is taken out again, and one that could not be resumed is put in again, under the path
/// by which it was to be resumed.
pub proof fn changes_are_undone_by_their_opposites(s: StoreModel, key: Seq<char>)
    requires
        ascending(s.suspended),
    ensures
        put_back(s, key, true).path == s.path && put_back(s, key, false).path == s.path,
        !s.suspends(key) ==> put_back(s, key, true) == s,
        s.suspends(key) ==> put_back(s, key, false).suspended.contains(key) && places(
            put_back(s, key, false).suspended,
        ) == places(s.suspended),
{
    let place = path::components_of(key);
    if !s.suspends(key) {
        removals_undo_insertions(s.suspended, key);
    } else {
        let out = removed(s.suspended, key);
        changes_show(s, key, false);
        changes_show(with_suspension(s, key, false), key, true);
        assert(places(s.suspended).contains(place));
        assert(places(put_back(s, key, false).suspended) =~= places(s.suspended));
        crate::path_set::other_paths_are_not_touched(out, key);
        let k = choose|k: int|
            0 <= k <= out.len() && inserted(out, key) == #[trigger] out.insert(k, key);
        assert(out.insert(k, key)[k] == key);
    }
}

} // verus!
