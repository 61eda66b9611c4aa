//! Watching a repository and synchronizing it when it changes.

pub mod bus;
pub mod control;
pub mod control_laws;
pub mod filter;
pub mod scheduler;

use crate::clock::{local_time_of, LocalTime, LAST_SECOND};
use crate::error::{message_of, SyncError};
use crate::home;
use crate::path;
use crate::path_laws;
use crate::sync::SyncConfig;
use crate::text;
use crate::text::option_view;
use crate::tray::state::TrayStatus;
use vstd::prelude::*;
use vstd::string::*;

verus! {

/// How a repository is watched.
#[derive(Debug, Clone)]
pub struct WatchConfig {
    /// How long changes have to be at rest before they are synchronized, in milliseconds
    pub debounce_ms: u64,
    /// The shortest time between synchronizations, in milliseconds
    pub min_interval_ms: u64,
    /// Whether to synchronize at the beginning
    pub sync_on_start: bool,
    /// Whether to notice changes only, and synchronize nothing
    pub dry_run: bool,
    /// Whether to show an indicator in the system tray
    pub enable_tray: bool,
    /// The icon of the indicator: its name, or the path of a picture
    pub tray_icon: Option<String>,
    /// How often to synchronize even without changes, in milliseconds
    pub periodic_sync_interval_ms: Option<u64>,
    /// What to watch below the repository; all of it where there is nothing here
    pub watch_paths: Vec<String>,
}

impl Default for WatchConfig {
    fn default() -> (config: Self)
        ensures
            config.debounce_ms == 500,
            config.min_interval_ms == 1000,
            config.sync_on_start,
            !config.dry_run,
            !config.enable_tray,
            config.tray_icon is None,
            config.periodic_sync_interval_ms is None,
            config.watch_paths@.len() == 0,
    {
        WatchConfig {
            debounce_ms: 500,
            min_interval_ms: 1000,
            sync_on_start: true,
            dry_run: false,
            enable_tray: false,
            tray_icon: None,
            periodic_sync_interval_ms: None,
            watch_paths: Vec::new(),
        }
    }
}

/// How far the synchronizations of a repository have come. The parameter is the representation of
/// texts.
#[derive(Debug)]
pub struct Progress<S = String> {
    /// Whether a synchronization is under way
    pub is_syncing: bool,
    /// Whether the user has put synchronizations off
    pub sync_suspended: bool,
    /// When a synchronization last succeeded, in seconds since 1970; none has where this is 0
    pub last_successful_sync_unix_secs: i64,
    /// Why the last synchronization failed, if it did
    pub last_sync_error: Option<S>,
    /// Counts the changes of the above
    pub sync_state_change_seq: u64,
}

impl View for Progress {
    type V = Progress<Seq<char>>;

    open spec fn view(&self) -> Progress<Seq<char>> {
        Progress {
            is_syncing: self.is_syncing,
            sync_suspended: self.sync_suspended,
            last_successful_sync_unix_secs: self.last_successful_sync_unix_secs,
            last_sync_error: option_view(self.last_sync_error),
            sync_state_change_seq: self.sync_state_change_seq,
        }
    }
}

/// The count after one more change.
pub open spec fn next_seq(seq: u64) -> u64 {
    if seq == u64::MAX {
        0
    } else {
        (seq + 1) as u64
    }
}

/// Before the first synchronization.
pub open spec fn untouched() -> Progress<Seq<char>> {
    Progress {
        is_syncing: false,
        sync_suspended: false,
        last_successful_sync_unix_secs: 0,
        last_sync_error: None,
        sync_state_change_seq: 0,
    }
}

/// What is to be done about a synchronization that is wanted.
#[derive(Debug, Clone, Copy, PartialEq, Eq, Structural)]
pub enum SyncStart {
    /// Nothing: they are suspended, or one is under way
    Skip,
    /// Nothing, but as if it had succeeded
    Pretend,
    /// Synchronize
    Run,
}

/// What is to be done about a synchronization that is wanted.
pub open spec fn start_of<S>(p: Progress<S>, dry_run: bool) -> SyncStart {
    if p.sync_suspended || p.is_syncing {
        SyncStart::Skip
    } else if dry_run {
        SyncStart::Pretend
    } else {
        SyncStart::Run
    }
}

/// The progress once a synchronization is under way.
pub open spec fn begun<S>(p: Progress<S>) -> Progress<S> {
    Progress { is_syncing: true, sync_state_change_seq: next_seq(p.sync_state_change_seq), ..p }
}

/// The progress once a synchronization is over, at the given second.
pub open spec fn ended(
    p: Progress<Seq<char>>,
    result: Result<(), SyncError<Seq<char>>>,
    unix_secs: i64,
) -> Progress<Seq<char>> {
    Progress {
        is_syncing: false,
        last_successful_sync_unix_secs: if result is Ok {
            unix_secs
        } else {
            p.last_successful_sync_unix_secs
        },
        last_sync_error: match result {
            Ok(_) => None,
            Err(e) => Some(message_of(e)),
        },
        sync_state_change_seq: next_seq(p.sync_state_change_seq),
        ..p
    }
}

/// The status that the indicator should show.
pub open spec fn desired_status(p: Progress<Seq<char>>) -> TrayStatus<Seq<char>> {
    if p.is_syncing {
        TrayStatus::Syncing
    } else {
        match p.last_sync_error {
            Some(message) => TrayStatus::Error(message),
            None => TrayStatus::Idle,
        }
    }
}

impl Progress {
    /// Before the first synchronization.
    pub fn new() -> (p: Progress)
        ensures
            p@ == untouched(),
    {
        Progress {
            is_syncing: false,
            sync_suspended: false,
            last_successful_sync_unix_secs: 0,
            last_sync_error: None,
            sync_state_change_seq: 0,
        }
    }

    /// Begins a synchronization, unless they are suspended or one is under way.
    pub fn begin_sync(&mut self, dry_run: bool) -> (start: SyncStart)
        ensures
            start == start_of(old(self)@, dry_run),
            final(self)@ == if start == SyncStart::Skip {
                old(self)@
            } else {
                begun(old(self)@)
            },
    {
        if self.sync_suspended || self.is_syncing {
            return SyncStart::Skip;
        }
        self.is_syncing = true;
        self.sync_state_change_seq = self.sync_state_change_seq.wrapping_add(1);
        if dry_run {
            SyncStart::Pretend
        } else {
            SyncStart::Run
        }
    }

    /// Notes how a synchronization ended, at the given second.
    pub fn finish_sync(&mut self, result: &Result<(), SyncError>, unix_secs: i64)
        ensures
            final(self)@ == ended(
                old(self)@,
                match *result {
                    Ok(_) => Ok(()),
                    Err(e) => Err(e@),
                },
                unix_secs,
            ),
    {
        self.is_syncing = false;
        match result {
            Ok(_) => {
                self.last_successful_sync_unix_secs = unix_secs;
                self.last_sync_error = None;
            },
            Err(e) => {
                self.last_sync_error = Some(e.message());
            },
        }
        self.sync_state_change_seq = self.sync_state_change_seq.wrapping_add(1);
    }

    /// Puts synchronizations off, or takes them up again.
    pub fn set_sync_suspended(&mut self, suspended: bool)
        ensures
            final(self)@ == (Progress {
                sync_suspended: suspended,
                sync_state_change_seq: next_seq(old(self)@.sync_state_change_seq),
                ..old(self)@
            }),
    {
        self.sync_suspended = suspended;
        self.sync_state_change_seq = self.sync_state_change_seq.wrapping_add(1);
    }

    /// The status that the indicator should show.
    pub fn desired_tray_status(&self) -> (status: TrayStatus)
        ensures
            status@ == desired_status(self@),
    {
        if self.is_syncing {
            return TrayStatus::Syncing;
        }
        match &self.last_sync_error {
            Some(message) => TrayStatus::Error(message.clone()),
            None => TrayStatus::Idle,
        }
    }

    /// When a synchronization last succeeded, in local time.
    pub fn latest_successful_sync_datetime(&self) -> (t: Option<LocalTime>)
        ensures
            t is Some <==> 0 < self.last_successful_sync_unix_secs <= LAST_SECOND,
            t matches Some(t) ==> t.wf() && t.unix_secs == self.last_successful_sync_unix_secs,
    {
        if self.last_successful_sync_unix_secs <= 0 {
            return None;
        }
        local_time_of(self.last_successful_sync_unix_secs)
    }
}

/// A repository that is watched.
#[derive(Debug)]
pub struct WatchManager {
    pub repo_path: String,
    pub sync_config: SyncConfig,
    pub watch_config: WatchConfig,
    pub progress: Progress,
}

/// How often to look whether a synchronization is due, in milliseconds.
pub open spec fn tick_of(config: WatchConfig) -> u64 {
    let shorter = if config.debounce_ms < config.min_interval_ms {
        config.debounce_ms
    } else {
        config.min_interval_ms
    };
    if shorter < 50 {
        50
    } else {
        shorter
    }
}

/// The places to watch: those that are configured, below the repository, or all of it.
pub open spec fn roots_of(repo_path: Seq<char>, watch_paths: Seq<Seq<char>>) -> Seq<Seq<char>> {
    if watch_paths.len() == 0 {
        seq![repo_path]
    } else {
        watch_paths.map_values(|p: Seq<char>| path::joined_paths(repo_path, p))
    }
}

impl WatchManager {
    /// A manager for the repository at the given path, where a leading `~` is the home directory.
    pub fn new(repo_path: &str, sync_config: SyncConfig, watch_config: WatchConfig) -> (m: Self)
        ensures
            exists|home: Option<Seq<char>>| #[trigger]
                home::expands_to(repo_path@, home, m.repo_path@),
            m.sync_config == sync_config,
            m.watch_config == watch_config,
            m.progress@ == untouched(),
    {
        let home: Option<String> = home::home_directory();
        Self::new_at(repo_path, sync_config, watch_config, &home)
    }

    /// The same, where the home directory is the given one.
    pub fn new_at(
        repo_path: &str,
        sync_config: SyncConfig,
        watch_config: WatchConfig,
        home: &Option<String>,
    ) -> (m: Self)
        ensures
            home::expands_to(repo_path@, option_view(*home), m.repo_path@),
            m.sync_config == sync_config,
            m.watch_config == watch_config,
            m.progress@ == untouched(),
    {
        WatchManager {
            repo_path: home::expand_tilde_at(repo_path, home),
            sync_config,
            watch_config,
            progress: Progress::new(),
        }
    }

    /// Begins the synchronization at the beginning, where there is to be one.
    pub fn begin_initial_sync(&mut self) -> (start: SyncStart)
        ensures
            start == if old(self).watch_config.sync_on_start {
                start_of(old(self).progress@, old(self).watch_config.dry_run)
            } else {
                SyncStart::Skip
            },
            final(self).progress@ == if start == SyncStart::Skip {
                old(self).progress@
            } else {
                begun(old(self).progress@)
            },
            final(self).repo_path == old(self).repo_path,
            final(self).sync_config == old(self).sync_config,
            final(self).watch_config == old(self).watch_config,
    {
        if self.watch_config.sync_on_start {
            let dry_run: bool = self.watch_config.dry_run;
            self.progress.begin_sync(dry_run)
        } else {
            SyncStart::Skip
        }
    }

    /// How often to look whether a synchronization is due, in milliseconds.
    pub fn tick_ms(&self) -> (ms: u64)
        ensures
            ms == tick_of(self.watch_config),
    {
        let shorter: u64 = if self.watch_config.debounce_ms < self.watch_config.min_interval_ms {
            self.watch_config.debounce_ms
        } else {
            self.watch_config.min_interval_ms
        };
        if shorter < 50 {
            50
        } else {
            shorter
        }
    }

    /// The places to watch.
    pub fn watch_roots(&self) -> (roots: Vec<String>)
        ensures
            text::views(roots@) == roots_of(
                self.repo_path@,
                text::views(self.watch_config.watch_paths@),
            ),
    {
        let paths: &Vec<String> = &self.watch_config.watch_paths;
        let ghost wanted = roots_of(self.repo_path@, text::views(paths@));
        let mut roots: Vec<String> = Vec::new();
        if paths.len() == 0 {
            roots.push(self.repo_path.clone());
            assert(text::views(roots@) =~= wanted);
            return roots;
        }
        let mut i: usize = 0;
        while i < paths.len()
            invariant
                i <= paths@.len(),
                paths@.len() > 0,
                paths == &self.watch_config.watch_paths,
                wanted == roots_of(self.repo_path@, text::views(paths@)),
                text::views(roots@) == wanted.take(i as int),
            decreases paths@.len() - i,
        {
            let ghost before = roots@;
            let root: String = path::join(self.repo_path.as_str(), paths[i].as_str());
            roots.push(root);
            assert(wanted[i as int] == root@);
            assert(text::views(roots@) =~= text::views(before).push(root@));
            assert(text::views(roots@) =~= wanted.take(i + 1));
            i = i + 1;
        }
        assert(wanted.take(wanted.len() as int) =~= wanted);
        roots
    }
}

/// A manager for the repository at the given path that synchronizes every so often even without
/// changes.
pub fn watch_with_periodic_sync(
    repo_path: &str,
    sync_config: SyncConfig,
    watch_config: WatchConfig,
    sync_interval_ms: Option<u64>,
) -> (m: WatchManager)
    ensures
        exists|home: Option<Seq<char>>| #[trigger]
            home::expands_to(repo_path@, home, m.repo_path@),
        m.sync_config == sync_config,
        m.watch_config == (WatchConfig {
            periodic_sync_interval_ms: sync_interval_ms,
            ..watch_config
        }),
        m.progress@ == untouched(),
{
    let mut watch_config: WatchConfig = watch_config;
    watch_config.periodic_sync_interval_ms = sync_interval_ms;
    WatchManager::new(repo_path, sync_config, watch_config)
}

/// Nothing is synchronized while synchronizations are suspended, or while one is under way; and a
/// dry run synchronizes nothing.
pub proof fn suspension_and_dry_runs_synchronize_nothing<S>(p: Progress<S>, dry_run: bool)
    ensures
        start_of(p, dry_run) == SyncStart::Run <==> !p.sync_suspended && !p.is_syncing && !dry_run,
        start_of(begun(p), dry_run) == SyncStart::Skip,
{
}

/// However a synchronization ends, the next one can begin.
pub proof fn a_synchronization_that_is_over_does_not_block_the_next(
    p: Progress<Seq<char>>,
    result: Result<(), SyncError<Seq<char>>>,
    unix_secs: i64,
)
    requires
        start_of(p, false) == SyncStart::Run,
    ensures
        start_of(ended(begun(p), result, unix_secs), false) == SyncStart::Run,
{
}

/// A synchronization that has begun is under way, and one that is over is not. A success is noted
/// with its time and takes the last error away; a failure is noted with its message, and leaves the
/// time of the last success. Neither touches what the user has put off, and both count as a change.
pub proof fn progress_is_noted(
    p: Progress<Seq<char>>,
    e: SyncError<Seq<char>>,
    unix_secs: i64,
)
    ensures
        begun(p).is_syncing,
        begun(p).last_sync_error == p.last_sync_error,
        begun(p).last_successful_sync_unix_secs == p.last_successful_sync_unix_secs,
        begun(p).sync_suspended == p.sync_suspended,
        begun(p).sync_state_change_seq != p.sync_state_change_seq,
        ({
            let well = ended(p, Ok(()), unix_secs);
            &&& !well.is_syncing
            &&& well.last_sync_error is None
            &&& well.last_successful_sync_unix_secs == unix_secs
            &&& well.sync_suspended == p.sync_suspended
            &&& well.sync_state_change_seq != p.sync_state_change_seq
        }),
        ({
            let badly = ended(p, Err(e), unix_secs);
            &&& !badly.is_syncing
            &&& badly.last_sync_error == Some(message_of(e))
            &&& badly.last_successful_sync_unix_secs == p.last_successful_sync_unix_secs
            &&& badly.sync_suspended == p.sync_suspended
            &&& badly.sync_state_change_seq != p.sync_state_change_seq
        }),
{
}

/// The indicator shows a synchronization while one is under way, then why the last one failed, if
/// it did, and otherwise that nothing is going on.
pub proof fn the_status_follows_the_progress(
    p: Progress<Seq<char>>,
    e: SyncError<Seq<char>>,
    unix_secs: i64,
)
    ensures
        desired_status(begun(p)) == TrayStatus::<Seq<char>>::Syncing,
        desired_status(ended(p, Ok(()), unix_secs)) == TrayStatus::<Seq<char>>::Idle,
        desired_status(ended(p, Err(e), unix_secs)) == TrayStatus::<Seq<char>>::Error(
            message_of(e),
        ),
        desired_status(untouched()) == TrayStatus::<Seq<char>>::Idle,
        !untouched().is_syncing && !untouched().sync_suspended,
        untouched().last_successful_sync_unix_secs == 0,
{
}

/// A dry run only pretends; nothing begins while anything else is in the way.
pub proof fn dry_runs_pretend<S>(p: Progress<S>)
    ensures
        !p.sync_suspended && !p.is_syncing ==> start_of(p, true) == SyncStart::Pretend && start_of(
            p,
            false,
        ) == SyncStart::Run,
        p.sync_suspended || p.is_syncing ==> start_of(p, true) == SyncStart::Skip && start_of(
            p,
            false,
        ) == SyncStart::Skip,
{
}

/// It is looked whether a synchronization is due as often as the shorter of the two times that it
/// goes by, but no more often than twenty times a second.
pub proof fn looks_are_frequent_enough(config: WatchConfig)
    ensures
        tick_of(config) >= 50,
        tick_of(config) <= config.debounce_ms || tick_of(config) == 50,
        tick_of(config) <= config.min_interval_ms || tick_of(config) == 50,
        tick_of(config) == 50 || tick_of(config) == config.debounce_ms || tick_of(config)
            == config.min_interval_ms,
{
}

/// All of the repository is watched where nothing is said; otherwise each of the places that are
/// said is, below the repository unless it is absolute, in the given order.
pub proof fn the_places_to_watch_are_watched(
    repo_path: Seq<char>,
    watch_paths: Seq<Seq<char>>,
    i: int,
)
    requires
        repo_path.len() > 0,
        repo_path.last() != '/',
    ensures
        watch_paths.len() == 0 ==> roots_of(repo_path, watch_paths) == seq![repo_path],
        watch_paths.len() > 0 ==> roots_of(repo_path, watch_paths).len() == watch_paths.len(),
        0 <= i < watch_paths.len() && watch_paths[i].len() > 0 && watch_paths[i][0] == '/'
            ==> roots_of(repo_path, watch_paths)[i] == watch_paths[i],
        0 <= i < watch_paths.len() && (watch_paths[i].len() == 0 || watch_paths[i][0] != '/')
            ==> roots_of(repo_path, watch_paths)[i] == repo_path + seq!['/'] + watch_paths[i],
{
    if 0 <= i < watch_paths.len() {
        path_laws::paths_are_put_below_directories(repo_path, watch_paths[i]);
    }
}

} // verus!
