//! The loop that watches a repository: what it does about each thing that happens.

use crate::clock::{in_calendar, local_time_of, wall_time, LocalTime, WallTime, LAST_SECOND};
use crate::error::{message_of, SyncError};
use crate::path;
use crate::sync::step::attempt;
use crate::text;
use crate::text::option_view;
use crate::tray::state::{last_sync_words, valid, TrayCommand, TrayState, TrayStatus};
use crate::watch::filter::{is_change, ChangeKind, EventFilter};
use crate::watch::scheduler::{Clock, SyncScheduler, SPAN_LIMIT};
use crate::watch::{
    begun, desired_status, ended, next_seq, start_of, Progress, SyncStart, WatchManager,
};
use vstd::prelude::*;
use vstd::string::*;

verus! {

/// How long to wait before the indicator is started again, in nanoseconds.
pub const TRAY_RETRY_FALLBACK_DELAY: u128 = 15000000000;

/// The same where it is likely to work soon.
pub const TRAY_RETRY_SOON_DELAY: u128 = 1000000000;

/// When something happened: by the clock that counts, by the wall clock, and how far local time
/// is ahead of universal time then, and was when a synchronization last succeeded, if that is
/// known.
#[derive(Debug, Clone, Copy)]
pub struct Moment {
    pub now: u128,
    pub wall: WallTime,
    pub wall_offset_secs: Option<i32>,
    pub utc_offset_secs: Option<i32>,
}

impl Moment {
    pub open spec fn wf(self) -> bool {
        self.now < SPAN_LIMIT && self.wall.plausible()
    }

    /// How far local time was ahead at the given second, which is that of the moment, or when a
    /// synchronization last succeeded.
    pub open spec fn offset_at(self, unix_secs: i64) -> Option<i32> {
        if unix_secs == self.wall.unix_secs {
            self.wall_offset_secs
        } else {
            self.utc_offset_secs
        }
    }
}

/// How an attempt to start the indicator ended.
#[derive(Debug)]
pub enum TrayStart {
    Up,
    /// There is nowhere to show it
    WontShow,
    /// The watcher that it registers with reported a failure
    Watcher(String),
    Failed,
}

/// What can happen.
#[derive(Debug)]
pub enum WatchEvent {
    /// Time has passed; an attempt to start the indicator may have ended
    Tick(Option<TrayStart>),
    /// Files changed
    File(ChangeKind),
    /// It is time for a synchronization even without changes
    Periodic,
    /// The user asked for something
    Command(TrayCommand),
    /// There was activity on the session bus
    Bus,
    /// The progress has changed
    StateChanged,
    /// The indicator did not take its state
    TrayGone,
    /// The synchronization is over
    SyncDone(Result<(), SyncError>),
}

/// What is to be done. The parameter is the representation of texts.
#[derive(Debug)]
pub enum WatchAction<S = String> {
    /// Synchronize, and report when it is over
    Sync,
    /// Start the indicator with the given state
    StartTray(TrayState<S>),
    /// Give up starting the indicator
    AbortTrayStart,
    /// Show the given state
    ShowTray(TrayState<S>),
    /// Stop the indicator
    StopTray,
    /// Stop watching
    Quit,
}

impl View for WatchAction {
    type V = WatchAction<Seq<char>>;

    open spec fn view(&self) -> WatchAction<Seq<char>> {
        match self {
            WatchAction::Sync => WatchAction::Sync,
            WatchAction::StartTray(state) => WatchAction::StartTray(state@),
            WatchAction::AbortTrayStart => WatchAction::AbortTrayStart,
            WatchAction::ShowTray(state) => WatchAction::ShowTray(state@),
            WatchAction::StopTray => WatchAction::StopTray,
            WatchAction::Quit => WatchAction::Quit,
        }
    }
}

pub open spec fn actions_view(actions: Seq<WatchAction>) -> Seq<WatchAction<Seq<char>>> {
    actions.map_values(|a: WatchAction| a@)
}

/// The indicator, as the loop knows it. The parameter is the representation of texts.
#[derive(Debug)]
pub struct TrayLink<S = String> {
    pub state: TrayState<S>,
    /// Whether the indicator is shown
    pub up: bool,
    /// Whether it is being started
    pub starting: bool,
    /// When to start it next
    pub next_attempt: u128,
    /// The text for the last synchronization that was shown last
    pub last_sync_text: S,
}

impl View for TrayLink {
    type V = TrayLink<Seq<char>>;

    open spec fn view(&self) -> TrayLink<Seq<char>> {
        TrayLink {
            state: self.state@,
            up: self.up,
            starting: self.starting,
            next_attempt: self.next_attempt,
            last_sync_text: self.last_sync_text@,
        }
    }
}

/// A repository that is watched, with or without an indicator.
#[derive(Debug)]
pub struct WatchLoop {
    pub manager: WatchManager,
    pub scheduler: SyncScheduler,
    pub tray: Option<TrayLink>,
    /// Whether the indicator is brought up to date once the synchronization that is under way is
    /// over
    pub refresh_after_sync: bool,
}

/// A watched repository as contracts state it.
pub struct LoopModel {
    pub dry_run: bool,
    pub progress: Progress<Seq<char>>,
    pub scheduler: SyncScheduler,
    pub tray: Option<TrayLink<Seq<char>>>,
    pub refresh_after_sync: bool,
}

impl View for WatchLoop {
    type V = LoopModel;

    open spec fn view(&self) -> LoopModel {
        LoopModel {
            dry_run: self.manager.watch_config.dry_run,
            progress: self.manager.progress@,
            scheduler: self.scheduler,
            tray: match self.tray {
                Some(tray) => Some(tray@),
                None => None,
            },
            refresh_after_sync: self.refresh_after_sync,
        }
    }
}

/// What the loop comes to, and what is to be done, in order.
pub type Turn = (LoopModel, Seq<WatchAction<Seq<char>>>);

/// When a synchronization last succeeded, in local time.
pub open spec fn latest_sync(p: Progress<Seq<char>>, m: Moment) -> Option<LocalTime> {
    match m.offset_at(p.last_successful_sync_unix_secs) {
        Some(offset) => {
            let t = LocalTime {
                unix_secs: p.last_successful_sync_unix_secs,
                utc_offset_secs: offset,
            };
            if t.unix_secs > 0 && t.wf() {
                Some(t)
            } else {
                None
            }
        },
        None => None,
    }
}

/// What the indicator should show. While synchronizations are suspended it keeps its status.
pub open spec fn reconciled_state(
    state: TrayState<Seq<char>>,
    p: Progress<Seq<char>>,
    m: Moment,
) -> TrayState<Seq<char>> {
    let status = if p.sync_suspended {
        state.status
    } else {
        desired_status(p)
    };
    TrayState {
        paused: p.sync_suspended,
        status,
        last_error: if p.sync_suspended {
            state.last_error
        } else {
            match status {
                TrayStatus::Error(message) => Some(message),
                _ => None,
            }
        },
        last_sync: latest_sync(p, m),
        ..state
    }
}

/// Shows what there is to show, where the indicator is shown.
pub open spec fn showing(t: Turn) -> Turn {
    match t.0.tray {
        Some(tray) => if tray.up {
            (t.0, t.1.push(WatchAction::ShowTray(tray.state)))
        } else {
            t
        },
        None => t,
    }
}

pub open spec fn with_state(l: LoopModel, state: TrayState<Seq<char>>) -> LoopModel {
    LoopModel {
        tray: match l.tray {
            Some(tray) => Some(TrayLink { state, ..tray }),
            None => None,
        },
        ..l
    }
}

/// Brings what the indicator shows in line with the progress.
pub open spec fn reconciling(t: Turn, m: Moment) -> Turn {
    match t.0.tray {
        Some(tray) => {
            let state = reconciled_state(tray.state, t.0.progress, m);
            if state == tray.state {
                t
            } else {
                showing((with_state(t.0, state), t.1))
            }
        },
        None => t,
    }
}

/// Shows how long ago the last synchronization was, where that reads differently than before.
pub open spec fn refreshing(t: Turn, m: Moment) -> Turn {
    match t.0.tray {
        Some(tray) => {
            let words = last_sync_words(tray.state.last_sync, m.wall);
            if words == tray.last_sync_text {
                t
            } else {
                showing(
                    (
                        LoopModel {
                            tray: Some(TrayLink { last_sync_text: words, ..tray }),
                            ..t.0
                        },
                        t.1,
                    ),
                )
            }
        },
        None => t,
    }
}

/// How long to wait before the indicator is started again.
pub open spec fn retry_delay(start: TrayStart) -> u128 {
    match start {
        TrayStart::WontShow => TRAY_RETRY_SOON_DELAY,
        TrayStart::Watcher(report) => if text::contains_text(report@, "UnknownObject"@) {
            TRAY_RETRY_SOON_DELAY
        } else {
            TRAY_RETRY_FALLBACK_DELAY
        },
        _ => TRAY_RETRY_FALLBACK_DELAY,
    }
}

/// Notes how an attempt to start the indicator ended.
pub open spec fn harvesting(t: Turn, start: Option<TrayStart>, m: Moment) -> Turn {
    match (t.0.tray, start) {
        (Some(tray), Some(start)) => if !tray.starting {
            t
        } else {
            match start {
                TrayStart::Up => reconciling(
                    (
                        LoopModel {
                            tray: Some(
                                TrayLink { up: true, starting: false, next_attempt: m.now, ..tray },
                            ),
                            ..t.0
                        },
                        t.1,
                    ),
                    m,
                ),
                _ => (
                    LoopModel {
                        tray: Some(
                            TrayLink {
                                starting: false,
                                next_attempt: (m.now + retry_delay(start)) as u128,
                                ..tray
                            },
                        ),
                        ..t.0
                    },
                    t.1,
                ),
            }
        },
        _ => t,
    }
}

/// Starts the indicator where it is not shown, is not being started and is due.
pub open spec fn starting_tray(t: Turn, m: Moment) -> Turn {
    match t.0.tray {
        Some(tray) => if !tray.up && !tray.starting && m.now >= tray.next_attempt {
            (
                LoopModel { tray: Some(TrayLink { starting: true, ..tray }), ..t.0 },
                t.1.push(WatchAction::StartTray(tray.state)),
            )
        } else {
            t
        },
        None => t,
    }
}

/// Begins a synchronization, unless they are suspended. A dry run is over at once.
pub open spec fn synchronizing(t: Turn, refresh: bool, m: Moment) -> Turn {
    if t.0.progress.sync_suspended {
        t
    } else {
        let shown = match t.0.tray {
            Some(tray) => showing(
                (
                    with_state(t.0, TrayState { status: TrayStatus::Syncing, ..tray.state }),
                    t.1,
                ),
            ),
            None => t,
        };
        let l = LoopModel { refresh_after_sync: refresh, ..shown.0 };
        match start_of(l.progress, l.dry_run) {
            SyncStart::Run => (
                LoopModel { progress: begun(l.progress), ..l },
                shown.1.push(WatchAction::Sync),
            ),
            SyncStart::Pretend => concluding(
                (LoopModel { progress: begun(l.progress), ..l }, shown.1),
                Ok(()),
                m,
            ),
            SyncStart::Skip => noting((l, shown.1), Ok(()), m),
        }
    }
}

/// Begins a synchronization where one is due and none is under way.
pub open spec fn attempting(t: Turn, refresh: bool, m: Moment) -> Turn {
    if t.0.scheduler.due(m.now) && !t.0.progress.is_syncing {
        synchronizing(t, refresh, m)
    } else {
        t
    }
}

/// Notes how a synchronization ended.
pub open spec fn concluding(
    t: Turn,
    result: Result<(), SyncError<Seq<char>>>,
    m: Moment,
) -> Turn {
    noting(
        (
            LoopModel { progress: ended(t.0.progress, result, m.wall.unix_secs), ..t.0 },
            t.1,
        ),
        result,
        m,
    )
}

/// Notes how a synchronization ended, with the scheduler and with the indicator.
pub open spec fn noting(t: Turn, result: Result<(), SyncError<Seq<char>>>, m: Moment) -> Turn {
    let l = LoopModel {
        scheduler: match result {
            Ok(_) => t.0.scheduler.succeeded(m.now),
            Err(e) => t.0.scheduler.failed(e, m.now),
        },
        refresh_after_sync: false,
        ..t.0
    };
    let shown = match l.tray {
        Some(tray) => match result {
            Ok(_) => reconciling(
                (
                    with_state(
                        l,
                        TrayState { status: TrayStatus::Idle, last_error: None, ..tray.state },
                    ),
                    t.1,
                ),
                m,
            ),
            Err(e) => showing(
                (
                    with_state(
                        l,
                        TrayState {
                            status: TrayStatus::Error(message_of(e)),
                            last_error: Some(message_of(e)),
                            ..tray.state
                        },
                    ),
                    t.1,
                ),
            ),
        },
        None => (l, t.1),
    };
    if t.0.refresh_after_sync {
        refreshing(reconciling(shown, m), m)
    } else {
        shown
    }
}

/// Puts synchronizations off, or takes them up again.
pub open spec fn suspending(t: Turn, suspended: bool, m: Moment) -> Turn {
    reconciling(
        (
            LoopModel {
                progress: Progress {
                    sync_suspended: suspended,
                    sync_state_change_seq: next_seq(t.0.progress.sync_state_change_seq),
                    ..t.0.progress
                },
                ..t.0
            },
            t.1,
        ),
        m,
    )
}

/// Whether the user sees that synchronizations are put off; where the indicator is that of several
/// repositories, whether they are.
pub open spec fn seen_paused(l: LoopModel) -> bool {
    match l.tray {
        Some(tray) => tray.state.paused,
        None => l.progress.sync_suspended,
    }
}

/// Does what the user asked for, be it with the indicator of the repository or with that of
/// several. Commands for another repository are for its own loop.
pub open spec fn obeying(
    t: Turn,
    repo_path: Seq<char>,
    command: TrayCommand<Seq<char>>,
    m: Moment,
) -> Turn {
    match command {
        TrayCommand::SyncNow | TrayCommand::SyncAll => if seen_paused(t.0) {
            t
        } else {
            synchronizing(t, false, m)
        },
        TrayCommand::SyncRepository(path) => if seen_paused(t.0) || !path::same_place(
            path,
            repo_path,
        ) {
            t
        } else {
            synchronizing(t, false, m)
        },
        TrayCommand::Suspend | TrayCommand::SuspendAll => suspending(t, true, m),
        TrayCommand::SuspendRepository(path) => if path::same_place(path, repo_path) {
            suspending(t, true, m)
        } else {
            t
        },
        TrayCommand::Resume | TrayCommand::ResumeAll => suspending(t, false, m),
        TrayCommand::ResumeRepository(path) => if path::same_place(path, repo_path) {
            suspending(t, false, m)
        } else {
            t
        },
        TrayCommand::Quit => (
            t.0,
            (if t.0.tray matches Some(tray) && tray.up {
                t.1.push(WatchAction::StopTray)
            } else {
                t.1
            }).push(WatchAction::Quit),
        ),
        TrayCommand::Respawn { .. } => match t.0.tray {
            None => t,
            Some(tray) => {
                let aborted = if tray.starting {
                    t.1.push(WatchAction::AbortTrayStart)
                } else {
                    t.1
                };
                let stopped = if tray.up {
                    aborted.push(WatchAction::StopTray)
                } else {
                    aborted
                };
                (
                    LoopModel {
                        tray: Some(
                            TrayLink {
                                up: false,
                                starting: false,
                                next_attempt: (m.now + TRAY_RETRY_SOON_DELAY) as u128,
                                ..tray
                            },
                        ),
                        ..t.0
                    },
                    stopped,
                )
            },
        },
    }
}

/// Whether a synchronization was begun that is not over yet.
pub open spec fn in_flight(t: Turn) -> bool {
    t.1.len() > 0 && t.1.last() is Sync
}

/// What the loop does about something that happened.
pub open spec fn turn(l: LoopModel, repo_path: Seq<char>, event: WatchEvent, m: Moment) -> Turn {
    let t = (l, Seq::<WatchAction<Seq<char>>>::empty());
    match event {
        WatchEvent::Tick(start) => {
            let attempted = attempting(starting_tray(harvesting(t, start, m), m), true, m);
            if in_flight(attempted) {
                attempted
            } else {
                refreshing(reconciling(attempted, m), m)
            }
        },
        WatchEvent::File(kind) => if is_change(kind) {
            (LoopModel { scheduler: l.scheduler.marked(m.now), ..l }, t.1)
        } else {
            t
        },
        WatchEvent::Periodic => attempting(
            (LoopModel { scheduler: l.scheduler.requested(m.now), ..l }, t.1),
            false,
            m,
        ),
        WatchEvent::Command(command) => obeying(t, repo_path, command@, m),
        WatchEvent::Bus => match l.tray {
            Some(tray) => starting_tray(
                (LoopModel { tray: Some(TrayLink { next_attempt: m.now, ..tray }), ..l }, t.1),
                m,
            ),
            None => t,
        },
        WatchEvent::StateChanged => refreshing(reconciling(t, m), m),
        WatchEvent::TrayGone => match l.tray {
            Some(tray) => (LoopModel { tray: Some(TrayLink { up: false, ..tray }), ..l }, t.1),
            None => t,
        },
        WatchEvent::SyncDone(result) => concluding(
            t,
            match result {
                Ok(_) => Ok(()),
                Err(e) => Err(e@),
            },
            m,
        ),
    }
}

/// Whether two loops watch the same repository in the same way.
pub open spec fn same_setup(a: WatchLoop, b: WatchLoop) -> bool {
    &&& a.manager.repo_path == b.manager.repo_path
    &&& a.manager.sync_config == b.manager.sync_config
    &&& a.manager.watch_config == b.manager.watch_config
}

/// A turn of the loop: what it came to and what is to be done, for what there was and what was to
/// be done before.
pub open spec fn turn_of(l: WatchLoop, actions: Vec<WatchAction>) -> Turn {
    (l@, actions_view(actions@))
}

fn same_option(a: &Option<String>, b: &Option<String>) -> (same: bool)
    ensures
        same == (option_view(*a) == option_view(*b)),
{
    match (a, b) {
        (Some(a), Some(b)) => text::same_text(a.as_str(), b.as_str()),
        (None, None) => true,
        _ => false,
    }
}

fn same_time(a: Option<LocalTime>, b: Option<LocalTime>) -> (same: bool)
    ensures
        same == (a == b),
{
    match (a, b) {
        (Some(a), Some(b)) => a == b,
        (None, None) => true,
        _ => false,
    }
}

impl WatchLoop {
    /// What holds of the loop at all times.
    pub open spec fn wf(self) -> bool {
        &&& self.scheduler.wf()
        &&& self.tray matches Some(tray) ==> valid(tray.state)
    }

    fn show(&self, actions: &mut Vec<WatchAction>)
        ensures
            turn_of(*self, *final(actions)) == showing(turn_of(*self, *old(actions))),
    {
        if let Some(tray) = &self.tray {
            if tray.up {
                let ghost before = actions@;
                let state: TrayState = tray.state.copy();
                actions.push(WatchAction::ShowTray(state));
                assert(actions_view(actions@) =~= actions_view(before).push(
                    WatchAction::ShowTray(tray.state@),
                ));
            }
        }
    }

    /// What the indicator should show.
    fn reconciled(&self, state: &TrayState, m: Moment) -> (new: TrayState)
        ensures
            new@ == reconciled_state(state@, self.manager.progress@, m),
            valid(new),
    {
        let progress: &Progress = &self.manager.progress;
        let offset: Option<i32> = if progress.last_successful_sync_unix_secs == m.wall.unix_secs {
            m.wall_offset_secs
        } else {
            m.utc_offset_secs
        };
        let last_sync: Option<LocalTime> = match offset {
            Some(offset) => if progress.last_successful_sync_unix_secs > 0 {
                LocalTime::new(progress.last_successful_sync_unix_secs, offset)
            } else {
                None
            },
            None => None,
        };
        let mut new: TrayState = state.copy();
        new.last_sync = last_sync;
        new.paused = progress.sync_suspended;
        if !progress.sync_suspended {
            let status: TrayStatus = progress.desired_tray_status();
            new.last_error = match &status {
                TrayStatus::Error(message) => Some(message.clone()),
                _ => None,
            };
            new.status = status;
        }
        new
    }

    fn reconcile(&mut self, m: Moment, actions: &mut Vec<WatchAction>)
        requires
            old(self).wf(),
        ensures
            final(self).wf(),
            same_setup(*final(self), *old(self)),
            turn_of(*final(self), *final(actions)) == reconciling(
                turn_of(*old(self), *old(actions)),
                m,
            ),
    {
        let new: TrayState = match &self.tray {
            None => {
                return;
            },
            Some(tray) => {
                let new: TrayState = self.reconciled(&tray.state, m);
                if tray.state.status.same(&new.status) && same_option(
                    &tray.state.last_error,
                    &new.last_error,
                ) && same_time(tray.state.last_sync, new.last_sync) && tray.state.paused
                    == new.paused {
                    assert(new@ == tray.state@);
                    return;
                }
                new
            },
        };
        if let Some(tray) = &mut self.tray {
            tray.state = new;
        }
        self.show(actions);
    }

    fn refresh(&mut self, m: Moment, actions: &mut Vec<WatchAction>)
        requires
            old(self).wf(),
            m.wf(),
        ensures
            final(self).wf(),
            same_setup(*final(self), *old(self)),
            turn_of(*final(self), *final(actions)) == refreshing(
                turn_of(*old(self), *old(actions)),
                m,
            ),
    {
        let words: String = match &self.tray {
            None => {
                return;
            },
            Some(tray) => {
                let words: String = tray.state.last_sync_text_at(m.wall);
                if text::same_text(words.as_str(), tray.last_sync_text.as_str()) {
                    return;
                }
                words
            },
        };
        if let Some(tray) = &mut self.tray {
            tray.last_sync_text = words;
        }
        self.show(actions);
    }

    fn harvest(&mut self, start: Option<TrayStart>, m: Moment, actions: &mut Vec<WatchAction>)
        requires
            old(self).wf(),
            m.wf(),
        ensures
            final(self).wf(),
            same_setup(*final(self), *old(self)),
            turn_of(*final(self), *final(actions)) == harvesting(
                turn_of(*old(self), *old(actions)),
                start,
                m,
            ),
    {
        let starting: bool = match &self.tray {
            Some(tray) => tray.starting,
            None => false,
        };
        if !starting {
            return;
        }
        match start {
            None => {},
            Some(TrayStart::Up) => {
                if let Some(tray) = &mut self.tray {
                    tray.up = true;
                    tray.starting = false;
                    tray.next_attempt = m.now;
                }
                self.reconcile(m, actions);
            },
            Some(start) => {
                let soon: bool = match &start {
                    TrayStart::WontShow => true,
                    TrayStart::Watcher(report) => text::contains(report.as_str(), "UnknownObject"),
                    _ => false,
                };
                let delay: u128 = if soon {
                    TRAY_RETRY_SOON_DELAY
                } else {
                    TRAY_RETRY_FALLBACK_DELAY
                };
                if let Some(tray) = &mut self.tray {
                    tray.starting = false;
                    tray.next_attempt = m.now + delay;
                }
            },
        }
    }

    fn start_tray(&mut self, m: Moment, actions: &mut Vec<WatchAction>)
        requires
            old(self).wf(),
        ensures
            final(self).wf(),
            same_setup(*final(self), *old(self)),
            turn_of(*final(self), *final(actions)) == starting_tray(
                turn_of(*old(self), *old(actions)),
                m,
            ),
    {
        if let Some(tray) = &mut self.tray {
            if !tray.up && !tray.starting && m.now >= tray.next_attempt {
                let ghost before = actions@;
                let state: TrayState = tray.state.copy();
                tray.starting = true;
                actions.push(WatchAction::StartTray(state));
                assert(actions_view(actions@) =~= actions_view(before).push(
                    WatchAction::StartTray(state@),
                ));
            }
        }
    }

    fn note(&mut self, result: &Result<(), SyncError>, m: Moment, actions: &mut Vec<WatchAction>)
        requires
            old(self).wf(),
            m.wf(),
        ensures
            final(self).wf(),
            same_setup(*final(self), *old(self)),
            turn_of(*final(self), *final(actions)) == noting(
                turn_of(*old(self), *old(actions)),
                attempt(*result),
                m,
            ),
    {
        let refresh: bool = self.refresh_after_sync;
        self.refresh_after_sync = false;
        match result {
            Ok(_) => {
                self.scheduler.on_sync_success_at(m.now);
                if let Some(tray) = &mut self.tray {
                    tray.state.status = TrayStatus::Idle;
                    tray.state.last_error = None;
                }
                self.reconcile(m, actions);
            },
            Err(e) => {
                self.scheduler.on_sync_failure_at(e, m.now);
                if let Some(tray) = &mut self.tray {
                    tray.state.status = TrayStatus::Error(e.message());
                    tray.state.last_error = Some(e.message());
                }
                self.show(actions);
            },
        }
        if refresh {
            self.reconcile(m, actions);
            self.refresh(m, actions);
        }
    }

    fn conclude(
        &mut self,
        result: &Result<(), SyncError>,
        m: Moment,
        actions: &mut Vec<WatchAction>,
    )
        requires
            old(self).wf(),
            m.wf(),
        ensures
            final(self).wf(),
            same_setup(*final(self), *old(self)),
            turn_of(*final(self), *final(actions)) == concluding(
                turn_of(*old(self), *old(actions)),
                attempt(*result),
                m,
            ),
    {
        self.manager.progress.finish_sync(result, m.wall.unix_secs);
        self.note(result, m, actions);
    }

    fn synchronize(&mut self, refresh: bool, m: Moment, actions: &mut Vec<WatchAction>)
        requires
            old(self).wf(),
            m.wf(),
        ensures
            final(self).wf(),
            same_setup(*final(self), *old(self)),
            turn_of(*final(self), *final(actions)) == synchronizing(
                turn_of(*old(self), *old(actions)),
                refresh,
                m,
            ),
    {
        if self.manager.progress.sync_suspended {
            return;
        }
        if let Some(tray) = &mut self.tray {
            tray.state.status = TrayStatus::Syncing;
        }
        self.show(actions);
        self.refresh_after_sync = refresh;
        let dry_run: bool = self.manager.watch_config.dry_run;
        match self.manager.progress.begin_sync(dry_run) {
            SyncStart::Run => {
                let ghost before = actions@;
                actions.push(WatchAction::Sync);
                assert(actions_view(actions@) =~= actions_view(before).push(WatchAction::Sync));
            },
            SyncStart::Pretend => {
                self.conclude(&Ok(()), m, actions);
            },
            SyncStart::Skip => {
                self.note(&Ok(()), m, actions);
            },
        }
    }

    fn attempt(&mut self, refresh: bool, m: Moment, actions: &mut Vec<WatchAction>)
        requires
            old(self).wf(),
            m.wf(),
        ensures
            final(self).wf(),
            same_setup(*final(self), *old(self)),
            turn_of(*final(self), *final(actions)) == attempting(
                turn_of(*old(self), *old(actions)),
                refresh,
                m,
            ),
    {
        if self.scheduler.should_sync_at(m.now) && !self.manager.progress.is_syncing {
            self.synchronize(refresh, m, actions);
        }
    }

    fn suspend(&mut self, suspended: bool, m: Moment, actions: &mut Vec<WatchAction>)
        requires
            old(self).wf(),
        ensures
            final(self).wf(),
            same_setup(*final(self), *old(self)),
            turn_of(*final(self), *final(actions)) == suspending(
                turn_of(*old(self), *old(actions)),
                suspended,
                m,
            ),
    {
        self.manager.progress.set_sync_suspended(suspended);
        self.reconcile(m, actions);
    }

    fn obey(&mut self, command: TrayCommand, m: Moment, actions: &mut Vec<WatchAction>)
        requires
            old(self).wf(),
            m.wf(),
        ensures
            final(self).wf(),
            same_setup(*final(self), *old(self)),
            turn_of(*final(self), *final(actions)) == obeying(
                turn_of(*old(self), *old(actions)),
                old(self).manager.repo_path@,
                command@,
                m,
            ),
    {
        let (paused, up, starting): (bool, bool, bool) = match &self.tray {
            None => (self.manager.progress.sync_suspended, false, false),
            Some(tray) => (tray.state.paused, tray.up, tray.starting),
        };
        let ghost before = actions_view(actions@);
        match command {
            TrayCommand::SyncNow | TrayCommand::SyncAll => {
                if !paused {
                    self.synchronize(false, m, actions);
                }
            },
            TrayCommand::SyncRepository(path) => {
                if !paused && path::same_path(path.as_str(), self.manager.repo_path.as_str()) {
                    self.synchronize(false, m, actions);
                }
            },
            TrayCommand::Suspend | TrayCommand::SuspendAll => {
                self.suspend(true, m, actions);
            },
            TrayCommand::SuspendRepository(path) => {
                if path::same_path(path.as_str(), self.manager.repo_path.as_str()) {
                    self.suspend(true, m, actions);
                }
            },
            TrayCommand::Resume | TrayCommand::ResumeAll => {
                self.suspend(false, m, actions);
            },
            TrayCommand::ResumeRepository(path) => {
                if path::same_path(path.as_str(), self.manager.repo_path.as_str()) {
                    self.suspend(false, m, actions);
                }
            },
            TrayCommand::Quit => {
                if up {
                    actions.push(WatchAction::StopTray);
                    assert(actions_view(actions@) =~= before.push(WatchAction::StopTray));
                }
                let ghost stopped = actions_view(actions@);
                actions.push(WatchAction::Quit);
                assert(actions_view(actions@) =~= stopped.push(WatchAction::Quit));
            },
            TrayCommand::Respawn { .. } => {
                if starting {
                    actions.push(WatchAction::AbortTrayStart);
                    assert(actions_view(actions@) =~= before.push(WatchAction::AbortTrayStart));
                }
                let ghost aborted = actions_view(actions@);
                if up {
                    actions.push(WatchAction::StopTray);
                    assert(actions_view(actions@) =~= aborted.push(WatchAction::StopTray));
                }
                if let Some(tray) = &mut self.tray {
                    tray.up = false;
                    tray.starting = false;
                    tray.next_attempt = m.now + TRAY_RETRY_SOON_DELAY;
                }
            },
        }
    }

    /// Does something about what happened. Returns what is to be done, in order.
    pub fn handle(&mut self, event: WatchEvent, m: Moment) -> (actions: Vec<WatchAction>)
        requires
            old(self).wf(),
            m.wf(),
        ensures
            final(self).wf(),
            same_setup(*final(self), *old(self)),
            turn_of(*final(self), actions) == turn(
                old(self)@,
                old(self).manager.repo_path@,
                event,
                m,
            ),
    {
        let mut actions: Vec<WatchAction> = Vec::new();
        assert(actions_view(actions@) =~= Seq::empty());
        match event {
            WatchEvent::Tick(start) => {
                self.harvest(start, m, &mut actions);
                self.start_tray(m, &mut actions);
                self.attempt(true, m, &mut actions);
                let waiting: bool = actions.len() > 0 && matches!(
                    actions[actions.len() - 1],
                    WatchAction::Sync
                );
                if !waiting {
                    self.reconcile(m, &mut actions);
                    self.refresh(m, &mut actions);
                }
            },
            WatchEvent::File(kind) => {
                if EventFilter::is_relevant_change(kind) {
                    self.scheduler.mark_file_event_at(m.now);
                }
            },
            WatchEvent::Periodic => {
                self.scheduler.request_sync_now_at(m.now);
                self.attempt(false, m, &mut actions);
            },
            WatchEvent::Command(command) => {
                self.obey(command, m, &mut actions);
            },
            WatchEvent::Bus => {
                if let Some(tray) = &mut self.tray {
                    tray.next_attempt = m.now;
                }
                self.start_tray(m, &mut actions);
            },
            WatchEvent::StateChanged => {
                self.reconcile(m, &mut actions);
                self.refresh(m, &mut actions);
            },
            WatchEvent::TrayGone => {
                if let Some(tray) = &mut self.tray {
                    tray.up = false;
                }
            },
            WatchEvent::SyncDone(result) => {
                self.conclude(&result, m, &mut actions);
            },
        }
        actions
    }

    /// A loop that starts at the given time.
    pub fn new_at(manager: WatchManager, now: u128) -> (l: WatchLoop)
        ensures
            l.wf(),
            l.manager == manager,
            l@ == fresh_loop(manager, now),
    {
        let scheduler: SyncScheduler = SyncScheduler::new_at(
            manager.watch_config.debounce_ms,
            manager.watch_config.min_interval_ms,
            now,
        );
        let tray: Option<TrayLink> = if manager.watch_config.enable_tray {
            Some(
                TrayLink {
                    state: TrayState::new(manager.repo_path.clone()),
                    up: false,
                    starting: false,
                    next_attempt: now,
                    last_sync_text: "Last sync: never".to_string(),
                },
            )
        } else {
            None
        };
        WatchLoop { manager, scheduler, tray, refresh_after_sync: false }
    }

    /// A loop that starts now.
    pub fn new(manager: WatchManager, clock: &Clock) -> (l: WatchLoop)
        ensures
            l.wf(),
            l.manager == manager,
            exists|now: u128| now < SPAN_LIMIT && l@ == #[trigger] fresh_loop(manager, now),
    {
        Self::new_at(manager, clock.now())
    }

    /// The present moment.
    pub fn moment(&self, clock: &Clock) -> (m: Moment)
        ensures
            m.wf(),
            in_calendar(m.wall.unix_secs),
            m.wall.nanos < 1000000000,
            m.wall_offset_secs matches Some(offset) && -86400 < offset < 86400,
            m.utc_offset_secs is Some <==> 0 < self@.progress.last_successful_sync_unix_secs
                <= LAST_SECOND,
            m.utc_offset_secs matches Some(offset) ==> -86400 < offset < 86400,
    {
        let now: u128 = clock.now();
        let wall: WallTime = wall_time();
        let wall_offset_secs: Option<i32> = match local_time_of(wall.unix_secs) {
            Some(t) => Some(t.utc_offset_secs),
            None => None,
        };
        let utc_offset_secs: Option<i32> =
            match self.manager.progress.latest_successful_sync_datetime() {
            Some(t) => Some(t.utc_offset_secs),
            None => None,
        };
        Moment { now, wall, wall_offset_secs, utc_offset_secs }
    }
}

impl WatchManager {
    /// Starts to watch.
    pub fn watch(self, clock: &Clock) -> (l: WatchLoop)
        ensures
            l.wf(),
            l.manager == self,
            exists|now: u128| now < SPAN_LIMIT && l@ == #[trigger] fresh_loop(self, now),
    {
        WatchLoop::new(self, clock)
    }
}

/// A loop that starts at the given time.
pub open spec fn fresh_loop(manager: WatchManager, now: u128) -> LoopModel {
    LoopModel {
        dry_run: manager.watch_config.dry_run,
        progress: manager.progress@,
        scheduler: SyncScheduler::made(
            manager.watch_config.debounce_ms,
            manager.watch_config.min_interval_ms,
            now,
        ),
        tray: if manager.watch_config.enable_tray {
            Some(
                TrayLink {
                    state: TrayState {
                        repo_path: manager.repo_path@,
                        display_name: None,
                        status: TrayStatus::Starting,
                        last_sync: None,
                        last_error: None,
                        paused: false,
                    },
                    up: false,
                    starting: false,
                    next_attempt: now,
                    last_sync_text: "Last sync: never"@,
                },
            )
        } else {
            None
        },
        refresh_after_sync: false,
    }
}

/// Whether no synchronization is among the actions.
pub open spec fn calm(actions: Seq<WatchAction<Seq<char>>>) -> bool {
    forall|i: int| 0 <= i < actions.len() ==> !(#[trigger] actions[i] is Sync)
}

/// Whether the actions are calm and nothing but the indicator is concerned.
proof fn indicator_work_is_calm(t: Turn, m: Moment, start: Option<TrayStart>)
    requires
        calm(t.1),
    ensures
        calm(showing(t).1),
        calm(reconciling(t, m).1),
        calm(refreshing(t, m).1),
        calm(harvesting(t, start, m).1),
        calm(starting_tray(t, m).1),
        harvesting(t, start, m).0.progress == t.0.progress,
        harvesting(t, start, m).0.dry_run == t.0.dry_run,
        harvesting(t, start, m).0.scheduler == t.0.scheduler,
        starting_tray(t, m).0.progress == t.0.progress,
        starting_tray(t, m).0.dry_run == t.0.dry_run,
        starting_tray(t, m).0.scheduler == t.0.scheduler,
{
}

proof fn conclusions_are_calm(t: Turn, result: Result<(), SyncError<Seq<char>>>, m: Moment)
    requires
        calm(t.1),
    ensures
        calm(noting(t, result, m).1),
        calm(concluding(t, result, m).1),
{
    assert forall|u: Turn| calm(u.1) implies calm(#[trigger] reconciling(u, m).1) by {
        indicator_work_is_calm(u, m, None);
    }
    assert forall|u: Turn| calm(u.1) implies calm(#[trigger] refreshing(u, m).1) by {
        indicator_work_is_calm(u, m, None);
    }
    assert forall|u: Turn| calm(u.1) implies calm(#[trigger] showing(u).1) by {
        indicator_work_is_calm(u, m, None);
    }
}

proof fn synchronizations_begin_only_where_allowed(t: Turn, refresh: bool, m: Moment)
    requires
        calm(t.1),
    ensures
        start_of(t.0.progress, t.0.dry_run) != SyncStart::Run ==> calm(
            synchronizing(t, refresh, m).1,
        ) && calm(attempting(t, refresh, m).1),
{
    assert forall|u: Turn| calm(u.1) implies calm(#[trigger] showing(u).1) by {
        indicator_work_is_calm(u, m, None);
    }
    assert forall|u: Turn| calm(u.1) implies calm(#[trigger] noting(u, Ok(()), m).1) by {
        conclusions_are_calm(u, Ok(()), m);
    }
    assert forall|u: Turn| calm(u.1) implies calm(#[trigger] concluding(u, Ok(()), m).1) by {
        conclusions_are_calm(u, Ok(()), m);
    }
}

/// Whatever happens, nothing is synchronized while synchronizations are suspended, while one is
/// under way, or in a dry run.
pub proof fn nothing_is_synchronized_unless_allowed(
    l: LoopModel,
    repo_path: Seq<char>,
    event: WatchEvent,
    m: Moment,
)
    requires
        l.progress.sync_suspended || l.progress.is_syncing || l.dry_run,
    ensures
        calm(turn(l, repo_path, event, m).1),
{
    let t = (l, Seq::<WatchAction<Seq<char>>>::empty());
    assert forall|u: Turn, start: Option<TrayStart>| calm(u.1) implies calm(
        (#[trigger] harvesting(u, start, m)).1,
    ) && harvesting(u, start, m).0.progress == u.0.progress && harvesting(
        u,
        start,
        m,
    ).0.dry_run == u.0.dry_run by {
        indicator_work_is_calm(u, m, start);
    }
    assert forall|u: Turn| calm(u.1) implies calm((#[trigger] starting_tray(u, m)).1)
        && starting_tray(u, m).0.progress == u.0.progress && starting_tray(u, m).0.dry_run
        == u.0.dry_run by {
        indicator_work_is_calm(u, m, None);
    }
    assert forall|u: Turn| calm(u.1) implies calm(#[trigger] reconciling(u, m).1) by {
        indicator_work_is_calm(u, m, None);
    }
    assert forall|u: Turn| calm(u.1) implies calm(#[trigger] refreshing(u, m).1) by {
        indicator_work_is_calm(u, m, None);
    }
    match event {
        WatchEvent::Tick(start) => {
            let u = starting_tray(harvesting(t, start, m), m);
            synchronizations_begin_only_where_allowed(u, true, m);
        },
        WatchEvent::Periodic => {
            let u = (LoopModel { scheduler: l.scheduler.requested(m.now), ..l }, t.1);
            synchronizations_begin_only_where_allowed(u, false, m);
        },
        WatchEvent::Command(command) => {
            synchronizations_begin_only_where_allowed(t, false, m);
        },
        WatchEvent::SyncDone(result) => {
            conclusions_are_calm(t, attempt(result), m);
        },
        _ => {},
    }
}

/// Nothing is synchronized without a reason: a change, a request or the interval.
pub proof fn nothing_is_synchronized_without_a_reason(
    l: LoopModel,
    repo_path: Seq<char>,
    event: WatchEvent,
    m: Moment,
)
    requires
        !l.scheduler.pending_sync,
        !(event is Periodic),
        !(event is Command),
    ensures
        calm(turn(l, repo_path, event, m).1),
{
    let t = (l, Seq::<WatchAction<Seq<char>>>::empty());
    assert forall|u: Turn| calm(u.1) implies calm(#[trigger] reconciling(u, m).1) by {
        indicator_work_is_calm(u, m, None);
    }
    assert forall|u: Turn| calm(u.1) implies calm(#[trigger] refreshing(u, m).1) by {
        indicator_work_is_calm(u, m, None);
    }
    assert forall|u: Turn| calm(u.1) implies calm(#[trigger] starting_tray(u, m).1) by {
        indicator_work_is_calm(u, m, None);
    }
    match event {
        WatchEvent::Tick(start) => {
            indicator_work_is_calm(t, m, start);
            indicator_work_is_calm(harvesting(t, start, m), m, None);
        },
        WatchEvent::SyncDone(result) => {
            conclusions_are_calm(t, attempt(result), m);
        },
        _ => {},
    }
}

/// Watching stops only where the user asks for it: whatever becomes of the indicator or of a
/// synchronization, it goes on.
pub proof fn watching_goes_on(l: LoopModel, repo_path: Seq<char>, event: WatchEvent, m: Moment)
    requires
        !(event matches WatchEvent::Command(TrayCommand::Quit)),
    ensures
        forall|i: int|
            0 <= i < turn(l, repo_path, event, m).1.len() ==> !(#[trigger] turn(
                l,
                repo_path,
                event,
                m,
            ).1[i] is Quit),
{
    let t = (l, Seq::<WatchAction<Seq<char>>>::empty());
    assert forall|u: Turn, start: Option<TrayStart>| stays(u.1) implies stays(
        #[trigger] harvesting(u, start, m).1,
    ) by {}
    assert forall|u: Turn| stays(u.1) implies stays(#[trigger] starting_tray(u, m).1) by {}
    assert forall|u: Turn, r: bool| stays(u.1) implies stays(
        #[trigger] synchronizing(u, r, m).1,
    ) by {
        synchronizing_stays(u, r, m);
    }
    assert forall|u: Turn| stays(u.1) implies stays(#[trigger] reconciling(u, m).1) by {}
    assert forall|u: Turn| stays(u.1) implies stays(#[trigger] refreshing(u, m).1) by {}
    if let WatchEvent::SyncDone(result) = event {
        concluding_stays(t, attempt(result), m);
    }
    assert(stays(t.1));
    assert(stays(turn(l, repo_path, event, m).1));
}

/// Whether no end of watching is among the actions.
pub open spec fn stays(actions: Seq<WatchAction<Seq<char>>>) -> bool {
    forall|i: int| 0 <= i < actions.len() ==> !(#[trigger] actions[i] is Quit)
}

proof fn concluding_stays(t: Turn, result: Result<(), SyncError<Seq<char>>>, m: Moment)
    requires
        stays(t.1),
    ensures
        stays(noting(t, result, m).1),
        stays(concluding(t, result, m).1),
{
    assert forall|u: Turn| stays(u.1) implies stays(#[trigger] reconciling(u, m).1) by {}
    assert forall|u: Turn| stays(u.1) implies stays(#[trigger] refreshing(u, m).1) by {}
    assert forall|u: Turn| stays(u.1) implies stays(#[trigger] showing(u).1) by {}
}

proof fn synchronizing_stays(t: Turn, refresh: bool, m: Moment)
    requires
        stays(t.1),
    ensures
        stays(synchronizing(t, refresh, m).1),
{
    assert forall|u: Turn| stays(u.1) implies stays(#[trigger] showing(u).1) by {}
    assert forall|u: Turn| stays(u.1) implies stays(#[trigger] noting(u, Ok(()), m).1) by {
        concluding_stays(u, Ok(()), m);
    }
    assert forall|u: Turn| stays(u.1) implies stays(#[trigger] concluding(u, Ok(()), m).1) by {
        concluding_stays(u, Ok(()), m);
    }
}

} // verus!
