//! What the watching loop does about each thing that happens.

use crate::clock::LocalTime;
use crate::error::{message_of, SyncError};
use crate::path;
use crate::text_laws::{containing_is_having_in_between, mentions};
use crate::tray::state::{last_sync_words, TrayCommand, TrayStatus};
use crate::watch::control::{
    fresh_loop, turn, LoopModel, Moment, TrayLink, TrayStart, WatchAction, WatchEvent,
};
use crate::watch::WatchManager;
use crate::watch::filter::ChangeKind;
use crate::watch::scheduler::free_to_try;
use vstd::prelude::*;

verus! {

/// Whether a synchronization is among the actions.
pub open spec fn synchronizes(actions: Seq<WatchAction<Seq<char>>>) -> bool {
    exists|i: int| 0 <= i < actions.len() && (#[trigger] actions[i]) is Sync
}

/// A change of files is noted as a reason to synchronize, with its time, and nothing else happens;
/// what is only read makes no difference.
pub proof fn changes_of_files_are_noted(
    l: LoopModel,
    repo_path: Seq<char>,
    kind: ChangeKind,
    m: Moment,
)
    ensures
        kind == ChangeKind::Other ==> turn(l, repo_path, WatchEvent::File(kind), m).0 == l,
        kind != ChangeKind::Other ==> {
            let after = turn(l, repo_path, WatchEvent::File(kind), m).0;
            &&& after.scheduler.pending_sync
            &&& after.scheduler.last_event == Some(m.now)
            &&& l.scheduler.first_event is None ==> after.scheduler.first_event == Some(m.now)
            &&& l.scheduler.first_event is Some ==> after.scheduler.first_event
                == l.scheduler.first_event
            &&& after.progress == l.progress && after.tray == l.tray && after.dry_run == l.dry_run
        },
        turn(l, repo_path, WatchEvent::File(kind), m).1.len() == 0,
{
}

/// What is due is synchronized at the next look, unless synchronizations are put off or one is
/// under way; it is under way from then on, and that is shown before it begins.
pub proof fn what_is_due_is_synchronized(l: LoopModel, repo_path: Seq<char>, m: Moment)
    requires
        l.scheduler.due(m.now),
        !l.progress.sync_suspended,
        !l.progress.is_syncing,
        !l.dry_run,
    ensures
        ({
            let (after, actions) = turn(l, repo_path, WatchEvent::Tick(None), m);
            &&& actions.len() > 0 && actions.last() is Sync
            &&& after.progress.is_syncing
            &&& after.progress.last_sync_error == l.progress.last_sync_error
            &&& after.scheduler == l.scheduler
            &&& l.tray is None ==> actions.len() == 1 && after.tray is None
            &&& l.tray matches Some(tray) ==> (after.tray matches Some(t) && t.state.status
                == TrayStatus::<Seq<char>>::Syncing && (tray.up ==> actions.len() == 2 && actions[0]
                == WatchAction::<Seq<char>>::ShowTray(t.state)))
        }),
{
}

/// Where the interval has passed, a synchronization is asked for: it begins at once where the
/// shortest interval has passed and no failure forbids it, and is remembered otherwise.
pub proof fn intervals_ask_for_synchronizations(l: LoopModel, repo_path: Seq<char>, m: Moment)
    ensures
        !l.progress.sync_suspended && !l.progress.is_syncing && !l.dry_run && m.now
            >= l.scheduler.last_sync + l.scheduler.min_interval && free_to_try(l.scheduler, m.now)
            ==> ({
            let (after, actions) = turn(l, repo_path, WatchEvent::Periodic, m);
            actions.len() > 0 && actions.last() is Sync && after.progress.is_syncing
        }),
        !free_to_try(l.scheduler, m.now) || (l.scheduler.min_interval > 0 && m.now
            < l.scheduler.last_sync + l.scheduler.min_interval) || l.progress.is_syncing ==> ({
            let (after, actions) = turn(l, repo_path, WatchEvent::Periodic, m);
            actions.len() == 0 && after.scheduler.pending_sync
                && after.scheduler.immediate_requested && after.progress == l.progress
        }),
{
}

/// What is not due is not synchronized, however often it is looked.
pub proof fn what_is_not_due_waits(l: LoopModel, repo_path: Seq<char>, m: Moment)
    requires
        !l.scheduler.due(m.now),
    ensures
        ({
            let (after, actions) = turn(l, repo_path, WatchEvent::Tick(None), m);
            !synchronizes(actions) && after.progress == l.progress && after.scheduler == l.scheduler
        }),
{
}

/// In a dry run what is due counts as done, without a synchronization.
pub proof fn dry_runs_only_count(l: LoopModel, repo_path: Seq<char>, m: Moment)
    requires
        l.scheduler.due(m.now),
        !l.progress.sync_suspended,
        !l.progress.is_syncing,
        l.dry_run,
        l.tray is None,
    ensures
        ({
            let (after, actions) = turn(l, repo_path, WatchEvent::Tick(None), m);
            &&& actions.len() == 0
            &&& !after.progress.is_syncing
            &&& after.progress.last_successful_sync_unix_secs == m.wall.unix_secs
            &&& after.progress.last_sync_error is None
            &&& !after.scheduler.pending_sync
            &&& after.scheduler.last_sync == m.now
        }),
{
}

/// While synchronizations are put off, what is due stays due: it is neither done nor forgotten.
pub proof fn what_is_put_off_stays_due(l: LoopModel, repo_path: Seq<char>, m: Moment)
    requires
        l.progress.sync_suspended,
    ensures
        ({
            let (after, actions) = turn(l, repo_path, WatchEvent::Tick(None), m);
            !synchronizes(actions) && after.scheduler == l.scheduler && after.progress == l.progress
        }),
        ({
            let (after, actions) = turn(l, repo_path, WatchEvent::Periodic, m);
            !synchronizes(actions) && after.scheduler.pending_sync && after.progress == l.progress
        }),
{
}

/// A synchronization that went well is over, noted with its time; nothing is pending, and the
/// indicator shows that nothing is going on.
pub proof fn successes_are_noted(l: LoopModel, repo_path: Seq<char>, m: Moment)
    ensures
        ({
            let (after, actions) = turn(l, repo_path, WatchEvent::SyncDone(Ok(())), m);
            &&& !after.progress.is_syncing
            &&& after.progress.last_sync_error is None
            &&& after.progress.last_successful_sync_unix_secs == m.wall.unix_secs
            &&& after.progress.sync_suspended == l.progress.sync_suspended
            &&& !after.scheduler.pending_sync
            &&& after.scheduler.last_sync == m.now
            &&& after.scheduler.next_retry_at is None
            &&& !synchronizes(actions)
            &&& l.tray is Some ==> (after.tray matches Some(t) && t.state.status
                == TrayStatus::<Seq<char>>::Idle && t.state.last_error is None)
        }),
{
}

/// A synchronization that failed is over, noted with its message; it is pending still, not before
/// its delay, and the indicator shows the message.
pub proof fn failures_are_noted(l: LoopModel, repo_path: Seq<char>, e: SyncError, m: Moment)
    requires
        l.scheduler.wf(),
        m.wf(),
        !l.progress.sync_suspended,
    ensures
        ({
            let (after, actions) = turn(l, repo_path, WatchEvent::SyncDone(Err(e)), m);
            &&& !after.progress.is_syncing
            &&& after.progress.last_sync_error == Some(message_of(e@))
            &&& after.progress.last_successful_sync_unix_secs
                == l.progress.last_successful_sync_unix_secs
            &&& after.scheduler.pending_sync
            &&& after.scheduler.last_sync == m.now
            &&& after.scheduler.next_retry_at matches Some(at) && at > m.now
            &&& !synchronizes(actions)
            &&& l.tray matches Some(tray) ==> (after.tray matches Some(t) && t.state.status
                == TrayStatus::<Seq<char>>::Error(message_of(e@)) && t.state.last_error == Some(
                message_of(e@),
            ) && (tray.up ==> exists|i: int|
                0 <= i < actions.len() && (#[trigger] actions[i]) is ShowTray))
        }),
{
    let (after, actions) = turn(l, repo_path, WatchEvent::SyncDone(Err(e)), m);
    if let Some(tray) = l.tray {
        if tray.up {
            assert(actions[0] is ShowTray);
        }
    }
}

/// Putting synchronizations off and taking them up again is noted, and the indicator shows it; what
/// is pending stays pending. A command for one repository is for that one alone.
pub proof fn synchronizations_can_be_put_off(
    l: LoopModel,
    repo_path: Seq<char>,
    other: String,
    here: String,
    m: Moment,
)
    requires
        !path::same_place(other@, repo_path),
        path::same_place(here@, repo_path),
    ensures
        ({
            let put_off = |command: TrayCommand|
                turn(l, repo_path, WatchEvent::Command(command), m).0;
            let shows = |after: LoopModel, suspended: bool|
                after.progress.sync_suspended == suspended && after.progress.is_syncing
                    == l.progress.is_syncing && after.scheduler == l.scheduler && (l.tray is Some
                    ==> after.tray is Some && after.tray->0.state.paused == suspended);
            &&& shows(put_off(TrayCommand::Suspend), true)
            &&& shows(put_off(TrayCommand::SuspendAll), true)
            &&& shows(put_off(TrayCommand::SuspendRepository(here)), true)
            &&& shows(put_off(TrayCommand::Resume), false)
            &&& shows(put_off(TrayCommand::ResumeAll), false)
            &&& shows(put_off(TrayCommand::ResumeRepository(here)), false)
            &&& put_off(TrayCommand::SuspendRepository(other)) == l
            &&& put_off(TrayCommand::ResumeRepository(other)) == l
            &&& put_off(TrayCommand::SyncRepository(other)) == l
        }),
{
}

/// A synchronization that the user asks for begins at once, whatever the scheduler says, unless
/// they are put off or one is under way.
pub proof fn users_need_not_wait(
    l: LoopModel,
    repo_path: Seq<char>,
    here: String,
    m: Moment,
)
    requires
        path::same_place(here@, repo_path),
        !l.progress.sync_suspended,
        !l.progress.is_syncing,
        !l.dry_run,
        l.tray matches Some(tray) ==> !tray.state.paused,
    ensures
        ({
            let begins = |command: TrayCommand|
                {
                    let (after, actions) = turn(l, repo_path, WatchEvent::Command(command), m);
                    actions.len() > 0 && actions.last() is Sync && after.progress.is_syncing
                };
            &&& begins(TrayCommand::SyncNow)
            &&& begins(TrayCommand::SyncAll)
            &&& begins(TrayCommand::SyncRepository(here))
        }),
{
}

/// Quitting is the last thing that is done; an indicator that is shown is stopped before.
pub proof fn quitting_comes_last(l: LoopModel, repo_path: Seq<char>, m: Moment)
    ensures
        ({
            let (after, actions) = turn(
                l,
                repo_path,
                WatchEvent::Command(TrayCommand::Quit),
                m,
            );
            let shown = l.tray is Some && l.tray->0.up;
            &&& after == l
            &&& shown ==> actions == seq![
                WatchAction::<Seq<char>>::StopTray,
                WatchAction::<Seq<char>>::Quit,
            ]
            &&& !shown ==> actions == seq![WatchAction::<Seq<char>>::Quit]
        }),
{
    let (after, actions) = turn(l, repo_path, WatchEvent::Command(TrayCommand::Quit), m);
    if l.tray is Some && l.tray->0.up {
        assert(actions =~= seq![
            WatchAction::<Seq<char>>::StopTray,
            WatchAction::<Seq<char>>::Quit,
        ]);
    } else {
        assert(actions =~= seq![WatchAction::<Seq<char>>::Quit]);
    }
}

/// An indicator that is neither shown nor being started is started once it is time, and not before;
/// it is started with what it is to show. Activity on the session bus makes it time.
pub proof fn indicators_are_started_when_it_is_time(
    l: LoopModel,
    tray: TrayLink<Seq<char>>,
    repo_path: Seq<char>,
    m: Moment,
)
    requires
        l.tray == Some(tray),
        !l.scheduler.due(m.now),
    ensures
        ({
            let (after, actions) = turn(l, repo_path, WatchEvent::Tick(None), m);
            let start = exists|i: int|
                0 <= i < actions.len() && (#[trigger] actions[i]) is StartTray;
            &&& start <==> !tray.up && !tray.starting && m.now >= tray.next_attempt
            &&& start ==> actions[0] == WatchAction::<Seq<char>>::StartTray(tray.state)
                && after.tray is Some && after.tray->0.starting
        }),
        ({
            let (after, actions) = turn(l, repo_path, WatchEvent::Bus, m);
            &&& !tray.up && !tray.starting ==> actions == seq![
                WatchAction::<Seq<char>>::StartTray(tray.state),
            ] && after.tray is Some && after.tray->0.starting
            &&& tray.up || tray.starting ==> actions.len() == 0
            &&& after.tray is Some && after.tray->0.state == tray.state && after.tray->0.up
                == tray.up
            &&& after.progress == l.progress && after.scheduler == l.scheduler
        }),
{
    let (after, actions) = turn(l, repo_path, WatchEvent::Tick(None), m);
    if !tray.up && !tray.starting && m.now >= tray.next_attempt {
        assert(actions[0] is StartTray);
        let (bus, started) = turn(l, repo_path, WatchEvent::Bus, m);
        assert(started =~= seq![WatchAction::<Seq<char>>::StartTray(tray.state)]);
    }
    let (bus, started) = turn(l, repo_path, WatchEvent::Bus, m);
    if !tray.up && !tray.starting {
        assert(started =~= seq![WatchAction::<Seq<char>>::StartTray(tray.state)]);
    }
}

/// An attempt to start the indicator that succeeded shows it; one that failed is followed by
/// another, after a second where there was nowhere to show it or its watcher was not there yet, and
/// after a quarter of a minute otherwise.
pub proof fn indicators_are_started_again(
    l: LoopModel,
    tray: TrayLink<Seq<char>>,
    repo_path: Seq<char>,
    report: String,
    m: Moment,
)
    requires
        l.tray == Some(tray),
        tray.starting,
        !tray.up,
        m.wf(),
        !l.scheduler.due(m.now),
    ensures
        ({
            let ended = |start: TrayStart|
                turn(l, repo_path, WatchEvent::Tick(Some(start)), m).0.tray->0;
            let again = |start: TrayStart, delay: u128|
                !ended(start).up && !ended(start).starting && ended(start).next_attempt == m.now
                    + delay;
            &&& ended(TrayStart::Up).up && !ended(TrayStart::Up).starting
            &&& again(TrayStart::WontShow, 1000000000)
            &&& again(TrayStart::Failed, 15000000000)
            &&& mentions(report@, "UnknownObject"@) ==> again(
                TrayStart::Watcher(report),
                1000000000,
            )
            &&& !mentions(report@, "UnknownObject"@) ==> again(
                TrayStart::Watcher(report),
                15000000000,
            )
        }),
{
    containing_is_having_in_between(report@, "UnknownObject"@);
}

/// An indicator that did not take its state is not shown any more. One that is to be started anew is
/// given up or stopped, and started again a second later.
pub proof fn indicators_can_be_lost(
    l: LoopModel,
    tray: TrayLink<Seq<char>>,
    repo_path: Seq<char>,
    reason: String,
    m: Moment,
)
    requires
        l.tray == Some(tray),
        m.wf(),
    ensures
        ({
            let (after, actions) = turn(l, repo_path, WatchEvent::TrayGone, m);
            actions.len() == 0 && after.tray is Some && !after.tray->0.up && after.progress
                == l.progress && after.scheduler == l.scheduler
        }),
        ({
            let (after, actions) = turn(
                l,
                repo_path,
                WatchEvent::Command(TrayCommand::Respawn { reason }),
                m,
            );
            &&& after.tray is Some && !after.tray->0.up && !after.tray->0.starting
            &&& after.tray->0.next_attempt == m.now + 1000000000
            &&& after.progress == l.progress && after.scheduler == l.scheduler
            &&& tray.up ==> actions.len() > 0 && actions.last() is StopTray
            &&& tray.starting ==> actions.len() > 0 && actions[0] is AbortTrayStart
            &&& !tray.up && !tray.starting ==> actions.len() == 0
        }),
{
}

/// The indicator shows how things are: whether synchronizations are put off, and while they are
/// not, whether one is under way or why the last one failed; and when one last went well. Where it
/// is shown and that has changed, it is told.
pub proof fn indicators_show_how_things_are(
    l: LoopModel,
    tray: TrayLink<Seq<char>>,
    repo_path: Seq<char>,
    offset: i32,
    m: Moment,
)
    requires
        l.tray == Some(tray),
    ensures
        ({
            let (after, actions) = turn(l, repo_path, WatchEvent::StateChanged, m);
            let p = l.progress;
            let state = after.tray->0.state;
            &&& after.tray is Some
            &&& state.paused == p.sync_suspended
            &&& !p.sync_suspended && p.is_syncing ==> state.status
                == TrayStatus::<Seq<char>>::Syncing && state.last_error is None
            &&& !p.sync_suspended && !p.is_syncing && p.last_sync_error is None ==> state.status
                == TrayStatus::<Seq<char>>::Idle && state.last_error is None
            &&& !p.sync_suspended && !p.is_syncing && p.last_sync_error is Some ==> state.status
                == TrayStatus::<Seq<char>>::Error(p.last_sync_error->0) && state.last_error
                == p.last_sync_error
            &&& p.sync_suspended ==> state.status == tray.state.status && state.last_error
                == tray.state.last_error
            &&& p.last_successful_sync_unix_secs <= 0 ==> state.last_sync is None
            &&& p.last_successful_sync_unix_secs > 0 && p.last_successful_sync_unix_secs
                != m.wall.unix_secs && m.utc_offset_secs == Some(offset) && (LocalTime {
                unix_secs: p.last_successful_sync_unix_secs,
                utc_offset_secs: offset,
            }).wf() ==> state.last_sync == Some(
                LocalTime {
                    unix_secs: p.last_successful_sync_unix_secs,
                    utc_offset_secs: offset,
                },
            )
            &&& state.repo_path == tray.state.repo_path && state.display_name
                == tray.state.display_name
            &&& tray.up && state != tray.state ==> actions.len() > 0 && actions[0]
                == WatchAction::<Seq<char>>::ShowTray(state)
            &&& after.tray->0.last_sync_text == last_sync_words(state.last_sync, m.wall)
            &&& after.progress == l.progress && after.scheduler == l.scheduler
        }),
{
}

/// Without an indicator none is started, shown or stopped.
pub proof fn there_may_be_no_indicator(
    l: LoopModel,
    repo_path: Seq<char>,
    start: Option<TrayStart>,
    kind: ChangeKind,
    m: Moment,
)
    requires
        l.tray is None,
    ensures
        ({
            let quiet = |event: WatchEvent|
                {
                    let (after, actions) = turn(l, repo_path, event, m);
                    after.tray is None && forall|i: int|
                        0 <= i < actions.len() ==> (#[trigger] actions[i]) is Sync
                };
            &&& quiet(WatchEvent::Tick(start))
            &&& quiet(WatchEvent::Periodic)
            &&& quiet(WatchEvent::File(kind))
            &&& quiet(WatchEvent::Bus)
            &&& quiet(WatchEvent::StateChanged)
            &&& quiet(WatchEvent::TrayGone)
            &&& quiet(WatchEvent::SyncDone(Ok(())))
            &&& quiet(WatchEvent::Command(TrayCommand::SyncNow))
        }),
{
}

/// A loop begins with nothing to do, by the times of its configuration and counted from the
/// beginning; with an indicator where one is asked for, to be started at once.
pub proof fn loops_begin_with_nothing_to_do(manager: WatchManager, now: u128)
    ensures
        ({
            let l = fresh_loop(manager, now);
            let config = manager.watch_config;
            &&& l.dry_run == config.dry_run
            &&& l.progress == manager.progress@
            &&& !l.scheduler.pending_sync && l.scheduler.last_sync == now
            &&& l.scheduler.debounce == config.debounce_ms * 1000000
            &&& l.scheduler.min_interval == config.min_interval_ms * 1000000
            &&& l.tray is Some <==> config.enable_tray
            &&& l.tray matches Some(tray) ==> !tray.up && !tray.starting && tray.next_attempt == now
                && tray.state.repo_path == manager.repo_path@ && tray.state.status
                == TrayStatus::<Seq<char>>::Starting && tray.state.last_sync is None
                && tray.state.last_error is None && !tray.state.paused
        }),
{
}

/// Asking for a synchronization does nothing where the user sees that they are put off. Where one
/// is under way, it counts for what was asked for: none is begun, and nothing is pending.
pub proof fn asking_twice_is_asking_once(l: LoopModel, repo_path: Seq<char>, m: Moment)
    ensures
        ({
            let (after, actions) = turn(
                l,
                repo_path,
                WatchEvent::Command(TrayCommand::SyncNow),
                m,
            );
            let paused = if l.tray is Some {
                l.tray->0.state.paused
            } else {
                l.progress.sync_suspended
            };
            &&& paused || l.progress.sync_suspended ==> after == l && actions.len() == 0
            &&& !paused && !l.progress.sync_suspended && l.progress.is_syncing ==> !synchronizes(
                actions,
            ) && after.progress == l.progress && !after.scheduler.pending_sync
                && after.scheduler.last_sync == m.now
        }),
{
}

/// What is shown of the last synchronization is brought up to date once one that began at a look is
/// over; how it began is not remembered any longer.
pub proof fn the_last_synchronization_is_shown(
    l: LoopModel,
    tray: TrayLink<Seq<char>>,
    repo_path: Seq<char>,
    e: SyncError,
    m: Moment,
)
    requires
        l.tray == Some(tray),
    ensures
        ({
            let well = turn(l, repo_path, WatchEvent::SyncDone(Ok(())), m).0;
            let badly = turn(l, repo_path, WatchEvent::SyncDone(Err(e)), m).0;
            let words = |after: LoopModel| last_sync_words(after.tray->0.state.last_sync, m.wall);
            &&& !well.refresh_after_sync && !badly.refresh_after_sync
            &&& l.refresh_after_sync ==> well.tray->0.last_sync_text == words(well)
            &&& l.refresh_after_sync ==> badly.tray->0.last_sync_text == words(badly)
            &&& !l.refresh_after_sync ==> well.tray->0.last_sync_text == tray.last_sync_text
            &&& !l.refresh_after_sync ==> badly.tray->0.last_sync_text == tray.last_sync_text
            &&& well.tray->0.up == tray.up && well.tray->0.starting == tray.starting
            &&& badly.tray->0.up == tray.up && badly.tray->0.starting == tray.starting
            &&& well.tray->0.state.paused == l.progress.sync_suspended
            &&& m.wall_offset_secs is Some && m.wall.unix_secs > 0 && (LocalTime {
                unix_secs: m.wall.unix_secs,
                utc_offset_secs: m.wall_offset_secs->0,
            }).wf() ==> well.tray->0.state.last_sync == Some(
                LocalTime {
                    unix_secs: m.wall.unix_secs,
                    utc_offset_secs: m.wall_offset_secs->0,
                },
            )
        }),
        l.scheduler.due(m.now) && !l.progress.sync_suspended && !l.progress.is_syncing && !l.dry_run
            ==> turn(l, repo_path, WatchEvent::Tick(None), m).0.refresh_after_sync,
{
}

/// Whoever looks at the indicator sees a change as soon as there is one: where its state changes
/// while it is shown, it is told the new one.
pub proof fn indicators_that_are_up_are_told(
    l: LoopModel,
    tray: TrayLink<Seq<char>>,
    repo_path: Seq<char>,
    suspended: bool,
    m: Moment,
)
    requires
        l.tray == Some(tray),
        tray.up,
    ensures
        ({
            let command = if suspended {
                TrayCommand::Suspend
            } else {
                TrayCommand::Resume
            };
            let told = |event: WatchEvent|
                {
                    let (after, actions) = turn(l, repo_path, event, m);
                    after.tray->0.state != tray.state ==> actions.contains(
                        WatchAction::<Seq<char>>::ShowTray(after.tray->0.state),
                    )
                };
            &&& told(WatchEvent::Command(command))
            &&& told(WatchEvent::StateChanged)
            &&& !l.scheduler.due(m.now) ==> told(WatchEvent::Tick(None))
        }),
{
    let command = if suspended {
        TrayCommand::Suspend
    } else {
        TrayCommand::Resume
    };
    let (a, first) = turn(l, repo_path, WatchEvent::Command(command), m);
    if a.tray->0.state != tray.state {
        assert(first[0] == WatchAction::<Seq<char>>::ShowTray(a.tray->0.state));
    }
    let (b, second) = turn(l, repo_path, WatchEvent::StateChanged, m);
    if b.tray->0.state != tray.state {
        assert(second[0] == WatchAction::<Seq<char>>::ShowTray(b.tray->0.state));
    }
    let (c, third) = turn(l, repo_path, WatchEvent::Tick(None), m);
    if !l.scheduler.due(m.now) && c.tray->0.state != tray.state {
        assert(third[0] == WatchAction::<Seq<char>>::ShowTray(c.tray->0.state));
    }
}

} // verus!
