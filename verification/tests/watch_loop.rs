use git_sync_rs::clock::{local_time_of, WallTime};
use git_sync_rs::tray::state::{TrayCommand, TrayStatus};
use git_sync_rs::watch::bus::{parse_dbus_unix_path, touches_socket};
use git_sync_rs::watch::control::{Moment, TrayStart, WatchAction, WatchEvent, WatchLoop};
use git_sync_rs::watch::filter::{ChangeKind, EventFilter, FileEvent};
use git_sync_rs::watch::scheduler::Clock;
use git_sync_rs::watch::SyncStart;
use git_sync_rs::{
    watch_with_periodic_sync, SyncConfig, SyncError, WatchConfig, WatchManager,
};

const SECOND: u128 = 1_000_000_000;

fn moment(now: u128) -> Moment {
    Moment {
        now,
        wall: WallTime {
            unix_secs: 1_000_000 + (now / SECOND) as i64,
            nanos: 0,
        },
        wall_offset_secs: Some(0),
        utc_offset_secs: Some(0),
    }
}

fn watching(tray: bool) -> WatchLoop {
    let manager = WatchManager::new(
        "/repo",
        SyncConfig::default(),
        WatchConfig {
            enable_tray: tray,
            ..WatchConfig::default()
        },
    );
    WatchLoop::new_at(manager, 0)
}

fn names(actions: &[WatchAction]) -> Vec<&'static str> {
    actions
        .iter()
        .map(|action| match action {
            WatchAction::Sync => "sync",
            WatchAction::StartTray(_) => "start",
            WatchAction::AbortTrayStart => "abort",
            WatchAction::ShowTray(_) => "show",
            WatchAction::StopTray => "stop",
            WatchAction::Quit => "quit",
        })
        .collect()
}

#[test]
fn parse_dbus_unix_path_finds_path_with_extra_parameters() {
    let address =
        "unix:abstract=/tmp/dbus-XXXX,guid=abcdef;unix:path=/tmp/dbus-test-socket,guid=1234";
    let parsed = parse_dbus_unix_path(address);
    assert_eq!(parsed.as_deref(), Some("/tmp/dbus-test-socket"));
}

#[test]
fn parse_dbus_unix_path_ignores_malformed_parts() {
    let address = "unix:guid=abc,broken,other=123,another;unix:path=/tmp/dbus-test";
    let parsed = parse_dbus_unix_path(address);
    assert_eq!(parsed.as_deref(), Some("/tmp/dbus-test"));
}

#[test]
fn addresses_without_a_socket_have_no_path() {
    assert_eq!(parse_dbus_unix_path(""), None);
    assert_eq!(parse_dbus_unix_path("tcp:path=/x"), None);
    assert_eq!(parse_dbus_unix_path("unix:path="), None);
    assert_eq!(
        parse_dbus_unix_path("unix:path=/a=b;unix:path=/c").as_deref(),
        Some("/a=b")
    );
}

#[test]
fn the_socket_is_recognized() {
    let paths = |p: &str| vec![p.to_string()];
    assert!(touches_socket("/run/bus", &paths("/run//bus")));
    assert!(touches_socket("/run/bus", &paths("/elsewhere/bus")));
    assert!(!touches_socket("/run/bus", &paths("/run/other")));
    assert!(!touches_socket("/run/bus", &Vec::new()));
}

#[test]
fn perform_sync_is_noop_when_suspended() {
    let mut manager = WatchManager::new(
        "/tmp/not-a-repo",
        SyncConfig::default(),
        WatchConfig::default(),
    );
    manager.progress.set_sync_suspended(true);

    assert_eq!(manager.progress.begin_sync(false), SyncStart::Skip);

    assert_eq!(manager.progress.last_successful_sync_unix_secs, 0);
    assert!(!manager.progress.is_syncing);
    assert_eq!(manager.begin_initial_sync(), SyncStart::Skip);
    manager.progress.set_sync_suspended(false);
    assert_eq!(manager.begin_initial_sync(), SyncStart::Run);
    assert!(manager.progress.is_syncing);
    manager
        .progress
        .finish_sync(&Err(SyncError::NetworkError("down".to_string())), 7);
    assert_eq!(
        manager.progress.last_sync_error.as_deref(),
        Some("Network error: down")
    );
    assert_eq!(manager.progress.last_successful_sync_unix_secs, 0);
    assert_eq!(manager.progress.begin_sync(true), SyncStart::Pretend);
    manager.progress.finish_sync(&Ok(()), 8);
    assert_eq!(manager.progress.last_successful_sync_unix_secs, 8);
    assert!(manager.progress.last_sync_error.is_none());
    assert_eq!(manager.progress.sync_state_change_seq, 6);
    let shown = manager.progress.latest_successful_sync_datetime().unwrap();
    assert_eq!(shown.unix_secs, 8);
    manager.progress.last_successful_sync_unix_secs = -1;
    assert!(manager.progress.latest_successful_sync_datetime().is_none());
    manager.progress.last_successful_sync_unix_secs = i64::MAX;
    assert!(manager.progress.latest_successful_sync_datetime().is_none());
}

#[test]
fn only_changes_inside_the_repository_count() {
    let event = |kind: ChangeKind, path: &str| FileEvent {
        kind,
        paths: vec![path.to_string()],
    };
    let counts = |event: &FileEvent, ignored: bool| {
        EventFilter::should_process_event("/repo/", event, &Some(vec![ignored]))
    };
    assert!(counts(&event(ChangeKind::Create, "/repo/a.txt"), false));
    assert!(counts(&event(ChangeKind::Modify, "/repo/a.txt"), false));
    assert!(counts(&event(ChangeKind::Remove, "/repo/a.txt"), false));
    assert!(!counts(&event(ChangeKind::Other, "/repo/a.txt"), false));
    assert!(!counts(&event(ChangeKind::Modify, "/repo/a.log"), true));
    assert!(!counts(&event(ChangeKind::Modify, "/repo/.git/index"), false));
    assert!(!counts(&event(ChangeKind::Modify, "/elsewhere/a.txt"), false));
    assert!(counts(&event(ChangeKind::Modify, "/repo/.gitignore"), false));
    assert!(!EventFilter::should_process_event(
        "/repo",
        &event(ChangeKind::Modify, "/repo/a.txt"),
        &None
    ));
}

#[test]
fn changes_are_synchronized_once_they_are_at_rest() {
    let mut watch = watching(false);
    assert!(watch
        .handle(WatchEvent::File(ChangeKind::Modify), moment(2 * SECOND))
        .is_empty());
    assert!(watch
        .handle(WatchEvent::Tick(None), moment(2 * SECOND + 1))
        .is_empty());
    let actions = watch.handle(WatchEvent::Tick(None), moment(3 * SECOND));
    assert_eq!(names(&actions), vec!["sync"]);
    assert!(watch.manager.progress.is_syncing);
    // Nothing else begins while that is under way.
    assert!(watch
        .handle(WatchEvent::Periodic, moment(4 * SECOND))
        .is_empty());
    let failed = WatchEvent::SyncDone(Err(SyncError::DetachedHead));
    assert!(watch.handle(failed, moment(5 * SECOND)).is_empty());
    assert!(!watch.manager.progress.is_syncing);
    // It is tried again, but not right away.
    assert!(watch
        .handle(WatchEvent::Tick(None), moment(9 * SECOND))
        .is_empty());
    let actions = watch.handle(WatchEvent::Tick(None), moment(10 * SECOND));
    assert_eq!(names(&actions), vec!["sync"]);
    assert!(watch
        .handle(WatchEvent::SyncDone(Ok(())), moment(11 * SECOND))
        .is_empty());
    assert!(watch
        .handle(WatchEvent::Tick(None), moment(100 * SECOND))
        .is_empty());
    assert!(watch
        .handle(WatchEvent::File(ChangeKind::Other), moment(100 * SECOND))
        .is_empty());
    assert!(watch
        .handle(WatchEvent::Tick(None), moment(200 * SECOND))
        .is_empty());
}

#[test]
fn a_dry_run_synchronizes_nothing() {
    let mut watch = watching(false);
    watch.manager.watch_config.dry_run = true;
    assert!(watch
        .handle(WatchEvent::Periodic, moment(5 * SECOND))
        .is_empty());
    assert_eq!(
        watch.manager.progress.last_successful_sync_unix_secs,
        1_000_005
    );
    assert!(!watch.scheduler.pending_sync);
}

#[test]
fn the_indicator_is_started_again_where_it_fails() {
    let mut watch = watching(true);
    let actions = watch.handle(WatchEvent::Tick(None), moment(0));
    assert_eq!(names(&actions), vec!["start"]);
    // While it is being started, it is not started again.
    assert!(watch
        .handle(WatchEvent::Tick(None), moment(1))
        .is_empty());
    let failed = WatchEvent::Tick(Some(TrayStart::Failed));
    assert!(watch.handle(failed, moment(SECOND)).is_empty());
    assert!(watch
        .handle(WatchEvent::Tick(None), moment(15 * SECOND))
        .is_empty());
    let actions = watch.handle(WatchEvent::Tick(None), moment(16 * SECOND));
    assert_eq!(names(&actions), vec!["start"]);
    let soon = WatchEvent::Tick(Some(TrayStart::Watcher("UnknownObject(..)".to_string())));
    assert!(watch.handle(soon, moment(17 * SECOND)).is_empty());
    let actions = watch.handle(WatchEvent::Tick(None), moment(18 * SECOND));
    assert_eq!(names(&actions), vec!["start"]);
    let wont_show = WatchEvent::Tick(Some(TrayStart::WontShow));
    assert!(watch.handle(wont_show, moment(19 * SECOND)).is_empty());
    // Activity on the bus is a reason to try at once.
    let actions = watch.handle(WatchEvent::Bus, moment(19 * SECOND + 1));
    assert_eq!(names(&actions), vec!["start"]);
    let up = WatchEvent::Tick(Some(TrayStart::Up));
    assert!(watch.handle(up, moment(20 * SECOND)).is_empty());
    assert!(watch.tray.as_ref().unwrap().up);
    assert!(watch
        .handle(WatchEvent::TrayGone, moment(21 * SECOND))
        .is_empty());
    let actions = watch.handle(WatchEvent::Tick(None), moment(22 * SECOND));
    assert_eq!(names(&actions), vec!["start"]);
}

fn shown() -> WatchLoop {
    let mut watch = watching(true);
    watch.handle(WatchEvent::Tick(None), moment(0));
    watch.handle(WatchEvent::Tick(Some(TrayStart::Up)), moment(1));
    watch
}

fn last_shown(actions: &[WatchAction]) -> Option<(TrayStatus, bool)> {
    actions.iter().rev().find_map(|action| match action {
        WatchAction::ShowTray(state) => Some((state.status.clone(), state.paused)),
        _ => None,
    })
}

#[test]
fn the_indicator_follows_the_synchronization() {
    let mut watch = shown();
    let sync_now = WatchEvent::Command(TrayCommand::SyncNow);
    let actions = watch.handle(sync_now, moment(5 * SECOND));
    assert_eq!(names(&actions), vec!["show", "sync"]);
    assert_eq!(last_shown(&actions), Some((TrayStatus::Syncing, false)));
    let failed = WatchEvent::SyncDone(Err(SyncError::Other("x".to_string())));
    let actions = watch.handle(failed, moment(6 * SECOND));
    assert_eq!(
        last_shown(&actions),
        Some((TrayStatus::Error("Other error: x".to_string()), false))
    );
    let sync_here = WatchEvent::Command(TrayCommand::SyncRepository("/repo/".to_string()));
    let actions = watch.handle(sync_here, moment(7 * SECOND));
    assert_eq!(names(&actions), vec!["show", "sync"]);
    let actions = watch.handle(WatchEvent::SyncDone(Ok(())), moment(8 * SECOND));
    assert_eq!(last_shown(&actions), Some((TrayStatus::Idle, false)));
    let state = &watch.tray.as_ref().unwrap().state;
    assert_eq!(state.last_sync.unwrap().unix_secs, 1_000_008);
    // The age that is shown is kept up to date.
    let actions = watch.handle(WatchEvent::StateChanged, moment(9 * SECOND));
    assert_eq!(names(&actions), vec!["show"]);
    let actions = watch.handle(WatchEvent::StateChanged, moment(9 * SECOND));
    assert!(actions.is_empty());
    let elsewhere = WatchEvent::Command(TrayCommand::SyncRepository("/other".to_string()));
    assert!(watch.handle(elsewhere, moment(10 * SECOND)).is_empty());
}

#[test]
fn suspended_repositories_are_left_alone() {
    let mut watch = shown();
    let suspend = WatchEvent::Command(TrayCommand::Suspend);
    let actions = watch.handle(suspend, moment(2 * SECOND));
    assert!(matches!(last_shown(&actions), Some((_, true))));
    watch.handle(WatchEvent::File(ChangeKind::Create), moment(3 * SECOND));
    let actions = watch.handle(WatchEvent::Tick(None), moment(30 * SECOND));
    assert!(!names(&actions).contains(&"sync"));
    let sync_now = WatchEvent::Command(TrayCommand::SyncAll);
    assert!(watch.handle(sync_now, moment(31 * SECOND)).is_empty());
    let resume = WatchEvent::Command(TrayCommand::ResumeRepository("/repo".to_string()));
    let actions = watch.handle(resume, moment(32 * SECOND));
    assert!(matches!(last_shown(&actions), Some((_, false))));
    // What was noticed in the meantime is not lost.
    let actions = watch.handle(WatchEvent::Tick(None), moment(33 * SECOND));
    assert!(names(&actions).contains(&"sync"));
}

#[test]
fn the_user_can_quit_and_the_indicator_can_be_renewed() {
    let mut watch = shown();
    let respawn = WatchEvent::Command(TrayCommand::Respawn {
        reason: "test".to_string(),
    });
    let actions = watch.handle(respawn, moment(2 * SECOND));
    assert_eq!(names(&actions), vec!["stop"]);
    assert!(watch
        .handle(WatchEvent::Tick(None), moment(2 * SECOND))
        .is_empty());
    let actions = watch.handle(WatchEvent::Tick(None), moment(3 * SECOND));
    assert_eq!(names(&actions), vec!["start"]);
    let respawn = WatchEvent::Command(TrayCommand::Respawn {
        reason: "again".to_string(),
    });
    let actions = watch.handle(respawn, moment(3 * SECOND));
    assert_eq!(names(&actions), vec!["abort"]);
    let quit = WatchEvent::Command(TrayCommand::Quit);
    let actions = watch.handle(quit, moment(4 * SECOND));
    assert_eq!(names(&actions), vec!["quit"]);
    let mut watch = shown();
    let quit = WatchEvent::Command(TrayCommand::Quit);
    let actions = watch.handle(quit, moment(4 * SECOND));
    assert_eq!(names(&actions), vec!["stop", "quit"]);
}

#[test]
fn watching_goes_by_its_configuration() {
    let manager = watch_with_periodic_sync(
        "/repo",
        SyncConfig::default(),
        WatchConfig {
            debounce_ms: 10,
            watch_paths: vec!["sessions".to_string(), "/abs".to_string()],
            ..WatchConfig::default()
        },
        Some(1000),
    );
    assert_eq!(manager.watch_config.periodic_sync_interval_ms, Some(1000));
    assert_eq!(manager.tick_ms(), 50);
    assert_eq!(manager.watch_roots(), vec!["/repo/sessions", "/abs"]);
    let manager = WatchManager::new("/repo", SyncConfig::default(), WatchConfig::default());
    assert_eq!(manager.tick_ms(), 500);
    assert_eq!(manager.watch_roots(), vec!["/repo"]);
    assert_eq!(
        WatchManager::new("~", SyncConfig::default(), WatchConfig::default()).repo_path,
        shellexpand::tilde("~")
    );
}

#[test]
fn clocks_run() {
    let clock = Clock::start();
    let mut watch = WatchLoop::new(
        WatchManager::new("/repo", SyncConfig::default(), WatchConfig::default()),
        &clock,
    );
    let first = watch.moment(&clock);
    let second = watch.moment(&clock);
    assert!(first.now <= second.now);
    assert!(first.utc_offset_secs.is_none());
    assert_eq!(
        second.wall_offset_secs,
        local_time_of(second.wall.unix_secs).map(|t| t.utc_offset_secs)
    );
    assert!(first.wall.unix_secs > 1_600_000_000);
    assert!(first.wall.nanos < 1_000_000_000);
    watch.manager.progress.last_successful_sync_unix_secs = 8;
    let third = watch.moment(&clock);
    let shown = watch.manager.progress.latest_successful_sync_datetime();
    assert_eq!(third.utc_offset_secs, shown.map(|t| t.utc_offset_secs));
    assert!(third.utc_offset_secs.is_some());
}

#[test]
fn pretended_synchronizations_are_shown_at_once() {
    let config = WatchConfig {
        dry_run: true,
        enable_tray: true,
        ..WatchConfig::default()
    };
    let manager = WatchManager::new("/repo", SyncConfig::default(), config);
    let mut watch = WatchLoop::new_at(manager, 0);
    watch.handle(WatchEvent::Tick(None), moment(0));
    watch.handle(WatchEvent::Tick(Some(TrayStart::Up)), moment(1));
    let mut now = moment(5 * SECOND);
    now.wall_offset_secs = Some(3600);
    now.utc_offset_secs = None;
    let command = WatchEvent::Command(TrayCommand::SyncNow);
    let actions = watch.handle(command, now);
    let shown = actions.iter().rev().find_map(|action| match action {
        WatchAction::ShowTray(state) => state.last_sync,
        _ => None,
    });
    let shown = shown.expect("the indicator shows when it was");
    assert_eq!(shown.unix_secs, now.wall.unix_secs);
    assert_eq!(shown.utc_offset_secs, 3600);
}

#[test]
fn commands_reach_repositories_without_an_indicator_of_their_own() {
    let mut watch = watching(false);
    let command = |command: TrayCommand| WatchEvent::Command(command);
    let actions = watch.handle(command(TrayCommand::SyncAll), moment(5 * SECOND));
    assert_eq!(names(&actions), vec!["sync"]);
    watch.handle(WatchEvent::SyncDone(Ok(())), moment(6 * SECOND));
    let elsewhere = TrayCommand::SuspendRepository("/other".to_string());
    watch.handle(command(elsewhere), moment(7 * SECOND));
    assert!(!watch.manager.progress.sync_suspended);
    let here = TrayCommand::SuspendRepository("/repo/".to_string());
    watch.handle(command(here), moment(7 * SECOND));
    assert!(watch.manager.progress.sync_suspended);
    let actions = watch.handle(command(TrayCommand::SyncNow), moment(8 * SECOND));
    assert!(actions.is_empty());
    watch.handle(command(TrayCommand::ResumeAll), moment(9 * SECOND));
    assert!(!watch.manager.progress.sync_suspended);
    let reason = "lost".to_string();
    let respawn = command(TrayCommand::Respawn { reason });
    assert!(watch.handle(respawn, moment(9 * SECOND)).is_empty());
    let actions = watch.handle(command(TrayCommand::Quit), moment(10 * SECOND));
    assert_eq!(names(&actions), vec!["quit"]);
}

#[test]
fn a_repository_at_home_is_watched_there() {
    let home = Some("/home/ann".to_string());
    let at = |path: &str, home: &Option<String>| {
        WatchManager::new_at(path, SyncConfig::default(), WatchConfig::default(), home).repo_path
    };
    assert_eq!(at("~/notes", &home), "/home/ann/notes");
    assert_eq!(at("~", &home), "/home/ann");
    assert_eq!(at("~bob/notes", &home), "~bob/notes");
    assert_eq!(at("/~/notes", &home), "/~/notes");
    assert_eq!(at("~/notes", &None), "~/notes");
}
