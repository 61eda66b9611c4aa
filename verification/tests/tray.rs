use chrono::TimeZone;
use git_sync_rs::clock::{
    local_time_of, wall_time, LocalTime, WallTime, FIRST_SECOND, LAST_SECOND,
};
use git_sync_rs::tray::indicator::{
    load_icon_set, png_to_argb32, rgba_to_argb, GitSyncTray, Icon, MenuEntry, OverlayIcons,
};
use git_sync_rs::tray::state::{AggregateTrayState, TrayCommand, TrayState, TrayStatus};

fn ago(seconds: i64) -> LocalTime {
    local_time_of(wall_time().unix_secs - seconds).unwrap()
}

fn at(unix_secs: i64) -> WallTime {
    WallTime {
        unix_secs,
        nanos: 0,
    }
}

fn state(path: &str, status: TrayStatus) -> TrayState {
    let mut state = TrayState::new(path.to_string());
    state.status = status;
    state
}

#[test]
fn last_sync_text_includes_literal_and_relative_time() {
    let mut state = TrayState::new("/tmp/repo".to_string());
    state.last_sync = Some(ago(5 * 60));

    let text = state.last_sync_text();
    assert!(text.starts_with("Last sync: "));
    assert!(text.contains(" ("));
    assert!(text.ends_with("ago)"));
}

#[test]
fn relative_time_text_uses_expected_units() {
    let now = wall_time();
    assert!(TrayState::relative_time_text(ago(30), now).ends_with("s ago"));
    assert!(TrayState::relative_time_text(ago(2 * 60), now).ends_with("m ago"));
    assert!(TrayState::relative_time_text(ago(3 * 3600), now).ends_with("h ago"));
    assert!(TrayState::relative_time_text(ago(4 * 86_400), now).ends_with("d ago"));
}

#[test]
fn aggregate_status_prioritizes_errors_then_syncing() {
    let mut all = AggregateTrayState::default();
    all.update_repository(state("/tmp/idle", TrayStatus::Idle));
    all.update_repository(state("/tmp/syncing", TrayStatus::Syncing));
    assert_eq!(all.aggregate_status(), TrayStatus::Syncing);

    all.update_repository(state("/tmp/error", TrayStatus::Error("boom".into())));
    assert_eq!(all.aggregate_status(), TrayStatus::Error("boom".into()));
}

#[test]
fn ages_are_told_in_the_largest_unit() {
    let then = LocalTime::new(1_000_000, 0).unwrap();
    let age = |seconds: i64| TrayState::relative_time_text(then, at(1_000_000 + seconds));
    assert_eq!(age(0), "0s ago");
    assert_eq!(age(59), "59s ago");
    assert_eq!(age(60), "1m ago");
    assert_eq!(age(3599), "59m ago");
    assert_eq!(age(3600), "1h ago");
    assert_eq!(age(86_399), "23h ago");
    assert_eq!(age(86_400), "1d ago");
    assert_eq!(age(10 * 86_400), "10d ago");
    assert_eq!(age(-1), "in the future");
    // Less than a second is nothing.
    let almost = WallTime {
        unix_secs: 999_999,
        nanos: 1,
    };
    assert_eq!(TrayState::relative_time_text(then, almost), "0s ago");
}

#[test]
fn times_are_written_with_their_offset() {
    let t = LocalTime::new(1_710_513_045, 3600).unwrap();
    assert_eq!(t.literal(), "2024-03-15 15:30:45 +01:00");
    assert_eq!(
        LocalTime::new(0, 0).unwrap().literal(),
        "1970-01-01 00:00:00 +00:00"
    );
    assert!(LocalTime::new(0, 86_400).is_none());
    assert!(LocalTime::new(9_000_000_000_000, 0).is_none());
    let mut state = TrayState::new("/r".to_string());
    assert_eq!(state.last_sync_text_at(at(5)), "Last sync: never");
    state.last_sync = Some(t);
    assert_eq!(
        state.last_sync_text_at(at(1_710_513_045 + 120)),
        "Last sync: 2024-03-15 15:30:45 +01:00 (2m ago)"
    );
    let local = local_time_of(1_710_513_045).unwrap();
    let expected = chrono::Local.timestamp_opt(1_710_513_045, 0).unwrap();
    assert_eq!(
        local.literal(),
        expected.format("%Y-%m-%d %H:%M:%S %Z").to_string()
    );
}

#[test]
fn local_times_are_known_throughout_the_calendar() {
    let first = chrono::DateTime::<chrono::Utc>::MIN_UTC.timestamp();
    let last = chrono::DateTime::<chrono::Utc>::MAX_UTC.timestamp();
    assert_eq!((FIRST_SECOND, LAST_SECOND), (first, last));
    for second in [first, -1, 0, 1, last] {
        let local = local_time_of(second).unwrap();
        let expected = chrono::Local.timestamp_opt(second, 0).unwrap();
        assert_eq!(local.unix_secs, second);
        assert_eq!(local.utc_offset_secs, expected.offset().local_minus_utc());
        assert_eq!(
            local.literal(),
            expected.format("%Y-%m-%d %H:%M:%S %Z").to_string()
        );
    }
    for second in [i64::MIN, first - 1, last + 1, i64::MAX] {
        assert!(local_time_of(second).is_none());
        assert!(LocalTime::new(second, 0).is_none());
    }
    for offset in [-86_399, 86_399] {
        assert!(LocalTime::new(first, offset).unwrap().literal().len() > 20);
        assert!(LocalTime::new(last, offset).unwrap().literal().len() > 20);
    }
}

#[test]
fn states_are_put_in_words() {
    let mut shown = state("/home/ann/notes/", TrayStatus::Starting);
    assert_eq!(shown.status_text(), "Starting...");
    shown.status = TrayStatus::Syncing;
    assert_eq!(shown.status_text(), "Syncing...");
    shown.status = TrayStatus::Error("no".to_string());
    assert_eq!(shown.status_text(), "Error: no");
    shown.status = TrayStatus::Idle;
    assert_eq!(shown.status_text(), "Idle");
    shown.paused = true;
    assert_eq!(shown.status_text(), "Suspended");
    assert_eq!(shown.repo_name(), "notes");
    shown.display_name = Some("Notes".to_string());
    assert_eq!(shown.repo_name(), "Notes");
    assert_eq!(TrayState::new("/".to_string()).repo_name(), "/");
}

#[test]
fn repositories_are_kept_in_the_order_of_their_paths() {
    let mut all = AggregateTrayState::single(state("/b", TrayStatus::Idle));
    all.update_repository(state("/c", TrayStatus::Starting));
    all.update_repository(state("/a/b", TrayStatus::Idle));
    all.update_repository(state("/a", TrayStatus::Syncing));
    all.update_repository(state("/c/", TrayStatus::Error("late".to_string())));
    let paths: Vec<&str> = all
        .repositories
        .iter()
        .map(|s| s.repo_path.as_str())
        .collect();
    assert_eq!(paths, vec!["/a", "/a/b", "/b", "/c/"]);
    assert!(!all.any_paused());
    let mut paused = state("/b", TrayStatus::Idle);
    paused.paused = true;
    all.update_repository(paused);
    assert!(all.any_paused());
    assert_eq!(
        all.status_summary(),
        "4 repositories: 1 idle, 1 syncing, 0 starting, 1 suspended, 1 error(s)"
    );
    all.update_repository(state("/a", TrayStatus::Error("early".to_string())));
    assert_eq!(
        all.aggregate_status(),
        TrayStatus::Error("early".to_string())
    );
    assert_eq!(
        AggregateTrayState::default().aggregate_status(),
        TrayStatus::Idle
    );
}

#[test]
fn signatures_hold_all_that_is_shown() {
    let mut first = state("/a", TrayStatus::Error("bad \"quote\"".to_string()));
    first.last_error = Some("bad \"quote\"".to_string());
    let mut all = AggregateTrayState::single(first);
    all.update_repository(state("/b", TrayStatus::Idle));
    assert_eq!(
        all.render_signature_at(at(0)),
        "a\u{1f}Error: bad \"quote\"\u{1f}Last sync: never\u{1f}Some(\"bad \\\"quote\\\"\")\u{1e}b\u{1f}Idle\u{1f}Last sync: never\u{1f}None"
    );
    assert_eq!(all.render_signature(), all.render_signature_at(at(0)));
}

fn png(width: u32, height: u32, pixels: Vec<u8>) -> Vec<u8> {
    let picture = image::RgbaImage::from_raw(width, height, pixels).unwrap();
    let mut file = std::io::Cursor::new(Vec::new());
    picture
        .write_to(&mut file, image::ImageFormat::Png)
        .unwrap();
    file.into_inner()
}

#[test]
fn pictures_are_decoded_with_the_opacity_first() {
    let file = png(2, 1, vec![1, 2, 3, 4, 5, 6, 7, 8]);
    let icon = png_to_argb32(&file).unwrap();
    assert_eq!((icon.width, icon.height), (2, 1));
    assert_eq!(icon.data, vec![4, 1, 2, 3, 8, 5, 6, 7]);
    assert!(png_to_argb32(&b"no picture".to_vec()).is_none());
    assert_eq!(rgba_to_argb(&vec![1, 2, 3, 4, 5]), vec![4, 1, 2, 3]);
    let set = load_icon_set(&file, &file, &file).unwrap();
    assert_eq!(set.len(), 3);
    assert!(load_icon_set(&file, &Vec::new(), &file).is_none());
}

fn icon(value: u8) -> Icon {
    Icon {
        width: 1,
        height: 1,
        data: vec![value; 4],
    }
}

fn tray(shown: TrayState) -> GitSyncTray {
    GitSyncTray::new(
        shown,
        vec![icon(9)],
        OverlayIcons {
            sync: vec![icon(1)],
            error: vec![icon(2)],
            pause: vec![icon(3)],
        },
    )
}

#[test]
fn overlays_follow_the_state_and_change_with_it() {
    let mut shown = tray(state("/r", TrayStatus::Idle));
    let data = |tray: &GitSyncTray| -> Vec<Vec<u8>> {
        tray.overlay_pixmaps_for_status()
            .into_iter()
            .map(|icon| icon.data)
            .collect()
    };
    assert_eq!(data(&shown), vec![vec![0, 0, 0, 0]]);
    shown.show(state("/r", TrayStatus::Syncing));
    assert_eq!(data(&shown), vec![vec![1; 4], vec![0, 1, 0, 0]]);
    shown.show(state("/r", TrayStatus::Error("e".to_string())));
    assert_eq!(data(&shown), vec![vec![2; 4], vec![0, 2, 0, 0]]);
    let mut paused = state("/r", TrayStatus::Idle);
    paused.paused = true;
    shown.show(paused);
    assert_eq!(data(&shown), vec![vec![3; 4], vec![0, 3, 0, 0]]);
    shown.icon_generation = 0x0003_0201;
    assert_eq!(shown.generation_pixel().data, vec![0, 1, 2, 3]);
    shown.icon_generation = u64::MAX;
    shown.bump_icon_generation();
    assert_eq!(shown.icon_generation, 0);
}

#[test]
fn the_menu_offers_what_can_be_done() {
    let mut shown = tray(state("/home/ann/notes", TrayStatus::Idle));
    assert_eq!(shown.title(), "git-sync-rs - notes");
    assert_eq!(shown.description_at(at(0)), "Idle\nLast sync: never");
    assert_eq!(shown.description(), "Idle\nLast sync: never");
    let labels = |tray: &GitSyncTray| -> Vec<String> {
        tray.menu()
            .into_iter()
            .map(|entry| match entry {
                MenuEntry::Label(label) => label,
                MenuEntry::Separator => "---".to_string(),
                MenuEntry::Action {
                    label,
                    icon_name,
                    enabled,
                    ..
                } => format!("{label} [{icon_name}] {enabled}"),
            })
            .collect()
    };
    assert_eq!(
        labels(&shown),
        vec![
            "git-sync-rs - notes",
            "---",
            "Status: Idle",
            "Last sync: never",
            "---",
            "Sync Now [view-refresh] true",
            "Pause [media-playback-pause] true",
            "---",
            "Quit [application-exit] true",
        ]
    );
    assert!(matches!(
        shown.menu_at(at(0))[6],
        MenuEntry::Action {
            command: TrayCommand::Suspend,
            ..
        }
    ));
    let mut paused = state("/home/ann/notes", TrayStatus::Idle);
    paused.paused = true;
    shown.show(paused);
    assert_eq!(labels(&shown)[5], "Sync Now [view-refresh] false");
    assert_eq!(labels(&shown)[6], "Resume [media-playback-start] true");
}
