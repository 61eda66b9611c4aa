use git_sync_rs::directories::{own_directories, Directories};
use git_sync_rs::path::{
    components, file_name, has_component, is_before, join, parent, same_path, strip_prefix,
};
use git_sync_rs::runtime_state::{
    repository_key, FileOp, FileReply, Stored, StoreStep, SuspensionStore,
};
use git_sync_rs::setup::{
    clone_source, ensure_repository_exists, SetupOp, SetupReply, SetupStep,
};
use git_sync_rs::sync::step::CommandOutput;
use git_sync_rs::text;
use git_sync_rs::SyncError;
use std::collections::HashMap;

/// Files in memory, some of which may fail.
#[derive(Default)]
struct Disk {
    files: HashMap<String, String>,
    fails_at: Option<&'static str>,
    log: Vec<String>,
}

impl Disk {
    fn perform(&mut self, op: FileOp) -> FileReply {
        let (name, reply) = match op {
            FileOp::MakeDirectories { path } => ("mkdir", Ok(path)),
            FileOp::Serialize { repositories } => {
                let mut table = toml::Table::new();
                let list = repositories.into_iter().map(toml::Value::String).collect();
                table.insert(
                    "suspended_repositories".to_string(),
                    toml::Value::Array(list),
                );
                ("serialize", Ok(table.to_string()))
            }
            FileOp::CreateNew { path } => {
                self.files.insert(path, String::new());
                ("create", Ok(String::new()))
            }
            FileOp::Write { path, contents } => {
                self.files.insert(path, contents);
                ("write", Ok(String::new()))
            }
            FileOp::Flush { .. } => ("flush", Ok(String::new())),
            FileOp::Rename { from, to } => {
                if self.fails_at != Some("rename") {
                    let contents = self.files.remove(&from).unwrap();
                    self.files.insert(to, contents);
                }
                ("rename", Ok(String::new()))
            }
            FileOp::Remove { path } => {
                self.files.remove(&path);
                ("remove", Ok(String::new()))
            }
        };
        self.log.push(name.to_string());
        if self.fails_at == Some(name) {
            return Err(format!("{name} failed"));
        }
        reply
    }

    fn run(&mut self, mut step: StoreStep) -> (SuspensionStore, Result<(), SyncError>) {
        loop {
            match step {
                StoreStep::Done(store, result) => return (store, result),
                StoreStep::Ask(run, op) => step = run.resume(self.perform(op)),
            }
        }
    }

    fn stored(&self, path: &str) -> Stored {
        match self.files.get(path) {
            None => Stored::Absent,
            Some(contents) => match contents.parse::<toml::Table>() {
                Err(e) => Stored::Malformed(e.to_string()),
                Ok(table) => Stored::Suspended(
                    table["suspended_repositories"]
                        .as_array()
                        .unwrap()
                        .iter()
                        .map(|v| v.as_str().unwrap().to_string())
                        .collect(),
                ),
            },
        }
    }
}

const STATE: &str = "/state/nested/state.toml";

#[test]
fn suspension_survives_reload_and_preserves_other_repositories() {
    let mut disk = Disk::default();
    let first = "/repository/one";
    let second = "/repository/two";

    let store = SuspensionStore::load(STATE.to_string(), disk.stored(STATE)).unwrap();
    let (store, result) = disk.run(store.set_suspended(first, None, true, 1, 0));
    assert!(result.is_ok());
    let (_, result) = disk.run(store.set_suspended(second, None, true, 1, 1));
    assert!(result.is_ok());

    let reloaded = SuspensionStore::load(STATE.to_string(), disk.stored(STATE)).unwrap();
    assert!(reloaded.is_suspended(first, None));
    assert!(reloaded.is_suspended(second, None));

    let (_, result) = disk.run(reloaded.set_suspended(first, None, false, 1, 2));
    assert!(result.is_ok());
    let final_state = SuspensionStore::load(STATE.to_string(), disk.stored(STATE)).unwrap();
    assert!(!final_state.is_suspended(first, None));
    assert!(final_state.is_suspended(second, None));
    assert_eq!(final_state.path(), STATE);
    assert_eq!(disk.files.len(), 1, "nothing temporary is left");
}

#[test]
fn a_change_that_cannot_be_written_is_undone() {
    for step in ["mkdir", "serialize", "create", "write", "flush", "rename"] {
        let mut disk = Disk::default();
        let store = SuspensionStore::load(
            STATE.to_string(),
            Stored::Suspended(vec!["/b".to_string(), "/a".to_string(), "/b/".to_string()]),
        )
        .unwrap();
        assert_eq!(store.suspended_repositories.paths, vec!["/a", "/b"]);
        disk.fails_at = Some(step);
        let (store, result) = disk.run(store.set_suspended("/c", None, true, 7, 9));
        let error = result.unwrap_err();
        if step == "serialize" {
            assert_eq!(
                error.message(),
                "Other error: Failed to serialize runtime state: serialize failed"
            );
        } else {
            assert!(matches!(error, SyncError::IoError(ref why) if *why == format!("{step} failed")));
        }
        assert!(!store.is_suspended("/c", None));
        assert!(store.is_suspended("/a", None));
        let (store, result) = disk.run(store.set_suspended("/a", None, false, 7, 10));
        assert!(result.is_err());
        assert!(store.is_suspended("/a", None));
        assert!(disk.files.is_empty(), "nothing is left after {step}");
    }
}

#[test]
fn repositories_are_written_down_as_they_were_given() {
    let written = |store: SuspensionStore, path: &str, suspended: bool| {
        let StoreStep::Ask(run, _) = store.set_suspended(path, None, suspended, 1, 1) else {
            panic!("over already")
        };
        match run.resume(Ok(String::new())) {
            StoreStep::Ask(_, FileOp::Serialize { repositories }) => repositories,
            _ => panic!("nothing is written"),
        }
    };
    let store = || {
        let paths = ["/b//c", "/a/", "/b/c/", "/a"];
        let stored = Stored::Suspended(paths.map(str::to_string).to_vec());
        SuspensionStore::load(STATE.to_string(), stored).unwrap()
    };
    assert_eq!(store().suspended_repositories.paths, vec!["/a/", "/b//c"]);
    assert_eq!(written(store(), "/b/", true), vec!["/a/", "/b/", "/b//c"]);
    assert_eq!(written(store(), "/z", true), vec!["/a/", "/b//c", "/z"]);
    assert_eq!(written(store(), "/b/c", false), vec!["/a/"]);
    // One that could not be resumed is the same place still.
    let mut disk = Disk {
        fails_at: Some("rename"),
        ..Disk::default()
    };
    let (after, result) = disk.run(store().set_suspended("/a", None, false, 1, 2));
    assert!(result.is_err());
    assert_eq!(after.suspended_repositories.paths, vec!["/a", "/b//c"]);
    let (after, result) = disk.run(store().set_suspended("/b", None, true, 1, 3));
    assert!(result.is_err());
    assert_eq!(after.suspended_repositories.paths, vec!["/a/", "/b//c"]);
}

#[test]
fn the_file_is_replaced_in_one_go() {
    let mut disk = Disk::default();
    let store = SuspensionStore::load(STATE.to_string(), Stored::Absent).unwrap();
    let StoreStep::Ask(run, op) = store.set_suspended("/a", Some("/real"), true, 42, 3) else {
        panic!("over already")
    };
    let mut run = run;
    let mut op = op;
    let mut temporary = String::new();
    let (store, result) = loop {
        if let FileOp::Rename { from, to } = &op {
            temporary = from.clone();
            assert_eq!(to, STATE);
        }
        match run.resume(disk.perform(op)) {
            StoreStep::Ask(next, asked) => {
                run = next;
                op = asked;
            }
            StoreStep::Done(store, result) => break (store, result),
        }
    };
    assert!(result.is_ok());
    assert_eq!(temporary, "/state/nested/.state.toml.tmp-42-3");
    assert_eq!(
        disk.log,
        vec!["mkdir", "serialize", "create", "write", "flush", "rename"]
    );
    assert!(store.is_suspended("/real", None));
    assert!(store.is_suspended("/other", Some("/real")));
    assert!(!store.is_suspended("/a", None));
    // Where nothing changes, nothing is written.
    disk.log.clear();
    let (_, result) = disk.run(store.set_suspended("/real/", None, true, 42, 4));
    assert!(result.is_ok() && disk.log.is_empty());
    let rootless = SuspensionStore::load("/".to_string(), Stored::Absent).unwrap();
    let (_, result) = disk.run(rootless.set_suspended("/a", None, true, 1, 1));
    assert_eq!(
        result.unwrap_err().message(),
        "Other error: Runtime state path has no parent: /"
    );
}

#[test]
fn what_is_stored_is_loaded_or_refused() {
    let error = |stored: Stored| SuspensionStore::load("/s".to_string(), stored).unwrap_err();
    assert_eq!(
        error(Stored::Malformed("bad".to_string())).message(),
        "Other error: Failed to parse runtime state at /s: bad"
    );
    assert!(matches!(
        error(Stored::Unreadable("denied".to_string())),
        SyncError::IoError(_)
    ));
    assert_eq!(repository_key("/a", None), "/a");
    assert_eq!(repository_key("/a", Some("/b")), "/b");
    if let Ok(path) = SuspensionStore::default_path() {
        assert!(path.ends_with("/state.toml"));
        let store = SuspensionStore::load_default(Stored::Absent).unwrap();
        assert_eq!(store.path(), path);
    }
}

#[test]
fn stores_are_among_the_states_or_the_data_of_the_application() {
    let found = |state: Option<&str>| {
        Some(Directories {
            application: "git-sync-rs".to_string(),
            config: Some("/c".to_string()),
            state: state.map(|state| Some(state.to_string())),
            data_local: Some("/d".to_string()),
        })
    };
    assert_eq!(SuspensionStore::state_path(found(Some("/s"))).unwrap(), "/s/state.toml");
    assert_eq!(SuspensionStore::state_path(found(None)).unwrap(), "/d/state.toml");
    assert_eq!(
        SuspensionStore::state_path(None).unwrap_err().message(),
        "Other error: Could not determine git-sync-rs state directory"
    );
    // Only the directory that is used has to be known.
    let mut unknown = found(Some("/s"));
    unknown.as_mut().unwrap().data_local = None;
    assert_eq!(SuspensionStore::state_path(unknown).unwrap(), "/s/state.toml");
    let mut unknown = found(None);
    unknown.as_mut().unwrap().config = None;
    assert_eq!(SuspensionStore::state_path(unknown).unwrap(), "/d/state.toml");
    let mut unknown = found(None);
    unknown.as_mut().unwrap().state = Some(None);
    assert!(SuspensionStore::state_path(unknown).is_err());
    match (own_directories(), directories::ProjectDirs::from("", "", "git-sync-rs")) {
        (Some(own), Some(dirs)) => {
            assert_eq!(own.application, "git-sync-rs");
            assert_eq!(own.config.as_deref(), dirs.config_dir().to_str());
            assert_eq!(own.state, dirs.state_dir().map(|d| d.to_str().map(String::from)));
            assert_eq!(own.data_local.as_deref(), dirs.data_local_dir().to_str());
            let path = SuspensionStore::state_path(Some(own)).unwrap();
            assert_eq!(SuspensionStore::default_path().unwrap(), path);
        }
        (None, None) => assert!(SuspensionStore::default_path().is_err()),
        _ => panic!("directories differ"),
    }
}

#[test]
fn paths_are_taken_apart() {
    assert_eq!(components("/a//b/./c/"), vec!["/", "a", "b", "c"]);
    assert_eq!(components("./a/../b"), vec![".", "a", "..", "b"]);
    assert!(components("").is_empty());
    assert_eq!(components("/"), vec!["/"]);
    for (a, b) in [("/a/b", "/a//b/"), ("a/./b", "a/b"), ("a", "a/")] {
        assert!(same_path(a, b));
        assert_eq!(std::path::Path::new(a), std::path::Path::new(b));
    }
    assert!(!same_path("./a", "a"));
    assert!(has_component("/r/.git/x", ".git"));
    assert!(!has_component("/r/.gitignore", ".git"));
    for path in ["/a/b.txt", "/a/b/", "/", "..", "a", "", "./x/.", "a/.."] {
        let expected = std::path::Path::new(path);
        assert_eq!(
            file_name(path),
            expected.file_name().map(|n| n.to_string_lossy().to_string()),
            "{path}"
        );
        let above = parent(path);
        assert_eq!(
            above.as_deref().map(std::path::Path::new),
            expected.parent(),
            "{path}"
        );
    }
    assert_eq!(strip_prefix("/r/a/b", "/r/").as_deref(), Some("a/b"));
    assert_eq!(strip_prefix("/r", "/r").as_deref(), Some(""));
    assert_eq!(strip_prefix("/ra", "/r"), None);
    assert_eq!(strip_prefix("r/a", "/r"), None);
    for (base, path) in [("/a", "b"), ("/a/", "b"), ("/a", "/b"), ("", "b")] {
        assert_eq!(
            std::path::Path::new(&join(base, path)),
            std::path::Path::new(base).join(path)
        );
    }
}

#[test]
fn paths_are_ordered_as_usual() {
    let paths = ["/", "/a", "/a/b", "/a.b", "/b", ".", "..", "a", "./a", "\u{e9}", "a/b"];
    for a in paths {
        for b in paths {
            let expected = std::path::Path::new(a) < std::path::Path::new(b);
            assert_eq!(is_before(a, b), expected, "{a} before {b}");
        }
    }
}

#[test]
fn texts_are_handled_as_usual() {
    let s = " \u{a0}a-b-a\u{2003}\n";
    assert_eq!(text::trim(s), s.trim());
    assert_eq!(text::replace("a-b-a", "a", "xy"), "a-b-a".replace("a", "xy"));
    assert_eq!(text::replace("aaa", "aa", "b"), "aaa".replace("aa", "b"));
    assert_eq!(text::split(";a;;b", ';'), vec!["", "a", "", "b"]);
    assert_eq!(text::number(0), "0");
    assert_eq!(text::number(u64::MAX), u64::MAX.to_string());
    for t in ["", "0", "+7", "-1", "18446744073709551615", "18446744073709551616", "1a", "+"] {
        assert_eq!(text::parse_u64(t), t.parse::<u64>().ok(), "{t}");
    }
    for t in ["true", "false", "True", "1", ""] {
        assert_eq!(text::parse_bool(t), t.parse::<bool>().ok(), "{t}");
    }
    assert!(text::contains("hello", "ell") && !text::contains("hello", "ello!"));
    assert_eq!(
        text::strip_prefix("refs/heads/a", "refs/heads/").as_deref(),
        Some("a")
    );
}

fn output(success: bool, stdout: &str, stderr: &str) -> SetupReply {
    SetupReply::Output(Ok(CommandOutput {
        success,
        stdout: stdout.as_bytes().to_vec(),
        stderr: stderr.as_bytes().to_vec(),
    }))
}

/// Performs a setup with the given replies; returns what was asked for, and the result.
fn set_up(
    path: &str,
    url: Option<&str>,
    replies: Vec<SetupReply>,
) -> (Vec<String>, Result<(), String>) {
    let mut asked = Vec::new();
    let mut replies = replies.into_iter();
    let mut step = ensure_repository_exists(path, url.map(str::to_string));
    loop {
        match step {
            SetupStep::Done(result) => return (asked, result),
            SetupStep::Ask(run, op) => {
                asked.push(match op {
                    SetupOp::Exists { path } => format!("exists {path}"),
                    SetupOp::MakeDirectories { path } => format!("mkdir {path}"),
                    SetupOp::Clone { url, path } => format!("clone {url} {path}"),
                    SetupOp::SymbolicHead { path } => format!("head {path}"),
                    SetupOp::AddConfig { path, key, value } => {
                        format!("config {path} {key} {value}")
                    }
                });
                step = run.resume(replies.next().unwrap());
            }
        }
    }
}

#[test]
fn repositories_are_cloned_where_they_are_missing() {
    let (asked, result) = set_up(
        "/home/ann/notes",
        Some("ssh://host/notes"),
        vec![
            SetupReply::Flag(false),
            SetupReply::Done(Ok(())),
            output(true, "", ""),
            output(true, "refs/heads/feature/main\n", ""),
            output(false, "", "ignored"),
        ],
    );
    assert!(result.is_ok());
    assert_eq!(
        asked,
        vec![
            "exists /home/ann/notes",
            "mkdir /home/ann",
            "clone ssh://host/notes /home/ann/notes",
            "head /home/ann/notes",
            "config /home/ann/notes branch.main.pushRemote origin",
        ]
    );
}

#[test]
fn repositories_that_are_there_are_left_alone() {
    let there = vec![SetupReply::Flag(true), SetupReply::Flag(true)];
    let (asked, result) = set_up("/r", Some("url"), there);
    assert!(result.is_ok());
    assert_eq!(asked, vec!["exists /r", "exists /r/.git"]);
    let other = vec![SetupReply::Flag(true), SetupReply::Flag(false)];
    let (_, result) = set_up("/r", None, other);
    assert_eq!(
        result,
        Err("Directory \"/r\" exists but is not a git repository".to_string())
    );
}

#[test]
fn a_repository_that_cannot_be_cloned_is_reported() {
    let (_, result) = set_up("/r", None, vec![SetupReply::Flag(false)]);
    assert_eq!(
        result,
        Err("Directory \"/r\" does not exist. Configure its uri or set GIT_SYNC_REPOSITORY to clone it.".to_string())
    );
    let (_, result) = set_up(
        "/a/r",
        Some("url"),
        vec![SetupReply::Flag(false), SetupReply::Done(Err("full".to_string()))],
    );
    assert_eq!(result, Err("full".to_string()));
    let (_, result) = set_up(
        "/a/r",
        Some("url"),
        vec![
            SetupReply::Flag(false),
            SetupReply::Done(Ok(())),
            output(false, "", "no such host"),
        ],
    );
    assert_eq!(
        result,
        Err("Failed to clone repository: no such host".to_string())
    );
    let (_, result) = set_up(
        "/a/r",
        Some("url"),
        vec![
            SetupReply::Flag(false),
            SetupReply::Done(Ok(())),
            output(true, "", ""),
            output(false, "", ""),
        ],
    );
    assert!(result.is_ok(), "a detached HEAD is no failure");
    let (_, result) = set_up("/r", None, vec![SetupReply::Done(Ok(()))]);
    assert!(result.is_err());
    let some = |t: &str| Some(t.to_string());
    assert_eq!(clone_source(&some("a"), &some("b")), some("a"));
    assert_eq!(clone_source(&None, &some("b")), some("b"));
    assert_eq!(clone_source(&None, &None), None);
}
