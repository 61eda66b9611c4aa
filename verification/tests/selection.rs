use git_sync_rs::clock::{local_now, LocalTime};
use git_sync_rs::cli::{
    configured_repositories_for_command, init_config, job_for, no_repositories, resolve_repo_path,
    resolve_repo_path_at, resolve_repo_watch_config, resolve_watch_interval_ms, shared_tray,
    supervise, Command, Job, TrayVariables, WatchOptions, WatchOutcome, WatchStep,
};
use git_sync_rs::config::{
    create_example_config, default_commit_message, default_remote, default_sync_interval,
    default_sync_new_files, merge_config, ConfigFile, Environment,
};
use git_sync_rs::directories::Directories;
use git_sync_rs::host::{host_and_time, host_and_time_at};
use git_sync_rs::plan::{
    errand_at, errand_of, next_stage, repositories_for, task_for, Errand, Invocation, Stage,
    Surroundings, Task,
};
use git_sync_rs::sync::step::{Reply, TimeLayout};
use git_sync_rs::{
    Config, ConfigLoader, DefaultConfig, RepositoryConfig, SyncError, WatchConfig,
};

fn watch_command() -> Option<Command> {
    Some(Command::Watch(WatchOptions {
        debounce_ms: Some(500),
        min_interval_ms: Some(1000),
        interval: None,
        no_initial_sync: false,
        watch_paths: Vec::new(),
        tray: false,
        tray_icon: None,
    }))
}

fn config_with_repos(repos: Vec<RepositoryConfig>) -> Config {
    Config {
        defaults: DefaultConfig::default(),
        repositories: repos,
    }
}

fn repo(path: &str, watch: bool) -> RepositoryConfig {
    RepositoryConfig {
        path: path.to_string(),
        watch,
        ..RepositoryConfig::default()
    }
}

fn no_environment() -> Environment {
    Environment {
        interval: None,
        new_files: None,
        remote: None,
        commit_message: None,
        directory: None,
    }
}

fn no_tray() -> TrayVariables {
    TrayVariables {
        enabled: false,
        icon: None,
    }
}

#[test]
fn watch_selects_only_watch_enabled_repositories_when_any_are_marked() {
    let config = config_with_repos(vec![repo("/tmp/repo-a", true), repo("/tmp/repo-b", false)]);

    let selected = configured_repositories_for_command(&config, &watch_command());
    assert_eq!(selected, vec!["/tmp/repo-a"]);
}

#[test]
fn default_command_uses_same_watch_repository_selection() {
    let config = config_with_repos(vec![repo("/tmp/repo-a", true), repo("/tmp/repo-b", false)]);

    let selected = configured_repositories_for_command(&config, &None);
    assert_eq!(selected, vec!["/tmp/repo-a"]);
}

#[test]
fn watch_selects_all_repositories_when_none_are_marked() {
    let config = config_with_repos(vec![repo("/tmp/repo-a", false), repo("/tmp/repo-b", false)]);

    let selected = configured_repositories_for_command(&config, &watch_command());
    assert_eq!(selected, vec!["/tmp/repo-a", "/tmp/repo-b"]);
}

#[test]
fn check_selects_all_configured_repositories() {
    let config = config_with_repos(vec![repo("/tmp/repo-a", true), repo("/tmp/repo-b", false)]);

    let selected = configured_repositories_for_command(&config, &Some(Command::Check));
    assert_eq!(selected, vec!["/tmp/repo-a", "/tmp/repo-b"]);
    let selected =
        configured_repositories_for_command(&config, &Some(Command::Sync { check_only: false }));
    assert_eq!(selected, vec!["/tmp/repo-a", "/tmp/repo-b"]);
    assert!(configured_repositories_for_command(&config, &Some(Command::Version)).is_empty());
}

#[test]
fn watch_interval_precedence_is_cli_then_repo_then_default() {
    assert_eq!(resolve_watch_interval_ms(Some(5), Some(10), 20), Some(5000));
    assert_eq!(resolve_watch_interval_ms(None, Some(10), 20), Some(10000));
    assert_eq!(resolve_watch_interval_ms(None, None, 20), Some(20000));
}

#[test]
fn repository_watch_settings_override_defaults_and_cli_wins() {
    let seconds = |s: f64| (s * 1000.0) as u64;
    let defaults = DefaultConfig::default();
    let repository = RepositoryConfig {
        path: "/tmp/repo".to_string(),
        debounce_ms: Some(seconds(2.0)),
        min_interval_ms: Some(seconds(30.0)),
        initial_sync: Some(false),
        watch_paths: vec!["history".to_string()],
        ..RepositoryConfig::default()
    };

    let resolved = resolve_repo_watch_config(
        WatchConfig::default(),
        &defaults,
        &repository,
        None,
        Some(seconds(5.0)),
        false,
        &Vec::new(),
    );
    assert_eq!(resolved.debounce_ms, 2000);
    assert_eq!(resolved.min_interval_ms, 5000);
    assert!(!resolved.sync_on_start);
    assert_eq!(resolved.watch_paths, vec!["history"]);

    let resolved = resolve_repo_watch_config(
        WatchConfig::default(),
        &defaults,
        &repo("/tmp/other", true),
        None,
        None,
        true,
        &vec!["here".to_string()],
    );
    assert_eq!(resolved.debounce_ms, 500);
    assert_eq!(resolved.min_interval_ms, 1000);
    assert!(!resolved.sync_on_start);
    assert_eq!(resolved.watch_paths, vec!["here"]);
}

#[test]
fn the_flag_comes_before_the_argument_and_that_before_the_environment() {
    let some = |t: &str| Some(t.to_string());
    assert_eq!(resolve_repo_path(&some("/a"), &some("/b"), &some("/c")), some("/a"));
    assert_eq!(resolve_repo_path(&None, &some("/b"), &some("/c")), some("/b"));
    assert_eq!(resolve_repo_path(&None, &None, &some("/c")), some("/c"));
    assert_eq!(resolve_repo_path(&None, &None, &None), None);
    // Only a leading tilde that stands for itself is the home directory.
    assert_eq!(resolve_repo_path(&some("/a/~/b"), &None, &None), some("/a/~/b"));
    assert_eq!(resolve_repo_path(&some("~other/b"), &None, &None), some("~other/b"));
    let expanded = resolve_repo_path(&some("~/notes"), &None, &None).unwrap();
    assert!(expanded.ends_with("/notes"));
    assert_eq!(expanded, shellexpand::tilde("~/notes"));
}

#[test]
fn each_command_has_its_job() {
    let defaults = DefaultConfig::default();
    let repository = RepositoryConfig {
        interval: Some(7),
        ..repo("/r", true)
    };
    let job = |command: Option<Command>| {
        job_for(&command, true, true, &no_tray(), &no_environment(), &defaults, &repository)
    };
    assert!(matches!(job(Some(Command::Check)), Some(Job::Check)));
    assert!(matches!(
        job(Some(Command::Sync { check_only: true })),
        Some(Job::Check)
    ));
    assert!(matches!(
        job(Some(Command::Sync { check_only: false })),
        Some(Job::Sync)
    ));
    assert!(job(Some(Command::Init { force: true })).is_none());
    assert!(job(Some(Command::Version)).is_none());
    let Some(Job::Watch(watch)) = job(None) else {
        panic!("watching is the default")
    };
    assert!(watch.dry_run && watch.sync_on_start && !watch.enable_tray);
    assert_eq!(watch.periodic_sync_interval_ms, Some(7000));
    let options = WatchOptions {
        interval: Some(300),
        tray: true,
        tray_icon: Some("git".to_string()),
        ..WatchOptions::default()
    };
    let Some(Job::Watch(watch)) = job(Some(Command::Watch(options))) else {
        panic!("not watching")
    };
    assert_eq!(watch.periodic_sync_interval_ms, Some(300_000));
    assert!(watch.enable_tray);
    assert_eq!(watch.tray_icon.as_deref(), Some("git"));
}

#[test]
fn an_existing_configuration_is_overwritten_only_by_force() {
    assert!(init_config("/c.toml", false, false).is_ok());
    assert!(init_config("/c.toml", true, true).is_ok());
    assert_eq!(
        init_config("/c\".toml", true, false),
        Err("Config file already exists at \"/c\\\".toml\". Use --force to overwrite.".to_string())
    );
    assert!(no_repositories().starts_with("No repository specified"));
}

#[test]
fn what_fails_is_tried_again_a_while_later() {
    let ready = |shutdown: bool| supervise(WatchOutcome::Ready { shutdown });
    assert!(matches!(ready(false), WatchStep::Ensure));
    assert!(matches!(ready(true), WatchStep::Stop));
    assert!(matches!(supervise(WatchOutcome::Ensured(Ok(()))), WatchStep::Watch));
    let absent = supervise(WatchOutcome::Ensured(Err("no such host".to_string())));
    assert!(matches!(
        absent,
        WatchStep::Retry { ref error, seconds: 5 } if error == "no such host"
    ));
    let failed = supervise(WatchOutcome::Watched(Err(SyncError::Other("full".to_string()))));
    assert!(matches!(
        failed,
        WatchStep::Retry { ref error, seconds: 5 } if error == "Other error: full"
    ));
    assert!(matches!(supervise(WatchOutcome::Watched(Ok(()))), WatchStep::Stop));
}

#[test]
fn defaults_are_standard() {
    assert_eq!(default_sync_interval(), 60);
    assert!(default_sync_new_files());
    assert_eq!(default_commit_message(), "changes from {hostname} on {timestamp}");
    assert_eq!(default_remote(), "origin");
    let defaults = DefaultConfig::default();
    assert_eq!(defaults.sync_interval, 60);
    assert!(!defaults.conflict_branch && !defaults.skip_hooks && defaults.initial_sync);
    let watch = WatchConfig::default();
    assert_eq!((watch.debounce_ms, watch.min_interval_ms), (500, 1000));
}

#[test]
fn the_file_is_read_once_and_the_environment_comes_on_top() {
    let file = config_with_repos(vec![RepositoryConfig {
        remote: Some("backup".to_string()),
        branch: Some("main".to_string()),
        sync_new_files: Some(false),
        conflict_branch: Some(true),
        ..repo("/notes", true)
    }]);
    let env = Environment {
        interval: Some("15".to_string()),
        new_files: Some("maybe".to_string()),
        remote: Some("mirror".to_string()),
        commit_message: Some("hello".to_string()),
        directory: Some("/dots".to_string()),
    };
    let mut loader = ConfigLoader::new();
    let config = loader.load(ConfigFile::Found(file), &env).unwrap();
    assert_eq!(config.defaults.sync_interval, 15);
    assert!(config.defaults.sync_new_files);
    assert_eq!(config.defaults.remote, "mirror");
    assert_eq!(config.defaults.commit_message, "hello");
    assert_eq!(config.repositories.len(), 2);
    assert_eq!(config.repositories[1].path, "/dots");
    assert!(config.repositories[1].watch);

    // From now on nothing is read again.
    let again = loader
        .load(ConfigFile::Unreadable("gone".to_string()), &no_environment())
        .unwrap();
    assert_eq!(again.repositories.len(), 2);
    let found = loader
        .load_for_repo("/notes/", ConfigFile::Missing, &env)
        .unwrap();
    assert_eq!(found.remote.as_deref(), Some("backup"));
    let absent = loader
        .load_for_repo("/other", ConfigFile::Missing, &env)
        .unwrap();
    assert_eq!(absent.path, "/other");
    assert!(!absent.watch && absent.remote.is_none());

    let sync = loader
        .to_sync_config("/notes", None, &None, ConfigFile::Missing, &env)
        .unwrap();
    assert_eq!(sync.remote_name, "mirror");
    assert!(!sync.sync_new_files);
    assert_eq!(sync.branch_name, "main");
    assert_eq!(sync.target_branch.as_deref(), Some("main"));
    assert!(sync.conflict_branch);
    assert_eq!(sync.commit_message.as_deref(), Some("hello"));
    let sync = loader
        .to_sync_config(
            "/notes",
            Some(true),
            &Some("cli".to_string()),
            ConfigFile::Missing,
            &no_environment(),
        )
        .unwrap();
    assert_eq!(sync.remote_name, "cli");
    assert!(sync.sync_new_files);
    let sync = loader
        .to_sync_config("/notes", None, &None, ConfigFile::Missing, &no_environment())
        .unwrap();
    assert_eq!(sync.remote_name, "backup");
    let sync = loader
        .to_sync_config("/other", None, &None, ConfigFile::Missing, &no_environment())
        .unwrap();
    assert_eq!(sync.remote_name, "mirror");
    assert_eq!(sync.branch_name, "");
}

#[test]
fn a_configuration_that_cannot_be_had_is_an_error() {
    let env = no_environment();
    let error = |file: ConfigFile| ConfigLoader::new().load(file, &env).unwrap_err();
    assert_eq!(
        error(ConfigFile::NoDirectory).message(),
        "Other error: Could not determine config directory"
    );
    assert!(matches!(
        error(ConfigFile::Unreadable("denied".to_string())),
        SyncError::IoError(ref why) if why == "denied"
    ));
    assert_eq!(
        error(ConfigFile::Malformed("line 1".to_string())).message(),
        "Other error: Failed to parse config: line 1"
    );
    let mut loader = ConfigLoader::default();
    let config = loader.load(ConfigFile::Missing, &env).unwrap();
    assert!(config.repositories.is_empty());
}

#[test]
fn configurations_are_where_they_were_put_or_where_they_usually_are() {
    let explicit = ConfigLoader::new().with_config_path("/etc/sync.toml");
    assert_eq!(explicit.config_file().as_deref(), Some("/etc/sync.toml"));
    if let Some(usual) = ConfigLoader::new().config_file() {
        assert!(usual.ends_with("/config.toml"));
        let expected = directories::ProjectDirs::from("", "", "git-sync-rs")
            .unwrap()
            .config_dir()
            .join("config.toml");
        assert_eq!(usual, expected.to_string_lossy());
    }
}

#[test]
fn the_example_is_a_configuration() {
    let example = create_example_config();
    assert!(example.starts_with("# git-sync-rs configuration file\n"));
    let parsed: toml::Table = example.parse().unwrap();
    assert_eq!(parsed["defaults"]["sync_interval"].as_integer(), Some(60));
    assert_eq!(parsed["repositories"].as_array().unwrap().len(), 2);
}

fn invocation(command: Option<Command>) -> Invocation {
    Invocation {
        directory: None,
        path: None,
        command,
        new_files: None,
        remote: None,
        dry_run: false,
    }
}

fn surroundings() -> Surroundings {
    Surroundings {
        env: no_environment(),
        tray: no_tray(),
        repository: Some("git@host:all".to_string()),
    }
}

#[test]
fn a_run_is_about_one_thing() {
    let mut asked = invocation(Some(Command::Init { force: true }));
    asked.path = Some("/r".to_string());
    assert!(matches!(errand_of(&asked, &None), Errand::Init { force: true }));
    asked.command = Some(Command::Version);
    assert!(matches!(errand_of(&asked, &None), Errand::Version));
    asked.command = None;
    assert!(matches!(errand_of(&asked, &None), Errand::Repository(ref p) if p == "/r"));
    let plain = invocation(Some(Command::Check));
    assert!(matches!(errand_of(&plain, &None), Errand::Configured));
    let variable = Some("/v".to_string());
    assert!(matches!(errand_of(&plain, &variable), Errand::Repository(ref p) if p == "/v"));
}

#[test]
fn repositories_get_their_tasks() {
    let config = config_with_repos(vec![
        RepositoryConfig {
            uri: Some("git@host:notes".to_string()),
            remote: Some("backup".to_string()),
            ..repo("/notes", true)
        },
        repo("/dots", false),
    ]);
    let check = invocation(Some(Command::Check));
    let paths = repositories_for(&config, &check, &None).unwrap();
    assert_eq!(paths, vec!["/notes", "/dots"]);
    let task = task_for(&config, &paths[0], &check, &surroundings(), false).unwrap();
    assert!(matches!(task.job, Job::Check));
    assert_eq!(task.url.as_deref(), Some("git@host:notes"));
    assert_eq!(task.sync_config.remote_name, "backup");
    let task = task_for(&config, &paths[1], &check, &surroundings(), false).unwrap();
    assert_eq!(task.url.as_deref(), Some("git@host:all"));
    assert_eq!(task.sync_config.remote_name, "origin");
    let given = Some("/other".to_string());
    assert_eq!(
        repositories_for(&config, &invocation(None), &given).unwrap(),
        vec!["/other"]
    );
    let watching = invocation(None);
    let task = task_for(&config, "/notes", &watching, &surroundings(), false).unwrap();
    assert!(matches!(task.job, Job::Watch(_)));
    let version = invocation(Some(Command::Version));
    assert!(task_for(&config, "/notes", &version, &surroundings(), false).is_none());
    assert_eq!(
        repositories_for(&Config::default(), &check, &None),
        Err(no_repositories())
    );
    // An interval that cannot be counted in milliseconds.
    let endless = invocation(Some(Command::Watch(WatchOptions {
        interval: Some(u64::MAX),
        ..WatchOptions::default()
    })));
    assert!(task_for(&config, "/notes", &endless, &surroundings(), false).is_none());
}

#[test]
fn repositories_that_are_watched_side_by_side_share_an_indicator() {
    let config = config_with_repos(vec![RepositoryConfig {
        name: Some("Notes".to_string()),
        ..repo("/notes", true)
    }]);
    let mut around = surroundings();
    around.tray = TrayVariables {
        enabled: true,
        icon: Some("git".to_string()),
    };
    let watching = invocation(None);
    let among = task_for(&config, "/notes", &watching, &around, false).unwrap();
    assert_eq!(among.name.as_deref(), Some("Notes"));
    assert!(matches!(among.job, Job::Watch(ref watch) if !watch.enable_tray));
    let alone = task_for(&config, "/notes", &watching, &around, true).unwrap();
    assert!(matches!(alone.job, Job::Watch(ref watch) if watch.enable_tray));
    let shared = shared_tray(&watching.command, &around.tray).unwrap();
    assert_eq!(shared.icon.as_deref(), Some("git"));
    assert!(shared_tray(&None, &no_tray()).is_none());
    assert!(shared_tray(&Some(Command::Check), &around.tray).is_none());
    let options = WatchOptions {
        tray: true,
        tray_icon: Some("own".to_string()),
        ..WatchOptions::default()
    };
    let shared = shared_tray(&Some(Command::Watch(options)), &no_tray()).unwrap();
    assert_eq!(shared.icon.as_deref(), Some("own"));
}

#[test]
fn the_environment_comes_before_what_is_configured_for_a_repository() {
    let file = || {
        ConfigFile::Found(config_with_repos(vec![RepositoryConfig {
            commit_message: Some("repo".to_string()),
            interval: Some(7),
            ..repo("/r", true)
        }]))
    };
    let env = Environment {
        commit_message: Some("env".to_string()),
        interval: Some("15".to_string()),
        ..no_environment()
    };
    let message = |env: &Environment| {
        ConfigLoader::new()
            .to_sync_config("/r", None, &None, file(), env)
            .unwrap()
            .commit_message
    };
    assert_eq!(message(&env).as_deref(), Some("env"));
    assert_eq!(message(&no_environment()).as_deref(), Some("repo"));
    let interval = |env: Environment, option: Option<u64>| {
        let config = ConfigLoader::new().load(file(), &env).unwrap();
        let command = Command::Watch(WatchOptions {
            interval: option,
            ..WatchOptions::default()
        });
        let around = Surroundings {
            env,
            ..surroundings()
        };
        match task_for(&config, "/r", &invocation(Some(command)), &around, true) {
            Some(Task {
                job: Job::Watch(watch),
                ..
            }) => watch.periodic_sync_interval_ms,
            _ => None,
        }
    };
    assert_eq!(interval(no_environment(), None), Some(7000));
    assert_eq!(interval(env, None), Some(15_000));
    let env = Environment {
        interval: Some("15".to_string()),
        ..no_environment()
    };
    assert_eq!(interval(env, Some(3)), Some(3000));
    let nonsense = Environment {
        interval: Some("soon".to_string()),
        ..no_environment()
    };
    assert_eq!(interval(nonsense, None), Some(7000));
}

#[test]
fn a_leading_tilde_is_the_home_directory() {
    let some = |t: &str| Some(t.to_string());
    let home = some("/home/ann");
    let at = |path: &str| resolve_repo_path_at(&some(path), &None, &None, &home).unwrap();
    assert_eq!(at("~/notes"), "/home/ann/notes");
    assert_eq!(at("~"), "/home/ann");
    assert_eq!(at("~other/b"), "~other/b");
    assert_eq!(at("/a/~/b"), "/a/~/b");
    let unknown = resolve_repo_path_at(&None, &some("~/notes"), &None, &None);
    assert_eq!(unknown, some("~/notes"));
    let mut asked = invocation(None);
    asked.path = some("~/notes");
    assert!(matches!(
        errand_at(&asked, &None, &home),
        Errand::Repository(ref p) if p == "/home/ann/notes"
    ));
    let file = ConfigFile::Found(config_with_repos(vec![repo("~/my-notes", true)]));
    let env = Environment {
        directory: some("~/dots"),
        ..no_environment()
    };
    let config = merge_config(file, &env, &home).unwrap();
    assert_eq!(config.repositories[0].path, "/home/ann/my-notes");
    assert_eq!(config.repositories[1].path, "/home/ann/dots");
    let malformed = ConfigFile::Malformed("line 1".to_string());
    assert!(merge_config(malformed, &env, &home).is_err());
    // The same where the machine says where the home directory is.
    let file = ConfigFile::Found(config_with_repos(vec![repo("~/my-notes", true)]));
    let config = ConfigLoader::new().load(file, &no_environment()).unwrap();
    assert_eq!(config.repositories[0].path, shellexpand::tilde("~/my-notes"));
}

#[test]
fn configurations_are_in_the_directory_for_them() {
    let found = || {
        Some(Directories {
            application: "git-sync-rs".to_string(),
            config: Some("/c".to_string()),
            state: Some(Some("/s".to_string())),
            data_local: Some("/d".to_string()),
        })
    };
    let usual = ConfigLoader::new();
    assert_eq!(usual.config_path_in(found()).as_deref(), Some("/c/config.toml"));
    assert_eq!(usual.config_path_in(None), None);
    let mut unknown = found();
    unknown.as_mut().unwrap().config = None;
    assert_eq!(usual.config_path_in(unknown), None);
    let explicit = ConfigLoader::new().with_config_path("/e.toml");
    assert_eq!(explicit.config_path_in(found()).as_deref(), Some("/e.toml"));
    assert_eq!(explicit.config_path_in(None).as_deref(), Some("/e.toml"));
}

#[test]
fn replies_say_the_time_in_the_layout_that_was_asked_for() {
    let t = LocalTime::new(1_710_513_045, -8 * 3600).unwrap();
    let reply = |layout: TimeLayout| host_and_time_at(Ok("box".to_string()), t, layout);
    assert!(matches!(
        reply(TimeLayout::Message),
        Reply::HostAndTime(Ok(ref host), ref time)
            if host == "box" && time == "2024-03-15 06:30:45 AM -08:00"
    ));
    assert!(matches!(
        reply(TimeLayout::Branch),
        Reply::HostAndTime(Ok(_), ref time) if time == "2024-03-15-063045"
    ));
    let before = chrono::Local::now().timestamp();
    let now = local_now();
    let after = chrono::Local::now().timestamp();
    assert!(before <= now.unix_secs && now.unix_secs <= after);
    let Reply::HostAndTime(_, time) = host_and_time(TimeLayout::Branch) else {
        panic!("another reply")
    };
    assert_eq!(time.len(), "2024-03-15-063045".len());
}

#[test]
fn repositories_have_their_turn_until_one_fails() {
    let mut stage = Stage::Ensure(0);
    let mut seen = Vec::new();
    while !matches!(stage, Stage::Finished { .. }) {
        seen.push(stage);
        stage = next_stage(stage, true, 2);
    }
    assert_eq!(
        seen,
        vec![
            Stage::Ensure(0),
            Stage::Run(0),
            Stage::Ensure(1),
            Stage::Run(1)
        ]
    );
    assert_eq!(stage, Stage::Finished { ok: true });
    assert_eq!(
        next_stage(Stage::Run(0), false, 2),
        Stage::Finished { ok: false }
    );
    assert_eq!(
        next_stage(Stage::Ensure(1), false, 2),
        Stage::Finished { ok: false }
    );
}
