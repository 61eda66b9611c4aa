//! What the command line asks for.

use crate::config::{
    first_of, number_in, or_else, Config, DefaultConfig, Environment, RepositoryConfig,
};
use crate::error::{message_of, SyncError};
use crate::home::{expand_tilde_at, expands_to, home_directory, paths_at_home_lead_there};
use crate::path;
use crate::text;
use crate::watch::WatchConfig;
use vstd::prelude::*;
use vstd::string::*;

verus! {

/// A command.
#[derive(Debug, Clone)]
pub enum Command {
    /// Synchronize once, or only check whether that can be done
    Sync { check_only: bool },
    /// Check whether a synchronization can be done
    Check,
    /// Watch, and synchronize what changes
    Watch(WatchOptions),
    /// Write an example of a configuration
    Init { force: bool },
    /// Say which version this is
    Version,
}

/// How to watch, as far as the command line says.
#[derive(Debug, Clone)]
pub struct WatchOptions {
    pub debounce_ms: Option<u64>,
    pub min_interval_ms: Option<u64>,
    /// How often to synchronize even without changes, in seconds
    pub interval: Option<u64>,
    pub no_initial_sync: bool,
    pub watch_paths: Vec<String>,
    pub tray: bool,
    pub tray_icon: Option<String>,
}

impl Default for WatchOptions {
    fn default() -> (o: Self)
        ensures
            o.debounce_ms is None,
            o.min_interval_ms is None,
            o.interval is None,
            !o.no_initial_sync,
            o.watch_paths@.len() == 0,
            !o.tray,
            o.tray_icon is None,
    {
        WatchOptions {
            debounce_ms: None,
            min_interval_ms: None,
            interval: None,
            no_initial_sync: false,
            watch_paths: Vec::new(),
            tray: false,
            tray_icon: None,
        }
    }
}

/// Whether `r` is where the repository is: where what is given leads.
pub open spec fn leads_to(
    given: Option<String>,
    home: Option<Seq<char>>,
    r: Option<String>,
) -> bool {
    match given {
        Some(given) => r matches Some(expanded) && expands_to(given@, home, expanded@),
        None => r is None,
    }
}

/// Where the repository is: what the flag says first, then the argument, then the environment.
pub fn resolve_repo_path(
    directory: &Option<String>,
    path: &Option<String>,
    variable: &Option<String>,
) -> (r: Option<String>)
    ensures
        exists|home: Option<Seq<char>>| #[trigger]
            leads_to(first_of(*directory, first_of(*path, *variable)), home, r),
{
    let home: Option<String> = home_directory();
    let r: Option<String> = resolve_repo_path_at(directory, path, variable, &home);
    assert(leads_to(first_of(*directory, first_of(*path, *variable)), text::option_view(home), r));
    r
}

/// The same, where the home directory is the given one.
pub fn resolve_repo_path_at(
    directory: &Option<String>,
    path: &Option<String>,
    variable: &Option<String>,
    home: &Option<String>,
) -> (r: Option<String>)
    ensures
        leads_to(first_of(*directory, first_of(*path, *variable)), text::option_view(*home), r),
{
    if let Some(directory) = directory {
        Some(expand_tilde_at(directory.as_str(), home))
    } else if let Some(path) = path {
        Some(expand_tilde_at(path.as_str(), home))
    } else if let Some(variable) = variable {
        Some(expand_tilde_at(variable.as_str(), home))
    } else {
        None
    }
}

/// The paths of the first `n` repositories that are watched, or of all of them.
pub open spec fn paths_of(repositories: Seq<RepositoryConfig>, watched: bool, n: nat) -> Seq<
    Seq<char>,
>
    decreases n,
{
    if n == 0 {
        Seq::empty()
    } else {
        let before = paths_of(repositories, watched, (n - 1) as nat);
        if !watched || repositories[n - 1].watch {
            before.push(repositories[n - 1].path@)
        } else {
            before
        }
    }
}

/// Which of the configured repositories a command is for: for watching those that are to be
/// watched, or all where none is; for checking and synchronizing all.
pub open spec fn selected(repositories: Seq<RepositoryConfig>, command: Option<Command>) -> Seq<
    Seq<char>,
> {
    let all = paths_of(repositories, false, repositories.len());
    let watched = paths_of(repositories, true, repositories.len());
    match command {
        None | Some(Command::Watch(_)) => if watched.len() == 0 {
            all
        } else {
            watched
        },
        Some(Command::Check) | Some(Command::Sync { .. }) => all,
        Some(Command::Init { .. }) | Some(Command::Version) => Seq::empty(),
    }
}

/// The paths of the repositories that are watched, or of all of them.
fn collect_paths(repositories: &Vec<RepositoryConfig>, watched: bool) -> (paths: Vec<String>)
    ensures
        text::views(paths@) == paths_of(repositories@, watched, repositories@.len()),
{
    let mut paths: Vec<String> = Vec::new();
    assert(text::views(paths@) =~= Seq::empty());
    let mut i: usize = 0;
    while i < repositories.len()
        invariant
            i <= repositories@.len(),
            text::views(paths@) == paths_of(repositories@, watched, i as nat),
        decreases repositories@.len() - i,
    {
        if !watched || repositories[i].watch {
            let ghost before = paths@;
            paths.push(repositories[i].path.clone());
            assert(text::views(paths@) =~= text::views(before).push(
                repositories@[i as int].path@,
            ));
        }
        i = i + 1;
    }
    paths
}

/// Which of the configured repositories a command is for.
pub fn configured_repositories_for_command(config: &Config, command: &Option<Command>) -> (paths:
    Vec<String>)
    ensures
        text::views(paths@) == selected(config.repositories@, *command),
{
    match command {
        None | Some(Command::Watch(_)) => {
            let watched: Vec<String> = collect_paths(&config.repositories, true);
            if watched.len() == 0 {
                collect_paths(&config.repositories, false)
            } else {
                watched
            }
        },
        Some(Command::Check) | Some(Command::Sync { .. }) => collect_paths(
            &config.repositories,
            false,
        ),
        Some(Command::Init { .. }) | Some(Command::Version) => {
            let none: Vec<String> = Vec::new();
            assert(text::views(none@) =~= Seq::empty());
            none
        },
    }
}

/// How often to synchronize even without changes, in seconds.
pub open spec fn interval_secs(
    cli_interval: Option<u64>,
    repo_interval: Option<u64>,
    default_interval: u64,
) -> u64 {
    or_else(first_of(cli_interval, repo_interval), default_interval)
}

/// How often to synchronize even without changes, in milliseconds: what the command line says
/// first, then what is configured for the repository, then the default.
pub fn resolve_watch_interval_ms(
    cli_interval: Option<u64>,
    repo_interval: Option<u64>,
    default_interval: u64,
) -> (ms: Option<u64>)
    requires
        interval_secs(cli_interval, repo_interval, default_interval) * 1000 <= u64::MAX,
    ensures
        ms == Some(
            (interval_secs(cli_interval, repo_interval, default_interval) * 1000) as u64,
        ),
{
    let secs: u64 = match (cli_interval, repo_interval) {
        (Some(secs), _) => secs,
        (None, Some(secs)) => secs,
        (None, None) => default_interval,
    };
    Some(secs * 1000)
}

/// How a repository is watched: what the command line says first, then what is configured for the
/// repository, then the defaults; the rest as in `base`.
pub open spec fn watch_settings(
    base: WatchConfig,
    d: DefaultConfig,
    r: RepositoryConfig,
    debounce_ms: Option<u64>,
    min_interval_ms: Option<u64>,
    no_initial_sync: bool,
    watch_paths: Seq<String>,
    out: WatchConfig,
) -> bool {
    &&& out.debounce_ms == or_else(first_of(debounce_ms, r.debounce_ms), d.debounce_ms)
    &&& out.min_interval_ms == or_else(
        first_of(min_interval_ms, r.min_interval_ms),
        d.min_interval_ms,
    )
    &&& out.sync_on_start == (!no_initial_sync && or_else(r.initial_sync, d.initial_sync))
    &&& out.watch_paths@ == if watch_paths.len() == 0 {
        r.watch_paths@
    } else {
        watch_paths
    }
    &&& out.dry_run == base.dry_run
    &&& out.enable_tray == base.enable_tray
    &&& out.tray_icon == base.tray_icon
    &&& out.periodic_sync_interval_ms == base.periodic_sync_interval_ms
}

/// How a repository is watched.
pub fn resolve_repo_watch_config(
    watch_config: WatchConfig,
    defaults: &DefaultConfig,
    repo: &RepositoryConfig,
    cli_debounce_ms: Option<u64>,
    cli_min_interval_ms: Option<u64>,
    cli_no_initial_sync: bool,
    cli_watch_paths: &Vec<String>,
) -> (out: WatchConfig)
    ensures
        watch_settings(
            watch_config,
            *defaults,
            *repo,
            cli_debounce_ms,
            cli_min_interval_ms,
            cli_no_initial_sync,
            cli_watch_paths@,
            out,
        ),
{
    let mut out: WatchConfig = watch_config;
    out.debounce_ms = match (cli_debounce_ms, repo.debounce_ms) {
        (Some(ms), _) => ms,
        (None, Some(ms)) => ms,
        (None, None) => defaults.debounce_ms,
    };
    out.min_interval_ms = match (cli_min_interval_ms, repo.min_interval_ms) {
        (Some(ms), _) => ms,
        (None, Some(ms)) => ms,
        (None, None) => defaults.min_interval_ms,
    };
    out.sync_on_start = if cli_no_initial_sync {
        false
    } else {
        match repo.initial_sync {
            Some(initial_sync) => initial_sync,
            None => defaults.initial_sync,
        }
    };
    out.watch_paths = if cli_watch_paths.len() == 0 {
        text::copy_list(&repo.watch_paths)
    } else {
        text::copy_list(cli_watch_paths)
    };
    out
}

/// What is to be done with one repository.
#[derive(Debug)]
pub enum Job {
    /// Check whether a synchronization can be done
    Check,
    /// Synchronize
    Sync,
    /// Watch
    Watch(WatchConfig),
}

/// What the environment says of the indicator.
#[derive(Debug)]
pub struct TrayVariables {
    /// Whether `GIT_SYNC_TRAY` is set
    pub enabled: bool,
    /// `GIT_SYNC_TRAY_ICON`
    pub icon: Option<String>,
}

/// How often to synchronize, in seconds, for a command: what the command line says first, then the
/// environment, then what is configured for the repository, then the default.
pub open spec fn interval_for(
    command: Option<Command>,
    env: Environment,
    d: DefaultConfig,
    r: RepositoryConfig,
) -> u64 {
    let given = match command {
        Some(Command::Watch(options)) => options.interval,
        _ => None,
    };
    interval_secs(first_of(given, number_in(env.interval)), r.interval, d.sync_interval)
}

/// Whether `out` is how a repository is watched for the given options, alone or among others:
/// only one that is watched alone has an indicator of its own.
pub open spec fn watches_with(
    options: WatchOptions,
    dry_run: bool,
    alone: bool,
    tray: TrayVariables,
    env: Environment,
    d: DefaultConfig,
    r: RepositoryConfig,
    out: WatchConfig,
) -> bool {
    exists|base: WatchConfig|
        #![trigger base.dry_run]
        base.dry_run == dry_run && base.enable_tray == (alone && (options.tray || tray.enabled))
            && base.tray_icon == first_of(options.tray_icon, tray.icon)
            && base.periodic_sync_interval_ms == Some(
            (interval_secs(
                first_of(options.interval, number_in(env.interval)),
                r.interval,
                d.sync_interval,
            ) * 1000) as u64,
        ) && watch_settings(
            base,
            d,
            r,
            options.debounce_ms,
            options.min_interval_ms,
            options.no_initial_sync,
            options.watch_paths@,
            out,
        )
}

/// Whether these are the options of a command that watches: those given, or none without a
/// command.
pub open spec fn options_of(command: Option<Command>, options: WatchOptions) -> bool {
    match command {
        Some(Command::Watch(given)) => options == given,
        None => {
            &&& options.debounce_ms is None
            &&& options.min_interval_ms is None
            &&& options.interval is None
            &&& !options.no_initial_sync
            &&& options.watch_paths@.len() == 0
            &&& !options.tray
            &&& options.tray_icon is None
        },
        _ => false,
    }
}

/// The interval that is given: what the command line says first, then the environment.
fn given_interval(option: Option<u64>, env: &Environment) -> (secs: Option<u64>)
    ensures
        secs == first_of(option, number_in(env.interval)),
{
    match (option, &env.interval) {
        (Some(secs), _) => Some(secs),
        (None, Some(value)) => text::parse_u64(value.as_str()),
        (None, None) => None,
    }
}

/// How a repository is watched for the given options, alone or among others.
fn watch_with(
    options: &WatchOptions,
    dry_run: bool,
    alone: bool,
    tray: &TrayVariables,
    env: &Environment,
    defaults: &DefaultConfig,
    repo: &RepositoryConfig,
) -> (out: WatchConfig)
    requires
        interval_secs(
            first_of(options.interval, number_in(env.interval)),
            repo.interval,
            defaults.sync_interval,
        ) * 1000 <= u64::MAX,
    ensures
        watches_with(*options, dry_run, alone, *tray, *env, *defaults, *repo, out),
{
    let tray_icon: Option<String> = match (&options.tray_icon, &tray.icon) {
        (Some(icon), _) => Some(icon.clone()),
        (None, Some(icon)) => Some(icon.clone()),
        (None, None) => None,
    };
    let mut base: WatchConfig = WatchConfig::default();
    base.dry_run = dry_run;
    base.enable_tray = alone && (options.tray || tray.enabled);
    base.tray_icon = tray_icon;
    base.periodic_sync_interval_ms = resolve_watch_interval_ms(
        given_interval(options.interval, env),
        repo.interval,
        defaults.sync_interval,
    );
    let ghost given = base;
    let out: WatchConfig = resolve_repo_watch_config(
        base,
        defaults,
        repo,
        options.debounce_ms,
        options.min_interval_ms,
        options.no_initial_sync,
        &options.watch_paths,
    );
    assert(given.dry_run == dry_run);
    out
}

/// Whether `job` is what a command asks to be done with a repository, alone or among others.
/// Watching is the default.
pub open spec fn is_job(
    command: Option<Command>,
    dry_run: bool,
    alone: bool,
    tray: TrayVariables,
    env: Environment,
    d: DefaultConfig,
    r: RepositoryConfig,
    job: Job,
) -> bool {
    match command {
        Some(Command::Check) => job is Check,
        Some(Command::Sync { check_only }) => if check_only {
            job is Check
        } else {
            job is Sync
        },
        Some(Command::Init { .. }) => false,
        Some(Command::Version) => false,
        Some(Command::Watch(options)) => job matches Job::Watch(out) && watches_with(
            options,
            dry_run,
            alone,
            tray,
            env,
            d,
            r,
            out,
        ),
        None => job matches Job::Watch(out) && exists|options: WatchOptions|
            #![trigger options_of(None, options)]
            options_of(None, options) && watches_with(
                options,
                dry_run,
                alone,
                tray,
                env,
                d,
                r,
                out,
            ),
    }
}

/// Whether a command goes by an interval that can be counted in milliseconds, if by one at all.
pub open spec fn countable(
    command: Option<Command>,
    env: Environment,
    d: DefaultConfig,
    r: RepositoryConfig,
) -> bool {
    (command is None || (command matches Some(Command::Watch(_)))) ==> interval_for(
        command,
        env,
        d,
        r,
    ) * 1000 <= u64::MAX
}

/// Whether a command is about repositories.
pub open spec fn about_repositories(command: Option<Command>) -> bool {
    match command {
        Some(Command::Init { .. }) => false,
        Some(Command::Version) => false,
        _ => true,
    }
}

/// Whether a command can go by the interval that is configured: it is counted in milliseconds, of
/// which there are not more than 64 bits hold. Only watching goes by it.
pub fn interval_fits(
    command: &Option<Command>,
    env: &Environment,
    defaults: &DefaultConfig,
    repo: &RepositoryConfig,
) -> (fits: bool)
    ensures
        fits == countable(*command, *env, *defaults, *repo),
{
    let given: Option<u64> = match command {
        None => None,
        Some(Command::Watch(options)) => options.interval,
        _ => {
            return true;
        },
    };
    let secs: u64 = match (given_interval(given, env), repo.interval) {
        (Some(secs), _) => secs,
        (None, Some(secs)) => secs,
        (None, None) => defaults.sync_interval,
    };
    secs <= 18446744073709551
}

/// What a command asks to be done with a repository, alone or among others; nothing for those that
/// are not about repositories. Watching is the default.
pub fn job_for(
    command: &Option<Command>,
    dry_run: bool,
    alone: bool,
    tray: &TrayVariables,
    env: &Environment,
    defaults: &DefaultConfig,
    repo: &RepositoryConfig,
) -> (job: Option<Job>)
    requires
        countable(*command, *env, *defaults, *repo),
    ensures
        match job {
            Some(job) => is_job(
                *command,
                dry_run,
                alone,
                *tray,
                *env,
                *defaults,
                *repo,
                job,
            ),
            None => !about_repositories(*command),
        },
{
    match command {
        Some(Command::Check) => Some(Job::Check),
        Some(Command::Sync { check_only }) => if *check_only {
            Some(Job::Check)
        } else {
            Some(Job::Sync)
        },
        Some(Command::Init { .. }) | Some(Command::Version) => None,
        Some(Command::Watch(options)) => Some(
            Job::Watch(watch_with(options, dry_run, alone, tray, env, defaults, repo)),
        ),
        None => {
            let options: WatchOptions = WatchOptions::default();
            assert(options_of(None, options));
            Some(Job::Watch(watch_with(&options, dry_run, alone, tray, env, defaults, repo)))
        },
    }
}

/// The error where there is nothing to do anything with.
pub fn no_repositories() -> (message: String)
    ensures
        message@
            == "No repository specified and no repositories configured. Use -d, provide a path, set GIT_SYNC_DIRECTORY, or add [[repositories]] to config."@,
{
    "No repository specified and no repositories configured. Use -d, provide a path, set GIT_SYNC_DIRECTORY, or add [[repositories]] to config.".to_string()
}

/// Whether an example is to be written to the given file: why not, if not.
pub fn init_config(config_path: &str, exists_already: bool, force: bool) -> (r: Result<
    (),
    String,
>)
    ensures
        match r {
            Ok(_) => !exists_already || force,
            Err(why) => exists_already && !force && why@ == "Config file already exists at "@
                + text::debug_quoted(config_path@) + ". Use --force to overwrite."@,
        },
{
    if exists_already && !force {
        return Err(
            "Config file already exists at ".to_string().concat(
                text::quote(config_path).as_str(),
            ).concat(". Use --force to overwrite."),
        );
    }
    Ok(())
}

/// The indicator that repositories have in common: its icon.
#[derive(Debug)]
pub struct SharedTray {
    pub icon: Option<String>,
}

/// Whether a command asks for an indicator, where it watches.
pub open spec fn wants_tray(command: Option<Command>, tray: TrayVariables) -> bool {
    match command {
        None => tray.enabled,
        Some(Command::Watch(options)) => options.tray || tray.enabled,
        _ => false,
    }
}

/// The icon that a command asks for.
pub open spec fn tray_icon_for(command: Option<Command>, tray: TrayVariables) -> Option<String> {
    match command {
        Some(Command::Watch(options)) => first_of(options.tray_icon, tray.icon),
        _ => tray.icon,
    }
}

/// The one indicator for all repositories that are watched side by side, where one is asked for.
pub fn shared_tray(command: &Option<Command>, tray: &TrayVariables) -> (shared: Option<SharedTray>)
    ensures
        shared is Some <==> wants_tray(*command, *tray),
        shared matches Some(shared) ==> shared.icon == tray_icon_for(*command, *tray),
{
    match command {
        None => if tray.enabled {
            Some(SharedTray { icon: text::copy_option(&tray.icon) })
        } else {
            None
        },
        Some(Command::Watch(options)) => if options.tray || tray.enabled {
            let icon: Option<String> = match (&options.tray_icon, &tray.icon) {
                (Some(icon), _) => Some(icon.clone()),
                (None, Some(icon)) => Some(icon.clone()),
                (None, None) => None,
            };
            Some(SharedTray { icon })
        } else {
            None
        },
        _ => None,
    }
}

/// What happens to a repository that is watched among others.
#[derive(Debug)]
pub enum WatchOutcome {
    /// It is about to be watched, or enough time has passed; all may have been asked to stop
    Ready { shutdown: bool },
    /// Whether it is there, or why not
    Ensured(Result<(), String>),
    /// Watching it ended
    Watched(Result<(), SyncError>),
}

/// What is to be done about it. The parameter is the representation of texts.
#[derive(Debug)]
pub enum WatchStep<S = String> {
    /// Make sure that it is there
    Ensure,
    Watch,
    /// Record the error, and wait for so many seconds
    Retry { error: S, seconds: u64 },
    Stop,
}

impl View for WatchStep {
    type V = WatchStep<Seq<char>>;

    open spec fn view(&self) -> WatchStep<Seq<char>> {
        match self {
            WatchStep::Ensure => WatchStep::Ensure,
            WatchStep::Watch => WatchStep::Watch,
            WatchStep::Retry { error, seconds } => WatchStep::Retry {
                error: error@,
                seconds: *seconds,
            },
            WatchStep::Stop => WatchStep::Stop,
        }
    }
}

/// What is to be done about a repository that is watched among others.
pub open spec fn supervised(outcome: WatchOutcome) -> WatchStep<Seq<char>> {
    match outcome {
        WatchOutcome::Ready { shutdown } => if shutdown {
            WatchStep::Stop
        } else {
            WatchStep::Ensure
        },
        WatchOutcome::Ensured(Ok(_)) => WatchStep::Watch,
        WatchOutcome::Ensured(Err(why)) => WatchStep::Retry { error: why@, seconds: 5 },
        WatchOutcome::Watched(Ok(_)) => WatchStep::Stop,
        WatchOutcome::Watched(Err(e)) => WatchStep::Retry { error: message_of(e@), seconds: 5 },
    }
}

/// Keeps a repository watched: what fails is recorded and tried again a while later; watching
/// stops where it is asked to.
pub fn supervise(outcome: WatchOutcome) -> (step: WatchStep)
    ensures
        step@ == supervised(outcome),
{
    match outcome {
        WatchOutcome::Ready { shutdown } => if shutdown {
            WatchStep::Stop
        } else {
            WatchStep::Ensure
        },
        WatchOutcome::Ensured(Ok(_)) => WatchStep::Watch,
        WatchOutcome::Ensured(Err(why)) => WatchStep::Retry { error: why, seconds: 5 },
        WatchOutcome::Watched(Ok(_)) => WatchStep::Stop,
        WatchOutcome::Watched(Err(e)) => WatchStep::Retry { error: e.message(), seconds: 5 },
    }
}

/// What the command line says of the interval comes before what the environment says, that before
/// what is configured for the repository, and that before the default.
pub proof fn intervals_have_precedence(
    command: Option<Command>,
    env: Environment,
    d: DefaultConfig,
    r: RepositoryConfig,
)
    ensures
        ({
            let secs = interval_for(command, env, d, r);
            let given = match command {
                Some(Command::Watch(options)) => options.interval,
                _ => None,
            };
            &&& given is Some ==> Some(secs) == given
            &&& given is None && number_in(env.interval) is Some ==> Some(secs) == number_in(
                env.interval,
            )
            &&& given is None && number_in(env.interval) is None && r.interval is Some ==> Some(
                secs,
            ) == r.interval
            &&& given is None && number_in(env.interval) is None && r.interval is None ==> secs
                == d.sync_interval
        }),
{
}

/// Repositories that are watched side by side have no indicators of their own; a repository that
/// is watched alone has one exactly where the one for all would be shown.
pub proof fn there_is_one_indicator(
    command: Option<Command>,
    dry_run: bool,
    alone: bool,
    tray: TrayVariables,
    env: Environment,
    d: DefaultConfig,
    r: RepositoryConfig,
    out: WatchConfig,
)
    requires
        is_job(command, dry_run, alone, tray, env, d, r, Job::Watch(out)),
    ensures
        out.enable_tray == (alone && wants_tray(command, tray)),
{
}

/// Watching is for the repositories that are to be watched, and no others, where there is one;
/// checking and synchronizing is for all.
pub proof fn watching_is_for_those_to_be_watched(
    repositories: Seq<RepositoryConfig>,
    command: Option<Command>,
)
    requires
        command is None || command matches Some(Command::Watch(_)),
    ensures
        (exists|i: int| 0 <= i < repositories.len() && (#[trigger] repositories[i]).watch)
            ==> selected(repositories, command) == paths_of(
            repositories,
            true,
            repositories.len(),
        ),
        (forall|i: int| 0 <= i < repositories.len() ==> !(#[trigger] repositories[i]).watch)
            ==> selected(repositories, command) == paths_of(
            repositories,
            false,
            repositories.len(),
        ),
{
    watched_paths(repositories, repositories.len());
}

proof fn watched_paths(repositories: Seq<RepositoryConfig>, n: nat)
    requires
        n <= repositories.len(),
    ensures
        paths_of(repositories, true, n).len() > 0 <==> exists|i: int|
            0 <= i < n && (#[trigger] repositories[i]).watch,
    decreases n,
{
    if n > 0 {
        watched_paths(repositories, (n - 1) as nat);
        if exists|i: int| 0 <= i < n && (#[trigger] repositories[i]).watch {
            let i = choose|i: int| 0 <= i < n && (#[trigger] repositories[i]).watch;
            if i == n - 1 {
                assert(repositories[n - 1].watch);
            }
        }
    }
}

/// Of several values the first that there is counts.
pub proof fn the_first_value_counts<T>(a: T, b: Option<T>, c: T)
    ensures
        first_of(Some(a), b) == Some(a),
        first_of(None, b) == b,
        or_else(Some(a), c) == a,
        or_else(None, c) == c,
{
}

/// Where a repository is, is where the flag says; without one where the argument says; without
/// both where the environment says; and without any of them nothing is said. What begins with `~`
/// and a slash is below the home directory, and what begins with anything else is as it is.
pub proof fn repositories_are_where_they_are_said_to_be(
    directory: Option<String>,
    path: Option<String>,
    variable: Option<String>,
    home: Seq<char>,
    r: Option<String>,
    below: Seq<char>,
)
    requires
        leads_to(first_of(directory, first_of(path, variable)), Some(home), r),
    ensures
        ({
            let led = |given: Seq<char>|
                r is Some && (given == seq!['~', '/'] + below ==> r->0@ == home + seq!['/'] + below)
                    && (given.len() > 0 && given[0] != '~' ==> r->0@ == given);
            &&& directory matches Some(given) ==> led(given@)
            &&& directory is None && path is Some ==> led(path->0@)
            &&& directory is None && path is None && variable is Some ==> led(variable->0@)
            &&& directory is None && path is None && variable is None ==> r is None
        }),
{
    if let Some(expanded) = r {
        let given = first_of(directory, first_of(path, variable))->0@;
        if given == seq!['~', '/'] + below {
            paths_at_home_lead_there(below, home, expanded@);
        }
    }
}

/// Checking and synchronizing is for every repository, in the order in which they are configured;
/// commands that are not about repositories are for none.
pub proof fn other_commands_are_for_all(
    repositories: Seq<RepositoryConfig>,
    check_only: bool,
    force: bool,
    i: int,
)
    ensures
        selected(repositories, Some(Command::Check)).len() == repositories.len(),
        selected(repositories, Some(Command::Sync { check_only })) == selected(
            repositories,
            Some(Command::Check),
        ),
        0 <= i < repositories.len() ==> selected(repositories, Some(Command::Check))[i]
            == repositories[i].path@,
        selected(repositories, Some(Command::Init { force })).len() == 0,
        selected(repositories, Some(Command::Version)).len() == 0,
{
    all_paths_are_there(repositories, repositories.len());
}

proof fn all_paths_are_there(repositories: Seq<RepositoryConfig>, n: nat)
    requires
        n <= repositories.len(),
    ensures
        paths_of(repositories, false, n).len() == n,
        forall|i: int|
            0 <= i < n ==> #[trigger] paths_of(repositories, false, n)[i] == repositories[i].path@,
    decreases n,
{
    if n > 0 {
        all_paths_are_there(repositories, (n - 1) as nat);
    }
}

/// What is watched where anything is to be watched: each repository that is to be, and no other.
pub proof fn exactly_those_to_be_watched_are_watched(
    repositories: Seq<RepositoryConfig>,
    command: Option<Command>,
    i: int,
)
    requires
        command is None || command matches Some(Command::Watch(_)),
        0 <= i < repositories.len(),
        repositories[i].watch,
    ensures
        selected(repositories, command).contains(repositories[i].path@),
        forall|k: int|
            0 <= k < selected(repositories, command).len() ==> exists|j: int|
                0 <= j < repositories.len() && (#[trigger] repositories[j]).watch
                    && repositories[j].path@ == #[trigger] selected(repositories, command)[k],
{
    watching_is_for_those_to_be_watched(repositories, command);
    assert(repositories[i].watch);
    watched_ones_are_there(repositories, repositories.len(), i);
}

proof fn watched_ones_are_there(repositories: Seq<RepositoryConfig>, n: nat, i: int)
    requires
        n <= repositories.len(),
    ensures
        0 <= i < n && repositories[i].watch ==> paths_of(repositories, true, n).contains(
            repositories[i].path@,
        ),
        forall|k: int|
            0 <= k < paths_of(repositories, true, n).len() ==> exists|j: int|
                0 <= j < n && (#[trigger] repositories[j]).watch && repositories[j].path@
                    == #[trigger] paths_of(repositories, true, n)[k],
    decreases n,
{
    if n > 0 {
        let before = paths_of(repositories, true, (n - 1) as nat);
        let all = paths_of(repositories, true, n);
        watched_ones_are_there(repositories, (n - 1) as nat, i);
        if 0 <= i < n && repositories[i].watch {
            if i == n - 1 {
                assert(all[all.len() - 1] == repositories[i].path@);
            } else {
                let k = choose|k: int| 0 <= k < before.len() && before[k] == repositories[i].path@;
                assert(all[k] == repositories[i].path@);
            }
        }
        assert forall|k: int| 0 <= k < all.len() implies exists|j: int|
            0 <= j < n && (#[trigger] repositories[j]).watch && repositories[j].path@
                == #[trigger] all[k] by {
            if k < before.len() {
                assert(all[k] == before[k]);
                let j = choose|j: int|
                    0 <= j < n - 1 && (#[trigger] repositories[j]).watch && repositories[j].path@
                        == before[k];
                assert(repositories[j].watch);
            } else {
                assert(repositories[n - 1].watch);
            }
        }
    }
}

/// How a repository is watched: what the command line says comes before what is configured for the
/// repository, and that before the defaults; it is synchronized at the beginning unless the command
/// line forbids it or the configuration says otherwise.
pub proof fn watching_goes_by_the_settings(
    options: WatchOptions,
    dry_run: bool,
    alone: bool,
    tray: TrayVariables,
    env: Environment,
    d: DefaultConfig,
    r: RepositoryConfig,
    out: WatchConfig,
)
    requires
        watches_with(options, dry_run, alone, tray, env, d, r, out),
    ensures
        options.debounce_ms matches Some(ms) ==> out.debounce_ms == ms,
        options.debounce_ms is None && r.debounce_ms is Some ==> out.debounce_ms
            == r.debounce_ms->0,
        options.debounce_ms is None && r.debounce_ms is None ==> out.debounce_ms == d.debounce_ms,
        options.min_interval_ms matches Some(ms) ==> out.min_interval_ms == ms,
        options.min_interval_ms is None && r.min_interval_ms is Some ==> out.min_interval_ms
            == r.min_interval_ms->0,
        options.min_interval_ms is None && r.min_interval_ms is None ==> out.min_interval_ms
            == d.min_interval_ms,
        options.no_initial_sync ==> !out.sync_on_start,
        !options.no_initial_sync && r.initial_sync is Some ==> out.sync_on_start
            == r.initial_sync->0,
        !options.no_initial_sync && r.initial_sync is None ==> out.sync_on_start == d.initial_sync,
        options.watch_paths@.len() > 0 ==> out.watch_paths@ == options.watch_paths@,
        options.watch_paths@.len() == 0 ==> out.watch_paths@ == r.watch_paths@,
        out.dry_run == dry_run,
        out.enable_tray == (alone && (options.tray || tray.enabled)),
        options.tray_icon is Some ==> out.tray_icon == options.tray_icon,
        options.tray_icon is None ==> out.tray_icon == tray.icon,
        options.interval matches Some(secs) ==> (secs * 1000 <= u64::MAX
            ==> out.periodic_sync_interval_ms == Some((secs * 1000) as u64)),
        options.interval is None && number_in(env.interval) is None && r.interval is Some
            && r.interval->0 * 1000 <= u64::MAX ==> out.periodic_sync_interval_ms == Some(
            (r.interval->0 * 1000) as u64,
        ),
        options.interval is None && number_in(env.interval) is None && r.interval is None
            && d.sync_interval * 1000 <= u64::MAX ==> out.periodic_sync_interval_ms == Some(
            (d.sync_interval * 1000) as u64,
        ),
{
}

/// Each command has its job: checking checks, synchronizing synchronizes unless it only checks, and
/// anything else that is about repositories watches.
pub proof fn commands_have_their_jobs(
    command: Option<Command>,
    dry_run: bool,
    alone: bool,
    tray: TrayVariables,
    env: Environment,
    d: DefaultConfig,
    r: RepositoryConfig,
    job: Job,
)
    requires
        is_job(command, dry_run, alone, tray, env, d, r, job),
    ensures
        command == Some(Command::Check) ==> job is Check,
        command matches Some(Command::Sync { check_only }) ==> (check_only ==> job is Check) && (
        !check_only ==> job is Sync),
        command is None || (command matches Some(Command::Watch(_))) ==> job is Watch,
        !(command matches Some(Command::Init { .. })) && !(command matches Some(Command::Version)),
        command is None && job is Watch ==> {
            let out = job->Watch_0;
            &&& out.dry_run == dry_run
            &&& out.debounce_ms == or_else(r.debounce_ms, d.debounce_ms)
            &&& out.sync_on_start == or_else(r.initial_sync, d.initial_sync)
            &&& out.watch_paths@ == r.watch_paths@
        },
        about_repositories(command) <==> !(command matches Some(Command::Init { .. })) && !(
        command matches Some(Command::Version)),
{
}

/// A repository that is watched among others stops being watched where that was asked for, before
/// it is looked for or once watching ends well; otherwise it is looked for, watched once it is
/// there, and tried again five seconds after anything failed, with the reason on record.
pub proof fn failures_do_not_end_supervision(
    shutdown: bool,
    there: Result<(), String>,
    watched: Result<(), SyncError>,
)
    ensures
        supervised(WatchOutcome::Ready { shutdown }) == if shutdown {
            WatchStep::<Seq<char>>::Stop
        } else {
            WatchStep::<Seq<char>>::Ensure
        },
        there is Ok ==> supervised(WatchOutcome::Ensured(there)) == WatchStep::<Seq<char>>::Watch,
        there matches Err(why) ==> supervised(WatchOutcome::Ensured(there)) == (WatchStep::<
            Seq<char>,
        >::Retry { error: why@, seconds: 5 }),
        watched is Ok ==> supervised(WatchOutcome::Watched(watched)) == WatchStep::<
            Seq<char>,
        >::Stop,
        watched matches Err(e) ==> supervised(WatchOutcome::Watched(watched)) == (WatchStep::<
            Seq<char>,
        >::Retry { error: message_of(e@), seconds: 5 }),
{
}

/// The indicator for all is asked for where the one of a repository would be, with the icon that
/// the command line names, or else the one that the environment names.
pub proof fn indicators_are_asked_for(
    options: WatchOptions,
    tray: TrayVariables,
    check_only: bool,
)
    ensures
        wants_tray(None, tray) == tray.enabled,
        wants_tray(Some(Command::Watch(options)), tray) == (options.tray || tray.enabled),
        !wants_tray(Some(Command::Check), tray),
        !wants_tray(Some(Command::Sync { check_only }), tray),
        tray_icon_for(None, tray) == tray.icon,
        options.tray_icon is Some ==> tray_icon_for(Some(Command::Watch(options)), tray)
            == options.tray_icon,
        options.tray_icon is None ==> tray_icon_for(Some(Command::Watch(options)), tray)
            == tray.icon,
{
}

/// A command can go by an interval that has no more milliseconds than can be counted; only watching
/// goes by one.
pub proof fn intervals_have_to_be_counted(
    command: Option<Command>,
    env: Environment,
    d: DefaultConfig,
    r: RepositoryConfig,
)
    ensures
        !(command is None) && !(command matches Some(Command::Watch(_))) ==> countable(
            command,
            env,
            d,
            r,
        ),
        command is None || (command matches Some(Command::Watch(_))) ==> (countable(
            command,
            env,
            d,
            r,
        ) <==> interval_for(command, env, d, r) <= 18446744073709551),
{
}

} // verus!
