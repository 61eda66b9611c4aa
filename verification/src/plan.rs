//! What a run of the program comes to: which repositories it is about, and what is done with each.

use crate::cli::{
    about_repositories, configured_repositories_for_command, countable, interval_fits, is_job,
    job_for, no_repositories, resolve_repo_path_at, selected, Command, Job, TrayVariables,
};
use crate::config::{
    config_for, find_repository, first_of, resolve_sync_config, resolved, Config, DefaultConfig,
    Environment, RepositoryConfig,
};
use crate::home::{expands_to, home_directory};
use crate::setup::clone_source;
use crate::sync::SyncConfig;
use crate::text;
use vstd::prelude::*;
use vstd::string::*;

verus! {

/// What the command line says.
#[derive(Debug)]
pub struct Invocation {
    /// The flag for the repository
    pub directory: Option<String>,
    /// The argument for the repository
    pub path: Option<String>,
    pub command: Option<Command>,
    pub new_files: Option<bool>,
    pub remote: Option<String>,
    pub dry_run: bool,
}

/// What the environment says beyond what is configured.
#[derive(Debug)]
pub struct Surroundings {
    pub env: Environment,
    pub tray: TrayVariables,
    /// `GIT_SYNC_REPOSITORY`
    pub repository: Option<String>,
}

/// What a run is about.
#[derive(Debug)]
pub enum Errand {
    /// Write an example of a configuration
    Init { force: bool },
    /// Say which version this is
    Version,
    /// One repository
    Repository(String),
    /// The repositories that are configured
    Configured,
}

/// Whether `errand` is what a run is about: commands that are about no repository come first;
/// then a repository that is given; then those that are configured.
pub open spec fn is_errand(
    i: Invocation,
    variable: Option<String>,
    home: Option<Seq<char>>,
    errand: Errand,
) -> bool {
    match i.command {
        Some(Command::Init { force }) => errand == (Errand::Init { force }),
        Some(Command::Version) => errand == Errand::Version,
        _ => match first_of(i.directory, first_of(i.path, variable)) {
            Some(given) => errand matches Errand::Repository(path) && expands_to(
                given@,
                home,
                path@,
            ),
            None => errand == Errand::Configured,
        },
    }
}

/// What a run is about. `variable` is `GIT_SYNC_DIRECTORY`.
pub fn errand_of(i: &Invocation, variable: &Option<String>) -> (errand: Errand)
    ensures
        exists|home: Option<Seq<char>>| #[trigger] is_errand(*i, *variable, home, errand),
{
    let home: Option<String> = home_directory();
    let errand: Errand = errand_at(i, variable, &home);
    assert(is_errand(*i, *variable, text::option_view(home), errand));
    errand
}

/// The same, where the home directory is the given one.
pub fn errand_at(i: &Invocation, variable: &Option<String>, home: &Option<String>) -> (errand:
    Errand)
    ensures
        is_errand(*i, *variable, text::option_view(*home), errand),
{
    match &i.command {
        Some(Command::Init { force }) => Errand::Init { force: *force },
        Some(Command::Version) => Errand::Version,
        _ => match resolve_repo_path_at(&i.directory, &i.path, variable, home) {
            Some(path) => Errand::Repository(path),
            None => Errand::Configured,
        },
    }
}

/// What is to be done with one repository.
#[derive(Debug)]
pub struct Task {
    pub path: String,
    /// The name under which it is shown, where it has one
    pub name: Option<String>,
    /// Where to clone it from, where it is not there
    pub url: Option<String>,
    pub sync_config: SyncConfig,
    pub job: Job,
}

/// Whether `task` is what is to be done with the repository at the given path, alone or among
/// others, where `r` is what is configured for it.
pub open spec fn is_task(
    d: DefaultConfig,
    r: RepositoryConfig,
    path: Seq<char>,
    i: Invocation,
    around: Surroundings,
    alone: bool,
    task: Task,
) -> bool {
    &&& task.path@ == path
    &&& task.name == r.name
    &&& task.url == first_of(r.uri, around.repository)
    &&& task.sync_config@ == resolved(d, r, i.new_files, i.remote, around.env)
    &&& is_job(i.command, i.dry_run, alone, around.tray, around.env, d, r, task.job)
}

/// What is to be done with the repository at the given path, alone or among others; nothing where
/// the command is not about repositories, or goes by an interval that cannot be counted in
/// milliseconds.
pub fn task_for(
    config: &Config,
    path: &str,
    i: &Invocation,
    around: &Surroundings,
    alone: bool,
) -> (task: Option<Task>)
    ensures
        exists|r: RepositoryConfig|
            #![trigger config_for(*config, path@, r)]
            config_for(*config, path@, r) && match task {
                Some(task) => about_repositories(i.command) && countable(
                    i.command,
                    around.env,
                    config.defaults,
                    r,
                ) && is_task(config.defaults, r, path@, *i, *around, alone, task),
                None => !about_repositories(i.command) || !countable(
                    i.command,
                    around.env,
                    config.defaults,
                    r,
                ),
            },
{
    let repo: RepositoryConfig = find_repository(config, path);
    assert(config_for(*config, path@, repo));
    if !interval_fits(&i.command, &around.env, &config.defaults, &repo) {
        return None;
    }
    let job: Option<Job> = job_for(
        &i.command,
        i.dry_run,
        alone,
        &around.tray,
        &around.env,
        &config.defaults,
        &repo,
    );
    match job {
        None => None,
        Some(job) => Some(
            Task {
                path: path.to_string(),
                name: text::copy_option(&repo.name),
                url: clone_source(&repo.uri, &around.repository),
                sync_config: resolve_sync_config(
                    &config.defaults,
                    &repo,
                    i.new_files,
                    &i.remote,
                    &around.env,
                ),
                job,
            },
        ),
    }
}

/// Which repositories a run is about.
pub open spec fn paths_for(config: Config, i: Invocation, repository: Option<Seq<char>>) -> Seq<
    Seq<char>,
> {
    match repository {
        Some(path) => seq![path],
        None => selected(config.repositories@, i.command),
    }
}

/// The repositories that a run is about: the one that is given, or those that are configured for
/// the command; why there is nothing to do, where there is none.
pub fn repositories_for(config: &Config, i: &Invocation, repository: &Option<String>) -> (r: Result<
    Vec<String>,
    String,
>)
    ensures
        match r {
            Ok(paths) => text::views(paths@) == paths_for(
                *config,
                *i,
                text::option_view(*repository),
            ) && paths@.len() > 0,
            Err(why) => paths_for(*config, *i, text::option_view(*repository)).len() == 0 && why@
                == "No repository specified and no repositories configured. Use -d, provide a path, set GIT_SYNC_DIRECTORY, or add [[repositories]] to config."@,
        },
{
    match repository {
        Some(path) => {
            let mut paths: Vec<String> = Vec::new();
            paths.push(path.clone());
            assert(text::views(paths@) =~= seq![path@]);
            Ok(paths)
        },
        None => {
            let paths: Vec<String> = configured_repositories_for_command(config, &i.command);
            assert(text::views(paths@).len() == paths@.len());
            if paths.len() == 0 {
                Err(no_repositories())
            } else {
                Ok(paths)
            }
        },
    }
}

/// How far the work on several repositories has come: the one at a position is made sure to be
/// there, or something is done with it; or all is over, for better or worse.
#[derive(Debug, Clone, Copy, PartialEq, Eq, Structural)]
pub enum Stage {
    Ensure(usize),
    Run(usize),
    Finished { ok: bool },
}

/// What comes after a stage among so many repositories: one after the other, until one fails.
pub open spec fn stage_after(stage: Stage, ok: bool, total: nat) -> Stage {
    match stage {
        Stage::Ensure(i) => if ok {
            Stage::Run(i)
        } else {
            Stage::Finished { ok: false }
        },
        Stage::Run(i) => if !ok {
            Stage::Finished { ok: false }
        } else if i + 1 < total {
            Stage::Ensure((i + 1) as usize)
        } else {
            Stage::Finished { ok: true }
        },
        Stage::Finished { ok } => Stage::Finished { ok },
    }
}

/// What comes after a stage among so many repositories.
pub fn next_stage(stage: Stage, ok: bool, total: usize) -> (next: Stage)
    ensures
        next == stage_after(stage, ok, total as nat),
{
    match stage {
        Stage::Ensure(i) => if ok {
            Stage::Run(i)
        } else {
            Stage::Finished { ok: false }
        },
        Stage::Run(i) => if !ok {
            Stage::Finished { ok: false }
        } else if i < total && i + 1 < total {
            Stage::Ensure(i + 1)
        } else {
            Stage::Finished { ok: true }
        },
        Stage::Finished { ok } => Stage::Finished { ok },
    }
}

/// The stage after the given outcomes, from the beginning.
pub open spec fn stage_reached(outcomes: Seq<bool>, total: nat) -> Stage
    decreases outcomes.len(),
{
    if outcomes.len() == 0 {
        Stage::Ensure(0)
    } else {
        stage_after(stage_reached(outcomes.drop_last(), total), outcomes.last(), total)
    }
}

/// Where all goes well, every repository has its turn, one after the other; and all is over when
/// the last one is done.
pub proof fn every_repository_has_its_turn(outcomes: Seq<bool>, total: nat)
    requires
        0 < total <= usize::MAX,
        forall|i: int| 0 <= i < outcomes.len() ==> #[trigger] outcomes[i],
        outcomes.len() <= 2 * total,
    ensures
        stage_reached(outcomes, total) == if outcomes.len() == 2 * total {
            Stage::Finished { ok: true }
        } else if outcomes.len() % 2 == 0 {
            Stage::Ensure((outcomes.len() / 2) as usize)
        } else {
            Stage::Run((outcomes.len() / 2) as usize)
        },
    decreases outcomes.len(),
{
    if outcomes.len() > 0 {
        let before = outcomes.drop_last();
        assert forall|i: int| 0 <= i < before.len() implies #[trigger] before[i] by {
            assert(outcomes[i]);
        }
        every_repository_has_its_turn(before, total);
        assert(outcomes[outcomes.len() - 1]);
    }
}

/// The first failure is the end: nothing is done after it.
pub proof fn the_first_failure_is_the_end(outcomes: Seq<bool>, total: nat, i: int)
    requires
        0 <= i < outcomes.len(),
        !outcomes[i],
        stage_reached(outcomes.take(i), total) !is Finished,
    ensures
        stage_reached(outcomes, total) == (Stage::Finished { ok: false }),
    decreases outcomes.len(),
{
    let before = outcomes.drop_last();
    if i == outcomes.len() - 1 {
        assert(outcomes.take(i) =~= before);
    } else {
        assert(before.take(i) =~= outcomes.take(i));
        the_first_failure_is_the_end(before, total, i);
    }
}

/// A run that is given a repository is about that one alone; without one it is about those that are
/// configured for its command.
pub proof fn a_given_repository_is_the_only_one(config: Config, i: Invocation, path: Seq<char>)
    ensures
        paths_for(config, i, Some(path)) == seq![path],
        paths_for(config, i, None) == selected(config.repositories@, i.command),
{
}

/// Commands that are not about repositories come before anything that is said of repositories; a
/// repository that is named by flag, argument or environment, in that order, comes before those
/// that are configured.
pub proof fn errands_follow_from_what_is_said(
    i: Invocation,
    variable: Option<String>,
    home: Seq<char>,
    errand: Errand,
    force: bool,
)
    requires
        is_errand(i, variable, Some(home), errand),
    ensures
        i.command == Some(Command::Init { force }) ==> errand == (Errand::Init { force }),
        i.command == Some(Command::Version) ==> errand == Errand::Version,
        errand is Init ==> (i.command matches Some(Command::Init { .. })),
        errand is Version ==> i.command == Some(Command::Version),
        errand is Configured ==> i.directory is None && i.path is None && variable is None,
        errand matches Errand::Repository(path) ==> {
            let plain = |given: Seq<char>| given.len() > 0 && given[0] != '~';
            &&& i.directory is Some && plain(i.directory->0@) ==> path@ == i.directory->0@
            &&& i.directory is None && i.path is Some && plain(i.path->0@) ==> path@ == i.path->0@
            &&& i.directory is None && i.path is None && variable is Some && plain(variable->0@)
                ==> path@ == variable->0@
            &&& i.directory is Some || i.path is Some || variable is Some
        },
{
}

/// What is done with a repository is done where it is, under its name; it is cloned from where its
/// own entry says, or else from where the environment says; and it is synchronized with the remote
/// and the hooks that its entry says, unless the command line or the environment says otherwise.
pub proof fn tasks_follow_from_what_is_configured(
    d: DefaultConfig,
    r: RepositoryConfig,
    path: Seq<char>,
    i: Invocation,
    around: Surroundings,
    alone: bool,
    task: Task,
)
    requires
        is_task(d, r, path, i, around, alone, task),
    ensures
        task.path@ == path,
        task.name == r.name,
        r.uri is Some ==> task.url == r.uri,
        r.uri is None ==> task.url == around.repository,
        i.remote matches Some(remote) ==> task.sync_config@.remote_name == remote@,
        i.remote is None && around.env.remote is None && r.remote is Some
            ==> task.sync_config@.remote_name == r.remote->0@,
        r.skip_hooks matches Some(skip_hooks) ==> task.sync_config@.skip_hooks == skip_hooks,
        i.new_files matches Some(new_files) ==> task.sync_config@.sync_new_files == new_files,
        i.command == Some(Command::Check) ==> task.job is Check,
        i.command is None ==> task.job is Watch,
{
}

/// A repository is worked on once it is there, and the next one once that went well; after the last
/// one all is over.
pub proof fn stages_follow_each_other(i: usize, total: nat, ok: bool)
    requires
        i < total,
        total <= usize::MAX,
    ensures
        stage_after(Stage::Ensure(i), true, total) == Stage::Run(i),
        stage_after(Stage::Ensure(i), false, total) == (Stage::Finished { ok: false }),
        stage_after(Stage::Run(i), false, total) == (Stage::Finished { ok: false }),
        i + 1 < total ==> stage_after(Stage::Run(i), true, total) == Stage::Ensure(
            (i + 1) as usize,
        ),
        i + 1 == total ==> stage_after(Stage::Run(i), true, total) == (Stage::Finished { ok: true }),
        stage_after(Stage::Finished { ok }, true, total) == (Stage::Finished { ok }),
        stage_after(Stage::Finished { ok }, false, total) == (Stage::Finished { ok }),
{
}

} // verus!
