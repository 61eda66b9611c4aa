//! What is configured, by file, by environment and by command line.

use crate::directories::{our_own, own_directories, Directories};
use crate::error::SyncError;
use crate::home::{expand_tilde_at, expands_to, home_directory, paths_at_home_lead_there};
use crate::path;
use crate::sync::SyncConfig;
use crate::text;
use crate::text::option_view;
use crate::text_laws::{numbers_are_read_as_they_are_written, words_are_read_as_they_are_written};
use vstd::pervasive::unreached;
use vstd::prelude::*;
use vstd::string::*;

verus! {

/// What is configured.
#[derive(Debug, Clone)]
pub struct Config {
    /// What holds where a repository has nothing of its own
    pub defaults: DefaultConfig,
    pub repositories: Vec<RepositoryConfig>,
}

/// What holds where a repository has nothing of its own.
#[derive(Debug, Clone)]
pub struct DefaultConfig {
    /// How often to synchronize even without changes, in seconds
    pub sync_interval: u64,
    pub sync_new_files: bool,
    pub skip_hooks: bool,
    pub commit_message: String,
    pub remote: String,
    pub conflict_branch: bool,
    /// How long changes have to be at rest, in milliseconds
    pub debounce_ms: u64,
    /// The shortest time between synchronizations, in milliseconds
    pub min_interval_ms: u64,
    /// Whether to synchronize at the beginning
    pub initial_sync: bool,
}

/// What is configured for one repository.
#[derive(Debug, Clone)]
pub struct RepositoryConfig {
    pub path: String,
    /// The name under which it is shown
    pub name: Option<String>,
    /// Where to clone it from
    pub uri: Option<String>,
    pub sync_new_files: Option<bool>,
    pub skip_hooks: Option<bool>,
    pub commit_message: Option<String>,
    pub remote: Option<String>,
    pub branch: Option<String>,
    pub conflict_branch: Option<bool>,
    /// Whether it is watched
    pub watch: bool,
    /// How often to synchronize even without changes, in seconds
    pub interval: Option<u64>,
    pub debounce_ms: Option<u64>,
    pub min_interval_ms: Option<u64>,
    pub initial_sync: Option<bool>,
    /// What to watch below it; all of it where there is nothing here
    pub watch_paths: Vec<String>,
}

/// How often to synchronize even without changes, in seconds.
pub fn default_sync_interval() -> (secs: u64)
    ensures
        secs == 60,
{
    60
}

/// Whether to sync new files.
pub fn default_sync_new_files() -> (r: bool)
    ensures
        r,
{
    true
}

/// The commit message.
pub fn default_commit_message() -> (message: String)
    ensures
        message@ == "changes from {hostname} on {timestamp}"@,
{
    "changes from {hostname} on {timestamp}".to_string()
}

/// The remote.
pub fn default_remote() -> (remote: String)
    ensures
        remote@ == "origin"@,
{
    "origin".to_string()
}

/// What holds where nothing is configured.
pub open spec fn standard(d: DefaultConfig) -> bool {
    &&& d.sync_interval == 60
    &&& d.sync_new_files
    &&& !d.skip_hooks
    &&& d.commit_message@ == "changes from {hostname} on {timestamp}"@
    &&& d.remote@ == "origin"@
    &&& !d.conflict_branch
    &&& d.debounce_ms == 500
    &&& d.min_interval_ms == 1000
    &&& d.initial_sync
}

impl Default for DefaultConfig {
    fn default() -> (d: Self)
        ensures
            standard(d),
    {
        DefaultConfig {
            sync_interval: default_sync_interval(),
            sync_new_files: default_sync_new_files(),
            skip_hooks: false,
            commit_message: default_commit_message(),
            remote: default_remote(),
            conflict_branch: false,
            debounce_ms: 500,
            min_interval_ms: 1000,
            initial_sync: true,
        }
    }
}

impl Default for Config {
    fn default() -> (c: Self)
        ensures
            standard(c.defaults),
            c.repositories@.len() == 0,
    {
        Config { defaults: DefaultConfig::default(), repositories: Vec::new() }
    }
}

/// Whether nothing is configured for a repository but where it is and whether it is watched.
pub open spec fn bare(r: RepositoryConfig, path: Seq<char>, watch: bool) -> bool {
    &&& r.path@ == path
    &&& r.watch == watch
    &&& r.name is None
    &&& r.uri is None
    &&& r.sync_new_files is None
    &&& r.skip_hooks is None
    &&& r.commit_message is None
    &&& r.remote is None
    &&& r.branch is None
    &&& r.conflict_branch is None
    &&& r.interval is None
    &&& r.debounce_ms is None
    &&& r.min_interval_ms is None
    &&& r.initial_sync is None
    &&& r.watch_paths@.len() == 0
}

impl Default for RepositoryConfig {
    fn default() -> (r: Self)
        ensures
            bare(r, Seq::empty(), false),
    {
        RepositoryConfig::bare_at(String::new(), false)
    }
}

/// Whether the same is configured for two repositories, but for where they are.
pub open spec fn alike_elsewhere(a: RepositoryConfig, b: RepositoryConfig) -> bool {
    &&& a.watch_paths@ == b.watch_paths@
    &&& a == (RepositoryConfig { path: a.path, watch_paths: a.watch_paths, ..b })
}

/// Whether the same is configured for two repositories in the same place.
pub open spec fn alike(a: RepositoryConfig, b: RepositoryConfig) -> bool {
    alike_elsewhere(a, b) && a.path == b.path
}

/// Whether two configurations say the same.
pub open spec fn same_config(a: Config, b: Config) -> bool {
    &&& a.defaults == b.defaults
    &&& a.repositories@.len() == b.repositories@.len()
    &&& forall|i: int|
        0 <= i < a.repositories@.len() ==> alike(#[trigger] a.repositories@[i], b.repositories@[i])
}

impl RepositoryConfig {
    /// Nothing but where the repository is and whether it is watched.
    pub fn bare_at(path: String, watch: bool) -> (r: RepositoryConfig)
        ensures
            bare(r, path@, watch),
            r.path == path,
    {
        RepositoryConfig {
            path,
            name: None,
            uri: None,
            sync_new_files: None,
            skip_hooks: None,
            commit_message: None,
            remote: None,
            branch: None,
            conflict_branch: None,
            watch,
            interval: None,
            debounce_ms: None,
            min_interval_ms: None,
            initial_sync: None,
            watch_paths: Vec::new(),
        }
    }

    /// The same again.
    pub fn copy(&self) -> (copy: RepositoryConfig)
        ensures
            alike(copy, *self),
    {
        RepositoryConfig {
            path: self.path.clone(),
            name: text::copy_option(&self.name),
            uri: text::copy_option(&self.uri),
            sync_new_files: self.sync_new_files,
            skip_hooks: self.skip_hooks,
            commit_message: text::copy_option(&self.commit_message),
            remote: text::copy_option(&self.remote),
            branch: text::copy_option(&self.branch),
            conflict_branch: self.conflict_branch,
            watch: self.watch,
            interval: self.interval,
            debounce_ms: self.debounce_ms,
            min_interval_ms: self.min_interval_ms,
            initial_sync: self.initial_sync,
            watch_paths: text::copy_list(&self.watch_paths),
        }
    }
}

impl Config {
    /// The same again.
    pub fn copy(&self) -> (copy: Config)
        ensures
            same_config(copy, *self),
    {
        let d: &DefaultConfig = &self.defaults;
        let defaults: DefaultConfig = DefaultConfig {
            sync_interval: d.sync_interval,
            sync_new_files: d.sync_new_files,
            skip_hooks: d.skip_hooks,
            commit_message: d.commit_message.clone(),
            remote: d.remote.clone(),
            conflict_branch: d.conflict_branch,
            debounce_ms: d.debounce_ms,
            min_interval_ms: d.min_interval_ms,
            initial_sync: d.initial_sync,
        };
        let mut repositories: Vec<RepositoryConfig> = Vec::new();
        let mut i: usize = 0;
        while i < self.repositories.len()
            invariant
                i <= self.repositories@.len(),
                repositories@.len() == i,
                forall|j: int|
                    0 <= j < i ==> alike(#[trigger] repositories@[j], self.repositories@[j]),
            decreases self.repositories@.len() - i,
        {
            repositories.push(self.repositories[i].copy());
            i = i + 1;
        }
        Config { defaults, repositories }
    }
}

/// What the environment says; nothing for a variable that is not set.
#[derive(Debug)]
pub struct Environment {
    /// `GIT_SYNC_INTERVAL`
    pub interval: Option<String>,
    /// `GIT_SYNC_NEW_FILES`
    pub new_files: Option<String>,
    /// `GIT_SYNC_REMOTE`
    pub remote: Option<String>,
    /// `GIT_SYNC_COMMIT_MESSAGE`
    pub commit_message: Option<String>,
    /// `GIT_SYNC_DIRECTORY`
    pub directory: Option<String>,
}

/// The value of a variable that holds a number, if it does.
pub open spec fn number_in(variable: Option<String>) -> Option<u64> {
    match variable {
        Some(value) => text::parsed_u64(value@),
        None => None,
    }
}

/// The value of a variable that is `true` or `false`, if it is.
pub open spec fn flag_in(variable: Option<String>) -> Option<bool> {
    match variable {
        Some(value) => text::parsed_bool(value@),
        None => None,
    }
}

/// The first of two values that there is.
pub open spec fn first_of<T>(a: Option<T>, b: Option<T>) -> Option<T> {
    match a {
        Some(a) => Some(a),
        None => b,
    }
}

pub open spec fn or_else<T>(a: Option<T>, b: T) -> T {
    match a {
        Some(a) => a,
        None => b,
    }
}

/// The defaults with what the environment says in place of them.
pub open spec fn with_environment(d: DefaultConfig, env: Environment) -> DefaultConfig {
    DefaultConfig {
        sync_interval: or_else(number_in(env.interval), d.sync_interval),
        sync_new_files: or_else(flag_in(env.new_files), d.sync_new_files),
        remote: or_else(env.remote, d.remote),
        commit_message: or_else(env.commit_message, d.commit_message),
        ..d
    }
}

/// Whether there is a repository at the given path.
pub open spec fn has_repository(repositories: Seq<RepositoryConfig>, path: Seq<char>) -> bool {
    exists|i: int|
        0 <= i < repositories.len() && path::same_place(#[trigger] repositories[i].path@, path)
}

/// The first repository at the given path from position `i` on.
pub open spec fn repository_at(repositories: Seq<RepositoryConfig>, path: Seq<char>, i: nat) -> Option<
    RepositoryConfig,
>
    decreases repositories.len() - i,
{
    if i >= repositories.len() {
        None
    } else if path::same_place(repositories[i as int].path@, path) {
        Some(repositories[i as int])
    } else {
        repository_at(repositories, path, i + 1)
    }
}

/// Whether `after` are the repositories with the one that the environment names, if it names one
/// that is not among them: it is watched.
pub open spec fn with_directory(
    before: Seq<RepositoryConfig>,
    directory: Option<Seq<char>>,
    after: Seq<RepositoryConfig>,
) -> bool {
    match directory {
        Some(path) => if has_repository(before, path) {
            after == before
        } else {
            after.len() == before.len() + 1 && after.drop_last() == before && bare(
                after.last(),
                path,
                true,
            )
        },
        None => after == before,
    }
}

/// Whether there is a repository at the given path.
fn is_configured(repositories: &Vec<RepositoryConfig>, path: &str) -> (found: bool)
    ensures
        found == has_repository(repositories@, path@),
{
    let mut i: usize = 0;
    while i < repositories.len()
        invariant
            i <= repositories@.len(),
            forall|j: int|
                0 <= j < i ==> !path::same_place(#[trigger] repositories@[j].path@, path@),
        decreases repositories@.len() - i,
    {
        if path::same_path(repositories[i].path.as_str(), path) {
            assert(path::same_place(repositories@[i as int].path@, path@));
            return true;
        }
        i = i + 1;
    }
    false
}

/// Puts what the environment says in place of what the file says. `directory` is where
/// `GIT_SYNC_DIRECTORY` leads.
pub fn apply_environment(config: &mut Config, env: &Environment, directory: Option<String>)
    ensures
        final(config).defaults == with_environment(old(config).defaults, *env),
        with_directory(
            old(config).repositories@,
            option_view(directory),
            final(config).repositories@,
        ),
{
    if let Some(interval) = &env.interval {
        if let Some(secs) = text::parse_u64(interval.as_str()) {
            config.defaults.sync_interval = secs;
        }
    }
    if let Some(new_files) = &env.new_files {
        if let Some(enabled) = text::parse_bool(new_files.as_str()) {
            config.defaults.sync_new_files = enabled;
        }
    }
    if let Some(remote) = &env.remote {
        config.defaults.remote = remote.clone();
    }
    if let Some(message) = &env.commit_message {
        config.defaults.commit_message = message.clone();
    }
    if let Some(path) = directory {
        if !is_configured(&config.repositories, path.as_str()) {
            let ghost before = config.repositories@;
            config.repositories.push(RepositoryConfig::bare_at(path, true));
            assert(config.repositories@.drop_last() =~= before);
        }
    }
}

/// What is configured for the repository at the given path: the first that there is, or nothing.
pub open spec fn config_for(c: Config, path: Seq<char>, r: RepositoryConfig) -> bool {
    match repository_at(c.repositories@, path, 0) {
        Some(found) => alike(r, found),
        None => bare(r, path, false),
    }
}

/// What is configured for the repository at the given path.
pub fn find_repository(config: &Config, repo_path: &str) -> (r: RepositoryConfig)
    ensures
        config_for(*config, repo_path@, r),
{
    let mut i: usize = 0;
    while i < config.repositories.len()
        invariant
            i <= config.repositories@.len(),
            repository_at(config.repositories@, repo_path@, 0) == repository_at(
                config.repositories@,
                repo_path@,
                i as nat,
            ),
        decreases config.repositories@.len() - i,
    {
        if path::same_path(config.repositories[i].path.as_str(), repo_path) {
            return config.repositories[i].copy();
        }
        i = i + 1;
    }
    RepositoryConfig::bare_at(repo_path.to_string(), false)
}

/// How a repository is synchronized: what the command line says first, then the environment, then
/// what is configured for the repository, then the defaults.
pub open spec fn resolved(
    d: DefaultConfig,
    r: RepositoryConfig,
    cli_new_files: Option<bool>,
    cli_remote: Option<String>,
    env: Environment,
) -> SyncConfig<Seq<char>> {
    SyncConfig {
        sync_new_files: or_else(
            first_of(cli_new_files, first_of(flag_in(env.new_files), r.sync_new_files)),
            d.sync_new_files,
        ),
        skip_hooks: or_else(r.skip_hooks, d.skip_hooks),
        commit_message: Some(
            or_else(first_of(env.commit_message, r.commit_message), d.commit_message)@,
        ),
        remote_name: or_else(first_of(cli_remote, first_of(env.remote, r.remote)), d.remote)@,
        branch_name: match r.branch {
            Some(branch) => branch@,
            None => Seq::empty(),
        },
        conflict_branch: or_else(r.conflict_branch, d.conflict_branch),
        target_branch: option_view(r.branch),
    }
}

/// How a repository is synchronized.
pub fn resolve_sync_config(
    defaults: &DefaultConfig,
    repo: &RepositoryConfig,
    cli_new_files: Option<bool>,
    cli_remote: &Option<String>,
    env: &Environment,
) -> (config: SyncConfig)
    ensures
        config@ == resolved(*defaults, *repo, cli_new_files, *cli_remote, *env),
{
    let env_new_files: Option<bool> = match &env.new_files {
        Some(value) => text::parse_bool(value.as_str()),
        None => None,
    };
    let sync_new_files: bool = match (cli_new_files, env_new_files, repo.sync_new_files) {
        (Some(new_files), _, _) => new_files,
        (None, Some(new_files), _) => new_files,
        (None, None, Some(new_files)) => new_files,
        (None, None, None) => defaults.sync_new_files,
    };
    let skip_hooks: bool = match repo.skip_hooks {
        Some(skip_hooks) => skip_hooks,
        None => defaults.skip_hooks,
    };
    let commit_message: String = match (&env.commit_message, &repo.commit_message) {
        (Some(message), _) => message.clone(),
        (None, Some(message)) => message.clone(),
        (None, None) => defaults.commit_message.clone(),
    };
    let remote_name: String = match (cli_remote, &env.remote, &repo.remote) {
        (Some(remote), _, _) => remote.clone(),
        (None, Some(remote), _) => remote.clone(),
        (None, None, Some(remote)) => remote.clone(),
        (None, None, None) => defaults.remote.clone(),
    };
    let branch_name: String = match &repo.branch {
        Some(branch) => branch.clone(),
        None => String::new(),
    };
    let conflict_branch: bool = match repo.conflict_branch {
        Some(conflict_branch) => conflict_branch,
        None => defaults.conflict_branch,
    };
    SyncConfig {
        sync_new_files,
        skip_hooks,
        commit_message: Some(commit_message),
        remote_name,
        branch_name,
        conflict_branch,
        target_branch: text::copy_option(&repo.branch),
    }
}

/// What was found where the configuration is kept.
#[derive(Debug)]
pub enum ConfigFile {
    /// There is no place for a configuration
    NoDirectory,
    /// No file
    Missing,
    /// A file that could not be read, and why
    Unreadable(String),
    /// A file that holds something else, and what is wrong with it
    Malformed(String),
    Found(Config),
}

/// Why there is no configuration, if there is none.
pub open spec fn load_error(file: ConfigFile) -> Option<SyncError<Seq<char>>> {
    match file {
        ConfigFile::NoDirectory => Some(SyncError::Other("Could not determine config directory"@)),
        ConfigFile::Unreadable(why) => Some(SyncError::IoError(why@)),
        ConfigFile::Malformed(why) => Some(SyncError::Other("Failed to parse config: "@ + why@)),
        ConfigFile::Missing => None,
        ConfigFile::Found(_) => None,
    }
}

/// Whether `c` is what the file says, or the standard where there is none, with the home directory
/// in place of a leading `~` in paths.
pub open spec fn read_from(file: ConfigFile, home: Option<Seq<char>>, c: Config) -> bool {
    match file {
        ConfigFile::Missing => standard(c.defaults) && c.repositories@.len() == 0,
        ConfigFile::Found(found) => {
            &&& c.defaults == found.defaults
            &&& c.repositories@.len() == found.repositories@.len()
            &&& forall|i: int|
                0 <= i < c.repositories@.len() ==> alike_elsewhere(
                    #[trigger] c.repositories@[i],
                    found.repositories@[i],
                ) && expands_to(found.repositories@[i].path@, home, c.repositories@[i].path@)
        },
        _ => false,
    }
}

/// Whether a directory is where the environment leads.
pub open spec fn directory_in(
    env: Environment,
    home: Option<Seq<char>>,
    directory: Option<Seq<char>>,
) -> bool {
    match (env.directory, directory) {
        (Some(path), Some(directory)) => expands_to(path@, home, directory),
        (None, None) => true,
        _ => false,
    }
}

/// Whether `c` is what the file and the environment say together, where the home directory is the
/// given one.
pub open spec fn merged(
    file: ConfigFile,
    env: Environment,
    home: Option<Seq<char>>,
    c: Config,
) -> bool {
    exists|base: Config, directory: Option<Seq<char>>|
        #![trigger with_directory(base.repositories@, directory, c.repositories@)]
        read_from(file, home, base) && directory_in(env, home, directory) && c.defaults
            == with_environment(base.defaults, env) && with_directory(
            base.repositories@,
            directory,
            c.repositories@,
        )
}

/// Whether `c` is what the file and the environment say together, wherever the home directory is.
pub open spec fn merged_somewhere(file: ConfigFile, env: Environment, c: Config) -> bool {
    exists|home: Option<Seq<char>>| #[trigger] merged(file, env, home, c)
}

/// Where configurations are kept.
pub open spec fn config_file_in(directory: Seq<char>) -> Seq<char> {
    path::joined_paths(directory, "config.toml"@)
}

/// Where the configuration is kept: in the file that is given, or else in the directory for
/// configurations among those that were found.
pub open spec fn config_path_of(given: Option<Seq<char>>, found: Option<Directories>) -> Option<
    Seq<char>,
> {
    match given {
        Some(path) => Some(path),
        None => match found {
            Some(Directories { config: Some(directory), .. }) => Some(config_file_in(directory@)),
            _ => None,
        },
    }
}

/// Puts the home directory in place of a leading `~` in the paths of repositories.
fn expand_paths(config: Config, home: &Option<String>) -> (expanded: Config)
    ensures
        read_from(ConfigFile::Found(config), option_view(*home), expanded),
{
    let mut expanded: Config = config;
    let mut i: usize = 0;
    assert(forall|j: int|
        0 <= j < config.repositories@.len() ==> alike(
            #[trigger] config.repositories@[j],
            config.repositories@[j],
        ));
    while i < expanded.repositories.len()
        invariant
            i <= expanded.repositories@.len(),
            expanded.defaults == config.defaults,
            expanded.repositories@.len() == config.repositories@.len(),
            forall|j: int|
                0 <= j < i ==> alike_elsewhere(
                    #[trigger] expanded.repositories@[j],
                    config.repositories@[j],
                ) && expands_to(
                    config.repositories@[j].path@,
                    option_view(*home),
                    expanded.repositories@[j].path@,
                ),
            forall|j: int|
                i <= j < expanded.repositories@.len() ==> #[trigger] expanded.repositories@[j]
                    == config.repositories@[j],
        decreases expanded.repositories@.len() - i,
    {
        let mut repo: RepositoryConfig = expanded.repositories[i].copy();
        repo.path = expand_tilde_at(repo.path.as_str(), home);
        expanded.repositories.set(i, repo);
        i = i + 1;
    }
    expanded
}

/// What the file and the environment say together, where the home directory is the given one.
pub fn merge_config(file: ConfigFile, env: &Environment, home: &Option<String>) -> (r: Result<
    Config,
    SyncError,
>)
    ensures
        match r {
            Ok(c) => load_error(file) is None && merged(file, *env, option_view(*home), c),
            Err(e) => load_error(file) == Some(e@),
        },
{
    let ghost found = file;
    let mut config: Config = match file {
        ConfigFile::NoDirectory => {
            return Err(SyncError::Other("Could not determine config directory".to_string()));
        },
        ConfigFile::Unreadable(why) => {
            return Err(SyncError::IoError(why));
        },
        ConfigFile::Malformed(why) => {
            return Err(
                SyncError::Other("Failed to parse config: ".to_string().concat(why.as_str())),
            );
        },
        ConfigFile::Missing => Config::default(),
        ConfigFile::Found(config) => expand_paths(config, home),
    };
    let ghost base = config;
    assert(read_from(found, option_view(*home), base));
    let directory: Option<String> = match &env.directory {
        Some(path) => Some(expand_tilde_at(path.as_str(), home)),
        None => None,
    };
    let ghost place = option_view(directory);
    apply_environment(&mut config, env, directory);
    assert(with_directory(base.repositories@, place, config.repositories@));
    Ok(config)
}

/// Loads what is configured, once.
#[derive(Debug)]
pub struct ConfigLoader {
    pub config_path: Option<String>,
    pub cached_config: Option<Config>,
}

impl Default for ConfigLoader {
    fn default() -> (loader: Self)
        ensures
            loader.config_path is None,
            loader.cached_config is None,
    {
        ConfigLoader::new()
    }
}

impl ConfigLoader {
    /// A loader for the configuration in its usual place.
    pub fn new() -> (loader: ConfigLoader)
        ensures
            loader.config_path is None,
            loader.cached_config is None,
    {
        ConfigLoader { config_path: None, cached_config: None }
    }

    /// The same for the configuration in the given file.
    pub fn with_config_path(self, path: &str) -> (loader: ConfigLoader)
        ensures
            loader.config_path matches Some(p) && p@ == path@,
            loader.cached_config == self.cached_config,
    {
        let mut loader: ConfigLoader = self;
        loader.config_path = Some(path.to_string());
        loader
    }

    /// Where the configuration is kept, if there is a place for it.
    pub fn config_file(&self) -> (r: Option<String>)
        ensures
            exists|found: Option<Directories>|
                our_own(found) && option_view(r) == #[trigger] config_path_of(
                    option_view(self.config_path),
                    found,
                ),
    {
        let found: Option<Directories> = own_directories();
        let ghost seen = found;
        let r: Option<String> = self.config_path_in(found);
        assert(our_own(seen) && option_view(r) == config_path_of(
            option_view(self.config_path),
            seen,
        ));
        r
    }

    /// Where the configuration is kept, where the directories of the application are the given
    /// ones.
    pub fn config_path_in(&self, found: Option<Directories>) -> (r: Option<String>)
        ensures
            option_view(r) == config_path_of(option_view(self.config_path), found),
    {
        if let Some(path) = &self.config_path {
            return Some(path.clone());
        }
        match found {
            Some(Directories { config: Some(directory), .. }) => Some(
                path::join(directory.as_str(), "config.toml"),
            ),
            _ => None,
        }
    }

    /// Loads what is configured, where that has not been done yet.
    fn ensure_loaded(&mut self, file: ConfigFile, env: &Environment) -> (r: Result<(), SyncError>)
        ensures
            final(self).config_path == old(self).config_path,
            old(self).cached_config is Some ==> r is Ok && *final(self) == *old(self),
            old(self).cached_config is None ==> match r {
                Ok(_) => load_error(file) is None && (final(self).cached_config matches Some(c)
                    && merged_somewhere(file, *env, c)),
                Err(e) => load_error(file) == Some(e@) && *final(self) == *old(self),
            },
    {
        if self.cached_config.is_some() {
            return Ok(());
        }
        let home: Option<String> = home_directory();
        match merge_config(file, env, &home) {
            Ok(config) => {
                assert(merged(file, *env, option_view(home), config));
                self.cached_config = Some(config);
                Ok(())
            },
            Err(e) => Err(e),
        }
    }

    /// What is configured. Loaded once: from then on `file` and `env` make no difference.
    pub fn load(&mut self, file: ConfigFile, env: &Environment) -> (r: Result<Config, SyncError>)
        ensures
            final(self).config_path == old(self).config_path,
            old(self).cached_config is Some ==> r is Ok && *final(self) == *old(self),
            r matches Ok(config) ==> (final(self).cached_config matches Some(c) && same_config(
                config,
                c,
            )),
            old(self).cached_config is None ==> match r {
                Ok(_) => load_error(file) is None && (final(self).cached_config matches Some(c)
                    && merged_somewhere(file, *env, c)),
                Err(e) => load_error(file) == Some(e@) && *final(self) == *old(self),
            },
    {
        match self.ensure_loaded(file, env) {
            Err(e) => Err(e),
            Ok(_) => match &self.cached_config {
                Some(config) => Ok(config.copy()),
                None => unreached(),
            },
        }
    }

    /// What is configured for the repository at the given path.
    pub fn load_for_repo(&mut self, repo_path: &str, file: ConfigFile, env: &Environment) -> (r:
        Result<RepositoryConfig, SyncError>)
        ensures
            final(self).config_path == old(self).config_path,
            old(self).cached_config is Some ==> r is Ok && *final(self) == *old(self),
            r matches Ok(repo) ==> (final(self).cached_config matches Some(c) && config_for(
                c,
                repo_path@,
                repo,
            )),
            old(self).cached_config is None ==> match r {
                Ok(_) => load_error(file) is None && (final(self).cached_config matches Some(c)
                    && merged_somewhere(file, *env, c)),
                Err(e) => load_error(file) == Some(e@) && *final(self) == *old(self),
            },
    {
        match self.ensure_loaded(file, env) {
            Err(e) => Err(e),
            Ok(_) => match &self.cached_config {
                Some(config) => Ok(find_repository(config, repo_path)),
                None => unreached(),
            },
        }
    }

    /// How the repository at the given path is synchronized.
    pub fn to_sync_config(
        &mut self,
        repo_path: &str,
        cli_new_files: Option<bool>,
        cli_remote: &Option<String>,
        file: ConfigFile,
        env: &Environment,
    ) -> (r: Result<SyncConfig, SyncError>)
        ensures
            final(self).config_path == old(self).config_path,
            old(self).cached_config is Some ==> r is Ok && *final(self) == *old(self),
            r matches Ok(config) ==> (final(self).cached_config matches Some(c) && exists|
                repo: RepositoryConfig,
            |
                config_for(c, repo_path@, repo) && config@ == #[trigger] resolved(
                    c.defaults,
                    repo,
                    cli_new_files,
                    *cli_remote,
                    *env,
                )),
            old(self).cached_config is None ==> match r {
                Ok(_) => load_error(file) is None && (final(self).cached_config matches Some(c)
                    && merged_somewhere(file, *env, c)),
                Err(e) => load_error(file) == Some(e@) && *final(self) == *old(self),
            },
    {
        match self.ensure_loaded(file, env) {
            Err(e) => Err(e),
            Ok(_) => match &self.cached_config {
                Some(config) => {
                    let repo: RepositoryConfig = find_repository(config, repo_path);
                    Ok(
                        resolve_sync_config(
                            &config.defaults,
                            &repo,
                            cli_new_files,
                            cli_remote,
                            env,
                        ),
                    )
                },
                None => unreached(),
            },
        }
    }
}

/// What the command line says comes before what the environment says, that before what is
/// configured for the repository, and that before the defaults.
pub proof fn precedence(
    d: DefaultConfig,
    r: RepositoryConfig,
    cli_new_files: Option<bool>,
    cli_remote: Option<String>,
    env: Environment,
)
    ensures
        ({
            let c = resolved(d, r, cli_new_files, cli_remote, env);
            &&& cli_remote matches Some(remote) ==> c.remote_name == remote@
            &&& cli_remote is None && env.remote is Some ==> c.remote_name == env.remote->0@
            &&& cli_remote is None && env.remote is None && r.remote is Some ==> c.remote_name
                == r.remote->0@
            &&& cli_remote is None && env.remote is None && r.remote is None ==> c.remote_name
                == d.remote@
            &&& cli_new_files matches Some(new_files) ==> c.sync_new_files == new_files
            &&& cli_new_files is None && flag_in(env.new_files) is Some ==> Some(c.sync_new_files)
                == flag_in(env.new_files)
            &&& cli_new_files is None && flag_in(env.new_files) is None && r.sync_new_files is Some
                ==> Some(c.sync_new_files) == r.sync_new_files
            &&& cli_new_files is None && flag_in(env.new_files) is None && r.sync_new_files is None
                ==> c.sync_new_files == d.sync_new_files
            &&& env.commit_message is Some ==> c.commit_message == Some(env.commit_message->0@)
            &&& env.commit_message is None && r.commit_message is Some ==> c.commit_message == Some(
                r.commit_message->0@,
            )
            &&& env.commit_message is None && r.commit_message is None ==> c.commit_message == Some(
                d.commit_message@,
            )
            &&& r.skip_hooks matches Some(skip_hooks) ==> c.skip_hooks == skip_hooks
            &&& r.skip_hooks is None ==> c.skip_hooks == d.skip_hooks
            &&& r.conflict_branch matches Some(conflict_branch) ==> c.conflict_branch
                == conflict_branch
            &&& r.conflict_branch is None ==> c.conflict_branch == d.conflict_branch
            &&& r.branch matches Some(branch) ==> c.branch_name == branch@ && c.target_branch
                == Some(branch@)
            &&& r.branch is None ==> c.branch_name.len() == 0 && c.target_branch is None
        }),
{
}

/// A variable that is set to something that is neither a number nor, where that is asked for,
/// `true` or `false` makes no difference.
pub proof fn nonsense_makes_no_difference(d: DefaultConfig, env: Environment)
    ensures
        number_in(env.interval) is None ==> with_environment(d, env).sync_interval
            == d.sync_interval,
        flag_in(env.new_files) is None ==> with_environment(d, env).sync_new_files
            == d.sync_new_files,
{
}

/// What the environment says comes in the place of the defaults for the interval, for new files,
/// for the remote and for the message, each where it says something that can be read; nothing else
/// is affected.
pub proof fn the_environment_replaces_defaults(
    d: DefaultConfig,
    env: Environment,
    n: u64,
)
    ensures
        ({
            let e = with_environment(d, env);
            &&& env.interval matches Some(t) ==> (t@ == text::decimal(n as nat) ==> e.sync_interval
                == n)
            &&& env.interval is None ==> e.sync_interval == d.sync_interval
            &&& env.new_files matches Some(t) ==> (t@ == "true"@ ==> e.sync_new_files) && (t@
                == "false"@ ==> !e.sync_new_files) && (t@ != "true"@ && t@ != "false"@
                ==> e.sync_new_files == d.sync_new_files)
            &&& env.new_files is None ==> e.sync_new_files == d.sync_new_files
            &&& env.remote matches Some(t) ==> e.remote == t
            &&& env.remote is None ==> e.remote == d.remote
            &&& env.commit_message matches Some(t) ==> e.commit_message == t
            &&& env.commit_message is None ==> e.commit_message == d.commit_message
            &&& e.skip_hooks == d.skip_hooks
            &&& e.conflict_branch == d.conflict_branch
            &&& e.debounce_ms == d.debounce_ms
            &&& e.min_interval_ms == d.min_interval_ms
            &&& e.initial_sync == d.initial_sync
        }),
{
    numbers_are_read_as_they_are_written(n);
    words_are_read_as_they_are_written("true"@);
    if let Some(t) = env.new_files {
        words_are_read_as_they_are_written(t@);
    }
}

/// The repository that the environment names is among the configured ones afterwards, where it was
/// not before it is watched and nothing else is configured for it; those that were configured are
/// there as they were, in the same order.
pub proof fn the_named_repository_is_among_them(
    before: Seq<RepositoryConfig>,
    directory: Option<Seq<char>>,
    after: Seq<RepositoryConfig>,
)
    requires
        with_directory(before, directory, after),
    ensures
        before.len() <= after.len() <= before.len() + 1,
        after.take(before.len() as int) == before,
        directory is None ==> after == before,
        directory matches Some(path) ==> exists|i: int|
            0 <= i < after.len() && path::same_place(#[trigger] after[i].path@, path),
        after.len() > before.len() ==> directory is Some && after.last().path@ == directory->0
            && after.last().watch && after.last().remote is None && after.last().branch is None
            && after.last().uri is None && after.last().sync_new_files is None
            && after.last().commit_message is None && forall|i: int|
            0 <= i < before.len() ==> !path::same_place(
                #[trigger] before[i].path@,
                directory->0,
            ),
{
    if after.len() == before.len() {
        assert(after.take(before.len() as int) =~= before);
        if let Some(path) = directory {
            let i = choose|i: int|
                0 <= i < before.len() && path::same_place(#[trigger] before[i].path@, path);
            assert(path::same_place(after[i].path@, path));
        }
    } else {
        assert(after.take(before.len() as int) =~= after.drop_last());
        let i = after.len() - 1;
        assert(path::same_place(after[i].path@, directory->0));
    }
}

/// Whether all that is configured for two repositories is the same.
pub open spec fn equal_in_every_field(a: RepositoryConfig, b: RepositoryConfig) -> bool {
    &&& a.path@ == b.path@
    &&& a.name == b.name
    &&& a.uri == b.uri
    &&& a.sync_new_files == b.sync_new_files
    &&& a.skip_hooks == b.skip_hooks
    &&& a.commit_message == b.commit_message
    &&& a.remote == b.remote
    &&& a.branch == b.branch
    &&& a.conflict_branch == b.conflict_branch
    &&& a.watch == b.watch
    &&& a.interval == b.interval
    &&& a.debounce_ms == b.debounce_ms
    &&& a.min_interval_ms == b.min_interval_ms
    &&& a.initial_sync == b.initial_sync
    &&& a.watch_paths@ == b.watch_paths@
}

/// What is configured for a repository is what the first entry for its place says, however the
/// path is written; where there is none, it is nothing at all, and the repository is not watched.
pub proof fn the_first_entry_for_a_place_counts(
    c: Config,
    path: Seq<char>,
    r: RepositoryConfig,
    i: int,
)
    requires
        config_for(c, path, r),
    ensures
        0 <= i < c.repositories@.len() && path::same_place(c.repositories@[i].path@, path) && (
        forall|j: int|
            0 <= j < i ==> !path::same_place(#[trigger] c.repositories@[j].path@, path))
            ==> equal_in_every_field(r, c.repositories@[i]),
        (forall|j: int|
            0 <= j < c.repositories@.len() ==> !path::same_place(
                #[trigger] c.repositories@[j].path@,
                path,
            )) ==> r.path@ == path && !r.watch && r.name is None && r.uri is None
            && r.sync_new_files is None && r.skip_hooks is None && r.commit_message is None
            && r.remote is None && r.branch is None && r.conflict_branch is None
            && r.interval is None && r.debounce_ms is None && r.min_interval_ms is None
            && r.initial_sync is None && r.watch_paths@.len() == 0,
{
    if 0 <= i < c.repositories@.len() && path::same_place(c.repositories@[i].path@, path) && (
    forall|j: int| 0 <= j < i ==> !path::same_place(#[trigger] c.repositories@[j].path@, path)) {
        entries_are_found(c.repositories@, path, 0, i);
    }
    if forall|j: int|
        0 <= j < c.repositories@.len() ==> !path::same_place(
            #[trigger] c.repositories@[j].path@,
            path,
        ) {
        no_entry_is_found(c.repositories@, path, 0);
    }
}

proof fn entries_are_found(
    repositories: Seq<RepositoryConfig>,
    path: Seq<char>,
    from: nat,
    i: int,
)
    requires
        from <= i < repositories.len(),
        path::same_place(repositories[i].path@, path),
        forall|j: int| from <= j < i ==> !path::same_place(#[trigger] repositories[j].path@, path),
    ensures
        repository_at(repositories, path, from) == Some(repositories[i]),
    decreases i - from,
{
    if from < i {
        assert(!path::same_place(repositories[from as int].path@, path));
        entries_are_found(repositories, path, from + 1, i);
    }
}

proof fn no_entry_is_found(repositories: Seq<RepositoryConfig>, path: Seq<char>, from: nat)
    requires
        forall|j: int|
            from <= j < repositories.len() ==> !path::same_place(
                #[trigger] repositories[j].path@,
                path,
            ),
    ensures
        repository_at(repositories, path, from) is None,
    decreases repositories.len() - from,
{
    if from < repositories.len() {
        assert(!path::same_place(repositories[from as int].path@, path));
        no_entry_is_found(repositories, path, from + 1);
    }
}

/// Loading succeeds where there is a file that can be read and understood, and where there is
/// none; where there is no place for one, or it cannot be read or understood, the error says so.
pub proof fn loading_fails_for_a_reason(file: ConfigFile)
    ensures
        load_error(file) is None <==> file is Missing || file is Found,
        file is NoDirectory ==> load_error(file) == Some(
            SyncError::Other("Could not determine config directory"@),
        ),
        file matches ConfigFile::Unreadable(why) ==> load_error(file) == Some(
            SyncError::IoError(why@),
        ),
        file matches ConfigFile::Malformed(why) ==> load_error(file) == Some(
            SyncError::Other("Failed to parse config: "@ + why@),
        ),
{
}

/// What is loaded is what the file says: the same repositories in the same order, with all that is
/// configured for them, those below `~` in the home directory; and the defaults of the file, as
/// far as the environment does not replace them. Without a file it is what is usual.
pub proof fn the_file_says_what_is_configured(
    file: ConfigFile,
    env: Environment,
    home: Seq<char>,
    c: Config,
    i: int,
    below: Seq<char>,
)
    requires
        merged(file, env, Some(home), c),
    ensures
        file matches ConfigFile::Found(found) ==> {
            &&& c.defaults == with_environment(found.defaults, env)
            &&& c.repositories@.len() >= found.repositories@.len()
            &&& 0 <= i < found.repositories@.len() ==> {
                let was = found.repositories@[i];
                let is = c.repositories@[i];
                &&& equal_in_every_field(is, RepositoryConfig { path: is.path, ..was })
                &&& was.path@ == seq!['~', '/'] + below ==> is.path@ == home + seq!['/'] + below
                &&& was.path@.len() == 0 || was.path@[0] != '~' ==> is.path@ == was.path@
            }
        },
        file is Missing ==> {
            &&& env.interval is None ==> c.defaults.sync_interval == 60
            &&& env.new_files is None ==> c.defaults.sync_new_files
            &&& env.remote is None ==> c.defaults.remote@ == "origin"@
            &&& env.commit_message is None ==> c.defaults.commit_message@
                == "changes from {hostname} on {timestamp}"@
            &&& !c.defaults.skip_hooks && !c.defaults.conflict_branch && c.defaults.initial_sync
            &&& c.defaults.debounce_ms == 500 && c.defaults.min_interval_ms == 1000
            &&& env.directory is None ==> c.repositories@.len() == 0
        },
{
    let (base, directory) = choose|base: Config, directory: Option<Seq<char>>|
        #![trigger with_directory(base.repositories@, directory, c.repositories@)]
        read_from(file, Some(home), base) && directory_in(env, Some(home), directory) && c.defaults
            == with_environment(base.defaults, env) && with_directory(
            base.repositories@,
            directory,
            c.repositories@,
        );
    the_named_repository_is_among_them(base.repositories@, directory, c.repositories@);
    if let ConfigFile::Found(found) = file {
        if 0 <= i < found.repositories@.len() {
            let was = found.repositories@[i];
            let is = c.repositories@[i];
            assert(is == c.repositories@.take(base.repositories@.len() as int)[i]);
            assert(is == base.repositories@[i]);
            if was.path@ == seq!['~', '/'] + below {
                paths_at_home_lead_there(below, home, is.path@);
            }
        }
    }
}

/// The directory that the environment names is among the repositories, below the home directory
/// where it begins with `~` and a slash.
pub proof fn the_named_directory_is_found_at_home(
    file: ConfigFile,
    env: Environment,
    home: Seq<char>,
    c: Config,
    named: String,
    below: Seq<char>,
)
    requires
        merged(file, env, Some(home), c),
        env.directory == Some(named),
    ensures
        named@ == seq!['~', '/'] + below ==> exists|i: int|
            0 <= i < c.repositories@.len() && path::same_place(
                #[trigger] c.repositories@[i].path@,
                home + seq!['/'] + below,
            ),
        named@.len() > 0 && named@[0] != '~' ==> exists|i: int|
            0 <= i < c.repositories@.len() && path::same_place(
                #[trigger] c.repositories@[i].path@,
                named@,
            ),
{
    let (base, directory) = choose|base: Config, directory: Option<Seq<char>>|
        #![trigger with_directory(base.repositories@, directory, c.repositories@)]
        read_from(file, Some(home), base) && directory_in(env, Some(home), directory) && c.defaults
            == with_environment(base.defaults, env) && with_directory(
            base.repositories@,
            directory,
            c.repositories@,
        );
    the_named_repository_is_among_them(base.repositories@, directory, c.repositories@);
    if named@ == seq!['~', '/'] + below {
        paths_at_home_lead_there(below, home, directory->0);
    }
}

/// Two configurations that say the same have the same defaults and the same repositories, in the
/// same order, with the same configured for each.
pub proof fn copies_say_the_same(a: Config, b: Config, i: int)
    requires
        same_config(a, b),
    ensures
        a.defaults == b.defaults,
        a.repositories@.len() == b.repositories@.len(),
        0 <= i < a.repositories@.len() ==> equal_in_every_field(
            a.repositories@[i],
            b.repositories@[i],
        ),
{
}

/// A configuration is where it was said to be; where nothing was said, it is the file
/// `config.toml` in the directory for configurations, if there is one.
pub proof fn configurations_have_their_place(
    given: Seq<char>,
    found: Option<Directories>,
    d: Directories,
    directory: String,
)
    requires
        d.config == Some(directory),
        directory@.len() > 0,
        directory@.last() != '/',
    ensures
        config_path_of(Some(given), found) == Some(given),
        config_path_of(None, None) is None,
        config_path_of(None, Some(d)) == Some(directory@ + "/"@ + "config.toml"@),
        config_path_of(None, Some(Directories { config: None, ..d })) is None,
{
    reveal_strlit("config.toml");
}

/// An example of what can be configured.
pub const EXAMPLE_CONFIG: &'static str = r#"# git-sync-rs configuration file

[defaults]
# Default sync interval in seconds (for watch mode)
sync_interval = 60

# Whether to sync untracked files by default
sync_new_files = true

# Skip git hooks when committing
skip_hooks = false

# Commit message template
# Available placeholders: {hostname}, {timestamp}
# {timestamp} format: YYYY-MM-DD HH:MM:SS AM/PM TZ (e.g., 2024-03-15 02:30:45 PM PST)
commit_message = "changes from {hostname} on {timestamp}"

# Default remote name
remote = "origin"

# Example repository configurations
[[repositories]]
path = "/home/user/notes"
sync_new_files = true
remote = "origin"
branch = "main"
watch = true
interval = 30  # Override sync interval for this repo

[[repositories]]
path = "/home/user/dotfiles"
sync_new_files = false
watch = true
# Uses defaults for other settings
"#;

/// An example of what can be configured.
pub fn create_example_config() -> (example: String)
    ensures
        example@ == EXAMPLE_CONFIG@,
{
    EXAMPLE_CONFIG.to_string()
}

} // verus!
