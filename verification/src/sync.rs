//! Synchronizing a repository with its remote.

pub mod back;
pub mod branch;
pub mod changes;
pub mod commit;
pub mod conduct;
pub mod conflict;
pub mod course;
pub mod create;
pub mod dealings;
pub mod fetch;
pub mod forward;
pub mod inquiries;
pub mod inspect;
pub mod laws;
pub mod mergeable;
pub mod rebase;
pub mod relation;
pub mod remote;
pub mod replies;
pub mod replay;
pub mod run;
pub mod state;
pub mod step;
pub mod target;
pub mod transport;
pub mod unhandled;
pub mod wording;

use crate::error::{GitError, SyncError};
use crate::sync::back::{Model, Return, ReturnRun};
use crate::sync::branch::{BranchRun, CurrentBranch};
use crate::sync::changes::ChangesRun;
use crate::sync::commit::AutoCommitRun;
use crate::sync::create::{CreateRun, OnFallbackRun};
use crate::sync::fetch::FetchRun;
use crate::sync::forward::ForwardRun;
use crate::sync::mergeable::MergeableRun;
use crate::sync::rebase::RebaseRun;
use crate::sync::relation::{SyncState, SyncStateRun};
use crate::sync::remote::RemoteRun;
use crate::sync::run::{SyncRun, Synced};
use crate::sync::state::{RepositoryState, StateRun};
use crate::sync::step::{follows, HeadInfo, Reply, Step};
use crate::sync::target::DefaultBranchRun;
use crate::sync::unhandled::{UnhandledFileState, UnhandledRun};
use crate::text;
use crate::text::option_view;
use vstd::prelude::*;
use vstd::string::*;

verus! {

/// What a synchronization does. The parameter is the representation of texts.
#[derive(Debug, Clone)]
pub struct SyncConfig<S = String> {
    /// Whether to sync new files
    pub sync_new_files: bool,
    /// Whether to skip git hooks when committing
    pub skip_hooks: bool,
    /// A commit message, in which `{hostname}` and `{timestamp}` are filled in
    pub commit_message: Option<S>,
    /// The remote to sync with
    pub remote_name: S,
    /// The branch to sync
    pub branch_name: S,
    /// Whether a conflict leads to a fallback branch rather than to an error
    pub conflict_branch: bool,
    /// The branch to return to from a fallback branch; the default branch where there is none
    pub target_branch: Option<S>,
}

impl View for SyncConfig {
    type V = SyncConfig<Seq<char>>;

    open spec fn view(&self) -> SyncConfig<Seq<char>> {
        SyncConfig {
            sync_new_files: self.sync_new_files,
            skip_hooks: self.skip_hooks,
            commit_message: option_view(self.commit_message),
            remote_name: self.remote_name@,
            branch_name: self.branch_name@,
            conflict_branch: self.conflict_branch,
            target_branch: option_view(self.target_branch),
        }
    }
}

impl SyncConfig {
    /// A configuration that says the same.
    pub fn copy(&self) -> (copy: SyncConfig)
        ensures
            copy == self,
    {
        SyncConfig {
            sync_new_files: self.sync_new_files,
            skip_hooks: self.skip_hooks,
            commit_message: text::copy_option(&self.commit_message),
            remote_name: self.remote_name.clone(),
            branch_name: self.branch_name.clone(),
            conflict_branch: self.conflict_branch,
            target_branch: text::copy_option(&self.target_branch),
        }
    }
}

impl Default for SyncConfig {
    fn default() -> (config: Self)
        ensures
            config@ == (SyncConfig {
                sync_new_files: true,
                skip_hooks: false,
                commit_message: None,
                remote_name: "origin"@,
                branch_name: "main"@,
                conflict_branch: false,
                target_branch: None,
            }),
    {
        SyncConfig {
            sync_new_files: true,
            skip_hooks: false,
            commit_message: None,
            remote_name: "origin".to_string(),
            branch_name: "main".to_string(),
            conflict_branch: false,
            target_branch: None,
        }
    }
}

/// What is remembered between synchronizations on a fallback branch.
#[derive(Debug, Clone)]
pub struct FallbackState<S = String> {
    /// Where the target branch was when returning to it was last found to be impossible
    pub last_checked_target_oid: Option<S>,
}

impl View for FallbackState {
    type V = FallbackState<Seq<char>>;

    open spec fn view(&self) -> FallbackState<Seq<char>> {
        FallbackState { last_checked_target_oid: option_view(self.last_checked_target_oid) }
    }
}

impl Default for FallbackState {
    fn default() -> (state: Self)
        ensures
            state@.last_checked_target_oid is None,
    {
        FallbackState { last_checked_target_oid: None }
    }
}

/// A repository that is kept in sync with its remote.
#[derive(Debug)]
pub struct RepositorySynchronizer<S = String> {
    pub config: SyncConfig<S>,
    pub repo_path: S,
    pub fallback_state: FallbackState<S>,
}

impl View for RepositorySynchronizer {
    type V = RepositorySynchronizer<Seq<char>>;

    open spec fn view(&self) -> RepositorySynchronizer<Seq<char>> {
        RepositorySynchronizer {
            config: self.config@,
            repo_path: self.repo_path@,
            fallback_state: self.fallback_state@,
        }
    }
}

/// The synchronizer of a repository that was just opened.
pub open spec fn fresh(repo_path: Seq<char>, config: SyncConfig<Seq<char>>) -> Model {
    RepositorySynchronizer {
        config,
        repo_path,
        fallback_state: FallbackState { last_checked_target_oid: None },
    }
}

/// A configuration for the branch that HEAD resolves to, where it resolves to one.
pub open spec fn detected(
    config: SyncConfig<Seq<char>>,
    head: Result<HeadInfo, GitError>,
) -> SyncConfig<Seq<char>> {
    match head {
        Ok(head) => match head.shorthand {
            Some(name) => if head.is_branch {
                SyncConfig { branch_name: name@, ..config }
            } else {
                config
            },
            None => config,
        },
        Err(_) => config,
    }
}

impl RepositorySynchronizer {
    /// A synchronizer for the repository at the given path, where one could be opened there.
    pub fn new(repo_path: &str, config: SyncConfig, opened: bool) -> (r: Result<
        RepositorySynchronizer,
        SyncError,
    >)
        ensures
            match r {
                Ok(s) => opened && s@ == fresh(repo_path@, config@),
                Err(e) => !opened && e@ == (SyncError::NotARepository { path: repo_path@ }),
            },
    {
        if !opened {
            return Err(SyncError::NotARepository { path: repo_path.to_string() });
        }
        Ok(
            RepositorySynchronizer {
                config,
                repo_path: repo_path.to_string(),
                fallback_state: FallbackState::default(),
            },
        )
    }

    /// As [`new`](Self::new), for the branch that HEAD resolves to, if it resolves to one.
    pub fn new_with_detected_branch(
        repo_path: &str,
        config: SyncConfig,
        opened: Option<Result<HeadInfo, GitError>>,
    ) -> (r: Result<RepositorySynchronizer, SyncError>)
        ensures
            match (opened, r) {
                (Some(head), Ok(s)) => s@ == fresh(repo_path@, detected(config@, head)),
                (None, Err(e)) => e@ == (SyncError::NotARepository { path: repo_path@ }),
                _ => false,
            },
    {
        match opened {
            None => Self::new(repo_path, config, false),
            Some(head) => {
                let mut config: SyncConfig = config;
                if let Ok(head) = head {
                    if head.is_branch {
                        if let Some(name) = head.shorthand {
                            config.branch_name = name;
                        }
                    }
                }
                Self::new(repo_path, config, true)
            },
        }
    }

    /// The synchronizer once another branch is checked out.
    pub fn moved_to(self, branch: String) -> (synchronizer: RepositorySynchronizer)
        ensures
            synchronizer@ == back::with_branch(self@, branch@),
    {
        let mut synchronizer: RepositorySynchronizer = self;
        synchronizer.config.branch_name = branch;
        synchronizer
    }

    /// The state of the repository.
    pub fn get_repository_state(&self) -> (step: Step<
        StateRun,
        Result<RepositoryState, SyncError>,
    >)
        ensures
            follows(|h: Seq<Reply>| state::repository_state_script(h), step),
            step is Ask,
    {
        StateRun::start()
    }

    /// Whether there are local changes to commit.
    pub fn has_local_changes(&self) -> (step: Step<ChangesRun, Result<bool, SyncError>>)
        ensures
            follows(
                |h: Seq<Reply>| changes::local_changes_script(self.config.sync_new_files, h),
                step,
            ),
            step is Ask,
    {
        ChangesRun::start(self.config.sync_new_files)
    }

    /// A file in a state that prevents a synchronization.
    pub fn check_unhandled_files(&self) -> (step: Step<
        UnhandledRun,
        Result<Option<UnhandledFileState>, SyncError>,
    >)
        ensures
            follows(|h: Seq<Reply>| unhandled::unhandled_files_script(h), step),
            step is Ask,
    {
        UnhandledRun::start()
    }

    /// The branch that is checked out.
    pub fn get_current_branch(&self) -> (step: Step<BranchRun, Result<CurrentBranch, SyncError>>)
        ensures
            follows(|h: Seq<Reply>| branch::current_branch_script(h), step),
            step is Ask,
    {
        BranchRun::start()
    }

    /// How the branch that is checked out relates to its upstream.
    pub fn get_sync_state(&self) -> (step: Step<SyncStateRun, Result<SyncState, SyncError>>)
        ensures
            follows(|h: Seq<Reply>| relation::sync_state_script(h), step),
            step is Ask,
    {
        SyncStateRun::start()
    }

    /// Commits the local changes.
    pub fn auto_commit(&self) -> (step: Step<AutoCommitRun, Result<(), SyncError>>)
        ensures
            follows(|h: Seq<Reply>| commit::auto_commit_script(self.config@, h), step),
            step is Ask,
    {
        AutoCommitRun::start(self.config.copy())
    }

    /// Fetches one branch.
    pub fn fetch_branch(&self, branch: &str) -> (step: Step<RemoteRun, Result<(), SyncError>>)
        ensures
            follows(
                |h: Seq<Reply>| remote::remote_script(
                    remote::fetch_command(self.config@, branch@),
                    h,
                ),
                step,
            ),
            step is Ask,
    {
        RemoteRun::fetch(&self.config, branch)
    }

    /// Fetches what a synchronization needs.
    pub fn fetch(&self) -> (step: Step<FetchRun, Result<(), SyncError>>)
        ensures
            follows(|h: Seq<Reply>| fetch::fetch_script(self.config@, false, h), step),
            step is Ask,
    {
        FetchRun::start(self.config.copy(), false)
    }

    /// Pushes the branch of the configuration.
    pub fn push(&self) -> (step: Step<RemoteRun, Result<(), SyncError>>)
        ensures
            follows(
                |h: Seq<Reply>| remote::remote_script(remote::push_command(self.config@), h),
                step,
            ),
            step is Ask,
    {
        RemoteRun::push(&self.config)
    }

    /// Moves the branch that is checked out forward to its upstream.
    pub fn fast_forward_merge(&self) -> (step: Step<ForwardRun, Result<(), SyncError>>)
        ensures
            follows(|h: Seq<Reply>| forward::fast_forward_script(h), step),
            step is Ask,
    {
        ForwardRun::start()
    }

    /// Rebases the branch that is checked out onto its upstream.
    pub fn rebase(&self) -> (step: Step<RebaseRun, Result<(), SyncError>>)
        ensures
            follows(|h: Seq<Reply>| rebase::rebase_script(self.config@, h), step),
            step is Ask,
    {
        RebaseRun::start(self.config.copy())
    }

    /// The default branch of the repository.
    pub fn detect_default_branch(&self) -> (step: Step<
        DefaultBranchRun,
        Result<String, SyncError>,
    >)
        ensures
            follows(|h: Seq<Reply>| target::default_branch_script(h), step),
            step is Ask,
    {
        DefaultBranchRun::start()
    }

    /// The branch that the repository should be on.
    pub fn get_target_branch(&self) -> (step: Step<DefaultBranchRun, Result<String, SyncError>>)
        ensures
            follows(
                |h: Seq<Reply>| target::target_branch_script(self.config@.target_branch, h),
                step,
            ),
    {
        DefaultBranchRun::start_target(&self.config.target_branch)
    }

    /// Whether the repository is in fallback mode: the branch that is checked out is a fallback
    /// branch, and not the one that is configured.
    pub fn is_on_fallback_branch(&self) -> (step: Step<OnFallbackRun, Result<bool, SyncError>>)
        ensures
            follows(
                |h: Seq<Reply>| create::on_fallback_script(self.config@.target_branch, h),
                step,
            ),
            step is Ask,
    {
        OnFallbackRun::start(&self.config.target_branch)
    }

    /// Creates a fallback branch and checks it out.
    pub fn create_fallback_branch(&self) -> (step: Step<CreateRun, Result<String, SyncError>>)
        ensures
            follows(|h: Seq<Reply>| create::create_fallback_script(h), step),
            step is Ask,
    {
        CreateRun::start()
    }

    /// Pushes a branch and makes the remote branch its upstream.
    pub fn push_branch(&self, branch_name: &str) -> (step: Step<RemoteRun, Result<(), SyncError>>)
        ensures
            follows(
                |h: Seq<Reply>| remote::remote_script(
                    remote::push_upstream_command(self.config@, branch_name@),
                    h,
                ),
                step,
            ),
            step is Ask,
    {
        RemoteRun::push_upstream(&self.config, branch_name)
    }

    /// Whether HEAD and a branch of the remote can be merged without conflicts.
    pub fn can_merge_cleanly(&self, target_branch: &str) -> (step: Step<
        MergeableRun,
        Result<bool, SyncError>,
    >)
        ensures
            follows(
                |h: Seq<Reply>| mergeable::can_merge_script(
                    self.config@.remote_name,
                    target_branch@,
                    h,
                ),
                step,
            ),
            step is Ask,
    {
        MergeableRun::start(&self.config, target_branch)
    }

    /// Returns to the branch that the repository should be on, where it is on a fallback branch
    /// and nothing stands in the way. Local changes have to be committed before: the working tree
    /// becomes that of the branch.
    pub fn try_return_to_target(self) -> (step: Step<ReturnRun, Return<String>>)
        ensures
            follows(|h: Seq<Reply>| back::return_script(self@, h), step),
            step is Ask,
    {
        ReturnRun::start(self)
    }

    /// Synchronizes the repository with its remote, or only checks whether that can be done.
    pub fn sync(self, check_only: bool) -> (step: Step<SyncRun, Synced<String>>)
        ensures
            follows(|h: Seq<Reply>| run::sync_script(self@, check_only, h), step),
            step is Ask,
    {
        SyncRun::start(self, check_only)
    }
}

} // verus!
