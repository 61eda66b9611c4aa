use anyhow::Result;
use git2::build::CheckoutBuilder;
use git2::{BranchType, Oid, Rebase, Repository, Signature, StatusOptions};
use git_sync_rs::clock::WallTime;
use git_sync_rs::error::{GitError, GitErrorCode};
use git_sync_rs::host::{host_and_time, user_and_host};
use git_sync_rs::path;
use git_sync_rs::sync::inspect::InspectRun;
use git_sync_rs::sync::step::{
    CommandOutput, GitOp, HeadInfo, Operation, Procedure, RebaseStep, RemoteCommand, Reply,
    StatusEntry, Step,
};
use git_sync_rs::sync::transport::{CommandGitTransport, CommitOutcome, GitTransport};
use git_sync_rs::watch::control::{Moment, WatchAction, WatchEvent, WatchLoop};
use git_sync_rs::watch::filter::{ChangeKind, EventFilter, FileEvent};
use git_sync_rs::{
    watch_with_periodic_sync, RepositoryState, RepositorySynchronizer, SyncConfig, SyncError,
    SyncState, WatchConfig, FALLBACK_BRANCH_PREFIX,
};
use std::io::Write;
use std::path::{Path, PathBuf};
use tempfile::TempDir;

/// What the replies to git operations come from: a repository, and what stands for its hooks.
struct Worktree<'r> {
    repo: &'r Repository,
    rebase: Option<Rebase<'r>>,
    hook_output: Option<&'static str>,
    /// Whether git knows no name and address to commit under
    nameless: bool,
    asked: Vec<GitOp>,
}

fn failure(e: git2::Error) -> GitError {
    let code = match e.code() {
        git2::ErrorCode::NotFound => GitErrorCode::NotFound,
        git2::ErrorCode::Conflict => GitErrorCode::Conflict,
        git2::ErrorCode::Locked => GitErrorCode::Locked,
        git2::ErrorCode::UnbornBranch => GitErrorCode::UnbornBranch,
        _ => GitErrorCode::Other,
    };
    GitError {
        code,
        description: e.to_string(),
    }
}

fn text<T: ToString>(r: std::result::Result<T, git2::Error>) -> Reply {
    Reply::Text(r.map(|t| t.to_string()).map_err(failure))
}

fn maybe(r: std::result::Result<Option<Oid>, git2::Error>) -> Reply {
    Reply::Maybe(r.map(|o| o.map(|o| o.to_string())).map_err(failure))
}

fn done(r: std::result::Result<(), git2::Error>) -> Reply {
    Reply::Done(r.map_err(failure))
}

fn command(r: std::result::Result<(), String>) -> Reply {
    Reply::Output(Ok(match r {
        Ok(()) => CommandOutput {
            success: true,
            stdout: Vec::new(),
            stderr: Vec::new(),
        },
        Err(stderr) => CommandOutput {
            success: false,
            stdout: Vec::new(),
            stderr: stderr.into_bytes(),
        },
    }))
}

impl<'r> Worktree<'r> {
    fn new(repo: &'r Repository) -> Self {
        Worktree {
            repo,
            rebase: None,
            hook_output: None,
            nameless: false,
            asked: Vec::new(),
        }
    }

    fn run<P: Procedure>(&mut self, step: Step<P, P::Output>) -> P::Output {
        let mut step = step;
        loop {
            match step {
                Step::Done(output) => return output,
                Step::Ask(run, op) => {
                    let reply = self.perform(&op);
                    self.asked.push(op);
                    step = run.resume(reply);
                }
            }
        }
    }

    fn fetch(&self, remote: &str, branch: &str) -> std::result::Result<(), String> {
        let mut found = self.repo.find_remote(remote).map_err(|e| e.to_string())?;
        let name = format!("refs/heads/{branch}");
        let known = Repository::open(found.url().unwrap())
            .and_then(|there| there.find_reference(&name).map(|_| ()))
            .is_ok();
        if !known {
            return Err(format!("fatal: couldn't find remote ref {branch}"));
        }
        let refspec = format!("+{name}:refs/remotes/{remote}/{branch}");
        found
            .fetch(&[refspec.as_str()], None, None)
            .map_err(|e| e.to_string())
    }

    fn push(&self, remote: &str, from: &str, to: &str) -> std::result::Result<(), String> {
        let mut found = self.repo.find_remote(remote).map_err(|e| e.to_string())?;
        let refspec = format!("refs/heads/{from}:refs/heads/{to}");
        found
            .push(&[refspec.as_str()], None)
            .map_err(|e| e.to_string())
    }

    fn commit(
        &self,
        message: &str,
        skip_hooks: bool,
        identity: &Option<(String, String)>,
    ) -> std::result::Result<(), String> {
        if let (Some(output), false) = (self.hook_output, skip_hooks) {
            return Err(output.to_string());
        }
        let signature = match identity {
            Some((name, email)) => Signature::now(name, email).map_err(|e| e.to_string())?,
            None if self.nameless => {
                return Err("fatal: unable to auto-detect email address".to_string())
            }
            None => self
                .repo
                .signature()
                .map_err(|_| "fatal: unable to auto-detect email address".to_string())?,
        };
        let mut index = self.repo.index().map_err(|e| e.to_string())?;
        let tree = index.write_tree().map_err(|e| e.to_string())?;
        let tree = self.repo.find_tree(tree).map_err(|e| e.to_string())?;
        let parent = self.repo.head().and_then(|h| h.peel_to_commit()).ok();
        let parents: Vec<&git2::Commit> = parent.iter().collect();
        self.repo
            .commit(Some("HEAD"), &signature, &signature, message, &tree, &parents)
            .map(|_| ())
            .map_err(|e| e.to_string())
    }

    fn stage_all(&self) -> std::result::Result<(), git2::Error> {
        let workdir = self.repo.workdir().unwrap().to_path_buf();
        let mut index = self.repo.index()?;
        let mut skip_nested = |path: &Path, _: &[u8]| -> i32 {
            if workdir.join(path).join(".git").exists() {
                1
            } else {
                0
            }
        };
        index.add_all(
            ["*"].iter(),
            git2::IndexAddOption::DEFAULT,
            Some(&mut skip_nested),
        )?;
        index.write()
    }

    fn stage_tracked(&self) -> std::result::Result<(), git2::Error> {
        let mut index = self.repo.index()?;
        index.update_all(["*"].iter(), None)?;
        index.write()
    }

    fn start_rebase(&mut self, branch: &str, onto: &str) -> std::result::Result<(), git2::Error> {
        let repo = self.repo;
        let branch = repo.reference_to_annotated_commit(&repo.find_reference(branch)?)?;
        let onto = repo.reference_to_annotated_commit(&repo.find_reference(onto)?)?;
        self.rebase = Some(repo.rebase(Some(&branch), Some(&onto), None, None)?);
        Ok(())
    }

    fn start_detached_rebase(
        &mut self,
        branch: &str,
        onto: &str,
    ) -> std::result::Result<(), git2::Error> {
        let repo = self.repo;
        let commit = |name: &str| -> std::result::Result<Oid, git2::Error> {
            Ok(repo.find_reference(name)?.peel_to_commit()?.id())
        };
        let branch = repo.find_annotated_commit(commit(branch)?)?;
        let onto = repo.find_annotated_commit(commit(onto)?)?;
        self.rebase = Some(repo.rebase(Some(&branch), Some(&onto), None, None)?);
        Ok(())
    }

    fn perform(&mut self, op: &GitOp) -> Reply {
        let repo = self.repo;
        match op {
            GitOp::HeadDetached => Reply::Flag(repo.head_detached().map_err(failure)),
            GitOp::Operation => Reply::Operation(match repo.state() {
                git2::RepositoryState::Clean => Operation::Clean,
                git2::RepositoryState::Merge => Operation::Merge,
                git2::RepositoryState::Revert => Operation::Revert,
                git2::RepositoryState::RevertSequence => Operation::RevertSequence,
                git2::RepositoryState::CherryPick => Operation::CherryPick,
                git2::RepositoryState::CherryPickSequence => Operation::CherryPickSequence,
                git2::RepositoryState::Bisect => Operation::Bisect,
                git2::RepositoryState::Rebase => Operation::Rebase,
                git2::RepositoryState::RebaseInteractive => Operation::RebaseInteractive,
                git2::RepositoryState::RebaseMerge => Operation::RebaseMerge,
                git2::RepositoryState::ApplyMailbox => Operation::ApplyMailbox,
                git2::RepositoryState::ApplyMailboxOrRebase => Operation::ApplyMailboxOrRebase,
            }),
            GitOp::Statuses { untracked } => {
                let mut options = StatusOptions::new();
                options.include_untracked(*untracked);
                Reply::Statuses(match repo.statuses(Some(&mut options)) {
                    Ok(statuses) => Ok(statuses
                        .iter()
                        .map(|entry| StatusEntry {
                            path: entry.path().map(str::to_string),
                            flags: entry.status().bits(),
                        })
                        .collect()),
                    Err(e) => Err(failure(e)),
                })
            }
            GitOp::Head => Reply::Head(
                repo.head()
                    .map(|head| HeadInfo {
                        is_branch: head.is_branch(),
                        shorthand: head.shorthand().map(str::to_string),
                    })
                    .map_err(failure),
            ),
            GitOp::HeadSymbolicTarget => Reply::Maybe(
                repo.find_reference("HEAD")
                    .map(|head| head.symbolic_target().map(str::to_string))
                    .map_err(failure),
            ),
            GitOp::HeadCommit => text(
                repo.head()
                    .and_then(|h| h.peel_to_commit())
                    .map(|c| c.id()),
            ),
            GitOp::HeadOid => maybe(repo.head().map(|h| h.target())),
            GitOp::HeadTree => text(
                repo.head()
                    .and_then(|h| h.peel_to_commit())
                    .map(|c| c.tree_id()),
            ),
            GitOp::BranchOid { branch } => maybe(
                repo.find_branch(branch, BranchType::Local)
                    .map(|b| b.get().target()),
            ),
            GitOp::UpstreamOid { branch } => maybe(
                repo.find_branch(branch, BranchType::Local)
                    .and_then(|b| b.upstream())
                    .map(|b| b.get().target()),
            ),
            GitOp::BranchCommit { branch } => text(
                repo.find_branch(branch, BranchType::Local)
                    .and_then(|b| b.get().peel_to_commit())
                    .map(|c| c.id()),
            ),
            GitOp::UpstreamCommit { branch } => text(
                repo.find_branch(branch, BranchType::Local)
                    .and_then(|b| b.upstream())
                    .and_then(|b| b.get().peel_to_commit())
                    .map(|c| c.id()),
            ),
            GitOp::ReferenceOid { name } => maybe(repo.find_reference(name).map(|r| r.target())),
            GitOp::ReferenceCommit { name } => text(
                repo.find_reference(name)
                    .and_then(|r| r.peel_to_commit())
                    .map(|c| c.id()),
            ),
            GitOp::ReferenceExists { name } => Reply::Flag(Ok(repo.find_reference(name).is_ok())),
            GitOp::BranchExists { branch } => {
                Reply::Flag(Ok(repo.find_branch(branch, BranchType::Local).is_ok()))
            }
            GitOp::ResolvedShorthand { name } => Reply::Maybe(
                repo.find_reference(name)
                    .and_then(|r| r.resolve())
                    .map(|r| r.shorthand().map(str::to_string))
                    .map_err(failure),
            ),
            GitOp::AheadBehind { local, upstream } => Reply::Counts(
                repo.graph_ahead_behind(oid(local), oid(upstream))
                    .map_err(failure),
            ),
            GitOp::MergeBase { one, two } => text(repo.merge_base(oid(one), oid(two))),
            GitOp::DescendantOf { commit, ancestor } => Reply::Flag(
                repo.graph_descendant_of(oid(commit), oid(ancestor))
                    .map_err(failure),
            ),
            GitOp::MergeConflicts { ours, theirs } => {
                let merged = repo.find_commit(oid(ours)).and_then(|ours| {
                    let theirs = repo.find_commit(oid(theirs))?;
                    repo.merge_commits(&ours, &theirs, None)
                });
                Reply::Flag(merged.map(|index| index.has_conflicts()).map_err(failure))
            }
            GitOp::HostAndTime { layout } => host_and_time(*layout),
            GitOp::UserAndHost => user_and_host(Some("ann".to_string())),
            GitOp::Run(RemoteCommand::Fetch { remote, branch }) => {
                command(self.fetch(remote, branch))
            }
            GitOp::Run(RemoteCommand::Push { remote, refspec }) => {
                let (from, to) = refspec.split_once(':').unwrap();
                command(self.push(remote, from, to))
            }
            GitOp::Run(RemoteCommand::PushUpstream { remote, branch }) => command(
                self.push(remote, branch, branch).and_then(|()| {
                    let mut found = repo
                        .find_branch(branch, BranchType::Local)
                        .map_err(|e| e.to_string())?;
                    found
                        .set_upstream(Some(&format!("{remote}/{branch}")))
                        .map_err(|e| e.to_string())
                }),
            ),
            GitOp::Commit {
                message,
                skip_hooks,
                identity,
            } => command(self.commit(message, *skip_hooks, identity)),
            GitOp::StageAll => done(self.stage_all()),
            GitOp::StageTracked => done(self.stage_tracked()),
            GitOp::WriteTree => text(repo.index().and_then(|mut i| i.write_tree())),
            GitOp::SetHeadTarget { oid: to, message } => done(
                repo.head()
                    .and_then(|mut h| h.set_target(oid(to), message))
                    .map(|_| ()),
            ),
            GitOp::SetHead { name } => done(repo.set_head(name)),
            GitOp::CheckoutTree { oid: to } => {
                done(repo.find_object(oid(to), None).and_then(|object| {
                    repo.checkout_tree(&object, Some(CheckoutBuilder::new().force()))
                }))
            }
            GitOp::CheckoutHead => {
                done(repo.checkout_head(Some(CheckoutBuilder::new().force())))
            }
            GitOp::CreateBranch { branch, oid: at } => done(
                repo.find_commit(oid(at))
                    .and_then(|commit| repo.branch(branch, &commit, false))
                    .map(|_| ()),
            ),
            GitOp::ForceReference {
                name,
                oid: at,
                message,
            } => done(repo.reference(name, oid(at), true, message).map(|_| ())),
            GitOp::StartRebaseOntoUpstream { branch } => {
                let upstream = repo
                    .find_branch(branch, BranchType::Local)
                    .and_then(|b| b.upstream())
                    .map(|b| b.get().name().unwrap().to_string());
                done(match upstream {
                    Ok(upstream) => {
                        self.start_rebase(&format!("refs/heads/{branch}"), &upstream)
                    }
                    Err(e) => Err(e),
                })
            }
            GitOp::StartRebase { branch, onto } => done(self.start_detached_rebase(branch, onto)),
            GitOp::NextRebaseStep => Reply::Rebase(match self.rebase.as_mut().unwrap().next() {
                None => Ok(RebaseStep::Finished),
                Some(Err(e)) => Err(failure(e)),
                Some(Ok(_)) => repo
                    .index()
                    .map(|index| RebaseStep::Applied {
                        conflicts: index.has_conflicts(),
                    })
                    .map_err(failure),
            }),
            GitOp::CommitRebaseStep => {
                let signature = repo.signature().unwrap();
                done(
                    self.rebase
                        .as_mut()
                        .unwrap()
                        .commit(None, &signature, None)
                        .map(|_| ()),
                )
            }
            GitOp::AbortRebase => done(self.rebase.take().unwrap().abort()),
            GitOp::FinishRebase => {
                let signature = repo.signature().unwrap();
                done(self.rebase.take().unwrap().finish(Some(&signature)))
            }
        }
    }
}

fn oid(text: &str) -> Oid {
    Oid::from_str(text).unwrap()
}

/// A bare repository, and a clone of it.
struct TestRepoSetup {
    temp_dir: TempDir,
    remote_path: PathBuf,
    local_path: PathBuf,
}

fn configure(repo: &Repository, name: &str, email: &str) -> Result<()> {
    let mut config = repo.config()?;
    config.set_str("user.name", name)?;
    config.set_str("user.email", email)?;
    config.set_str("core.autocrlf", "false")?;
    Ok(())
}

fn write_file(path: &Path, contents: &[u8]) -> Result<()> {
    let directory = path.parent().unwrap();
    let mut file = tempfile::Builder::new().tempfile_in(directory)?;
    file.write_all(contents)?;
    file.persist(path)?;
    Ok(())
}

fn make_directory(parent: &Path, name: &str) -> Result<PathBuf> {
    let made = tempfile::Builder::new()
        .prefix(name)
        .rand_bytes(0)
        .tempdir_in(parent)?;
    Ok(made.keep())
}

fn holds(path: &Path, contents: &[u8]) -> bool {
    let found = Oid::hash_file(git2::ObjectType::Blob, path);
    let expected = Oid::hash_object(git2::ObjectType::Blob, contents);
    matches!((found, expected), (Ok(found), Ok(expected)) if found == expected)
}

impl TestRepoSetup {
    fn new() -> Result<Self> {
        let temp_dir = TempDir::new()?;
        let remote_path = temp_dir.path().join("remote.git");
        let local_path = temp_dir.path().join("local");
        let mut options = git2::RepositoryInitOptions::new();
        options.bare(true).initial_head("master");
        Repository::init_opts(&remote_path, &options)?;
        let mut options = git2::RepositoryInitOptions::new();
        options.initial_head("master");
        let local = Repository::init_opts(&local_path, &options)?;
        local.remote("origin", remote_path.to_str().unwrap())?;
        configure(&local, "Test User", "test@example.com")?;
        let mut config = local.config()?;
        config.set_str("branch.master.remote", "origin")?;
        config.set_str("branch.master.merge", "refs/heads/master")?;
        Ok(TestRepoSetup {
            temp_dir,
            remote_path,
            local_path,
        })
    }

    fn create_second_clone(&self, name: &str) -> Result<PathBuf> {
        let path = self.temp_dir.path().join(name);
        let clone = Repository::clone(self.remote_path.to_str().unwrap(), &path)?;
        configure(&clone, "Test User 2", "test2@example.com")?;
        Ok(path)
    }

    fn commit_file(&self, filename: &str, content: &str, message: &str) -> Result<()> {
        self.commit_file_in(&self.local_path, filename, content, message)
    }

    fn commit_file_in(
        &self,
        repo_path: &Path,
        filename: &str,
        content: &str,
        message: &str,
    ) -> Result<()> {
        write_file(&repo_path.join(filename), content.as_bytes())?;
        commit_all(repo_path, message)
    }

    fn push(&self) -> Result<()> {
        self.push_from(&self.local_path)
    }

    fn push_from(&self, repo_path: &Path) -> Result<()> {
        push_branch(repo_path, "master")
    }

    fn pull(&self) -> Result<()> {
        self.pull_in(&self.local_path)
    }

    fn pull_in(&self, repo_path: &Path) -> Result<()> {
        pull_branch(repo_path, "master")
    }

    fn assert_file_content(&self, filename: &str, expected: &str) -> Result<()> {
        self.assert_file_content_in(&self.local_path, filename, expected)
    }

    fn assert_file_content_in(
        &self,
        repo_path: &Path,
        filename: &str,
        expected: &str,
    ) -> Result<()> {
        assert!(
            holds(&repo_path.join(filename), expected.as_bytes()),
            "File content mismatch for {filename}"
        );
        Ok(())
    }
}

fn commit_all(repo_path: &Path, message: &str) -> Result<()> {
    let repo = Repository::open(repo_path)?;
    let mut index = repo.index()?;
    index.add_all(["*"].iter(), git2::IndexAddOption::DEFAULT, None)?;
    index.update_all(["*"].iter(), None)?;
    index.write()?;
    let committed = Worktree::new(&repo)
        .commit(message, true, &None)
        .map_err(anyhow::Error::msg);
    committed
}

fn push_branch(repo_path: &Path, branch: &str) -> Result<()> {
    let repo = Repository::open(repo_path)?;
    let pushed = Worktree::new(&repo)
        .push("origin", branch, branch)
        .map_err(anyhow::Error::msg);
    pushed
}

fn pull_branch(repo_path: &Path, branch: &str) -> Result<()> {
    let repo = Repository::open(repo_path)?;
    Worktree::new(&repo)
        .fetch("origin", branch)
        .map_err(anyhow::Error::msg)?;
    let theirs = repo
        .find_reference(&format!("refs/remotes/origin/{branch}"))?
        .peel_to_commit()?;
    let ours = repo.head()?.peel_to_commit()?;
    if ours.id() != theirs.id() {
        assert!(
            repo.graph_descendant_of(theirs.id(), ours.id())?,
            "a pull that is no fast-forward"
        );
        repo.head()?.set_target(theirs.id(), "pull")?;
        repo.checkout_head(Some(CheckoutBuilder::new().force()))?;
    }
    Ok(())
}

fn checkout_new_branch(repo_path: &Path, branch: &str, at: &str) -> Result<()> {
    let repo = Repository::open(repo_path)?;
    let commit = repo.revparse_single(at)?.peel_to_commit()?;
    repo.branch(branch, &commit, false)?;
    repo.set_head(&format!("refs/heads/{branch}"))?;
    repo.checkout_head(Some(CheckoutBuilder::new().force()))?;
    Ok(())
}

fn current_branch(repo_path: &Path) -> Result<String> {
    let repo = Repository::open(repo_path)?;
    let head = repo.head()?;
    Ok(head.shorthand().unwrap().to_string())
}

fn remote_branch_exists(setup: &TestRepoSetup, branch: &str) -> Result<bool> {
    let remote = Repository::open(&setup.remote_path)?;
    let exists = remote.find_branch(branch, BranchType::Local).is_ok();
    Ok(exists)
}

fn config(message: &str) -> SyncConfig {
    SyncConfig {
        sync_new_files: true,
        skip_hooks: false,
        commit_message: Some(message.to_string()),
        remote_name: "origin".to_string(),
        branch_name: "master".to_string(),
        conflict_branch: false,
        target_branch: None,
    }
}

fn conflict_config() -> SyncConfig {
    SyncConfig {
        conflict_branch: true,
        target_branch: Some("master".to_string()),
        ..config("Sync")
    }
}

fn detected(repo_path: &Path, config: SyncConfig) -> RepositorySynchronizer {
    let repo = Repository::open(repo_path).unwrap();
    let Reply::Head(head) = Worktree::new(&repo).perform(&GitOp::Head) else {
        unreachable!()
    };
    RepositorySynchronizer::new_with_detected_branch(
        repo_path.to_str().unwrap(),
        config,
        Some(head),
    )
    .unwrap()
}

/// Synchronizes a repository and keeps the synchronizer.
fn resync(
    repo_path: &Path,
    synchronizer: RepositorySynchronizer,
) -> (std::result::Result<(), SyncError>, RepositorySynchronizer) {
    let repo = Repository::open(repo_path).unwrap();
    let mut worktree = Worktree::new(&repo);
    worktree.run(synchronizer.sync(false))
}

fn sync_with(repo_path: &Path, config: SyncConfig) -> std::result::Result<(), SyncError> {
    resync(repo_path, detected(repo_path, config)).0
}

fn sync(repo_path: &Path, config: SyncConfig) -> Result<()> {
    sync_with(repo_path, config).map_err(|e| anyhow::Error::msg(e.message()))
}

#[test]
fn basic_sync() -> Result<()> {
    let setup = TestRepoSetup::new()?;
    setup.commit_file("README.md", "# Initial\n", "Initial commit")?;
    setup.push()?;

    let second_clone = setup.create_second_clone("second")?;
    setup.commit_file_in(
        &second_clone,
        "file1.txt",
        "Hello from second clone\n",
        "Add file1",
    )?;
    setup.push_from(&second_clone)?;

    sync(&setup.local_path, config("Sync: {hostname} at {timestamp}"))?;
    setup.assert_file_content("file1.txt", "Hello from second clone\n")
}

#[test]
fn auto_commit_new_files() -> Result<()> {
    let setup = TestRepoSetup::new()?;
    setup.commit_file("README.md", "# Initial\n", "Initial commit")?;
    setup.push()?;
    write_file(
        &setup.local_path.join("new_file.txt"),
        b"This is a new file\n",
    )?;

    sync(
        &setup.local_path,
        config("Auto-commit: {hostname} at {timestamp}"),
    )?;

    let second_clone = setup.create_second_clone("second")?;
    setup.assert_file_content_in(&second_clone, "new_file.txt", "This is a new file\n")?;

    // The placeholders are filled in.
    let repo = Repository::open(&second_clone)?;
    let message = repo.head()?.peel_to_commit()?.message().unwrap().to_string();
    assert!(message.starts_with("Auto-commit: "));
    assert!(!message.contains("{hostname}") && !message.contains("{timestamp}"));
    Ok(())
}

#[test]
fn bidirectional_sync() -> Result<()> {
    let setup = TestRepoSetup::new()?;
    setup.commit_file("README.md", "# Initial\n", "Initial commit")?;
    setup.push()?;
    let second_clone = setup.create_second_clone("second")?;

    setup.commit_file("local_file.txt", "Changes from local\n", "Add local file")?;
    setup.commit_file_in(
        &second_clone,
        "remote_file.txt",
        "Changes from remote\n",
        "Add remote file",
    )?;
    setup.push_from(&second_clone)?;

    sync(&setup.local_path, config("Sync: {hostname} at {timestamp}"))?;

    setup.assert_file_content("local_file.txt", "Changes from local\n")?;
    setup.assert_file_content("remote_file.txt", "Changes from remote\n")?;

    setup.pull_in(&second_clone)?;
    setup.assert_file_content_in(&second_clone, "local_file.txt", "Changes from local\n")
}

#[test]
fn handle_binary_file_conflict() -> Result<()> {
    let setup = TestRepoSetup::new()?;
    write_file(
        &setup.local_path.join("binary.dat"),
        &[0u8, 1, 2, 3, 255, 254, 253],
    )?;
    commit_all(&setup.local_path, "Add binary")?;
    setup.push()?;
    let second = setup.create_second_clone("second")?;

    write_file(&setup.local_path.join("binary.dat"), &[0u8, 1, 2, 3, 4, 5])?;
    commit_all(&setup.local_path, "Local binary change")?;
    write_file(&second.join("binary.dat"), &[0u8, 9, 8, 7, 6])?;
    commit_all(&second, "Remote binary change")?;
    setup.push_from(&second)?;

    let _result = sync_with(&setup.local_path, config("Sync binary conflict"));

    assert!(setup.local_path.join("binary.dat").exists());
    Ok(())
}

#[test]
fn handle_file_deleted_remotely() -> Result<()> {
    let setup = TestRepoSetup::new()?;
    setup.commit_file("keep.txt", "Keep this\n", "Add files")?;
    setup.commit_file("delete.txt", "Delete this\n", "Add delete file")?;
    setup.push()?;
    let second = setup.create_second_clone("second")?;

    let repo = Repository::open(&second)?;
    let mut index = repo.index()?;
    index.remove_path(Path::new("delete.txt"))?;
    index.write()?;
    Worktree::new(&repo)
        .commit("Delete file", true, &None)
        .map_err(anyhow::Error::msg)?;
    setup.push_from(&second)?;

    setup.commit_file("delete.txt", "Modified locally\n", "Modify file")?;

    let _result = sync_with(&setup.local_path, config("Sync deletion conflict"));

    setup.assert_file_content("keep.txt", "Keep this\n")
}

#[test]
fn gitignore_respect() -> Result<()> {
    let setup = TestRepoSetup::new()?;
    setup.commit_file(".gitignore", "*.log\ntemp/\nsecret.txt\n", "Add gitignore")?;
    setup.push()?;

    write_file(&setup.local_path.join("test.log"), b"Log content\n")?;
    write_file(&setup.local_path.join("secret.txt"), b"Secret data\n")?;
    let temp = make_directory(&setup.local_path, "temp")?;
    write_file(&temp.join("file.txt"), b"Temp file\n")?;
    write_file(&setup.local_path.join("normal.txt"), b"Normal file\n")?;

    sync(
        &setup.local_path,
        config("Auto-commit: {hostname} at {timestamp}"),
    )?;

    let second_clone = setup.create_second_clone("second")?;
    setup.assert_file_content_in(&second_clone, "normal.txt", "Normal file\n")?;
    assert!(
        !second_clone.join("test.log").exists(),
        "Log file should not be synced"
    );
    assert!(
        !second_clone.join("secret.txt").exists(),
        "Secret file should not be synced"
    );
    assert!(
        !second_clone.join("temp").exists(),
        "Temp directory should not be synced"
    );
    Ok(())
}

#[test]
fn handle_merge_conflict_with_local_changes() -> Result<()> {
    let (setup, _) = conflicting_setup()?;
    let result = sync_with(&setup.local_path, config("Sync conflict"));
    if result.is_ok() {
        panic!("the two versions of the line cannot both be kept");
    }
    // The rebase was given up: what was there before is there again.
    setup.assert_file_content("data.txt", "line1\nLOCAL\nline3\n")?;
    let repo = Repository::open(&setup.local_path)?;
    assert_eq!(repo.state(), git2::RepositoryState::Clean);
    Ok(())
}

#[test]
fn conflict_resolution_with_merge() -> Result<()> {
    let setup = TestRepoSetup::new()?;
    setup.commit_file("conflict.txt", "Original content\n", "Initial commit")?;
    setup.push()?;
    let second_clone = setup.create_second_clone("second")?;

    setup.commit_file("conflict.txt", "Local changes\n", "Local modification")?;
    setup.commit_file_in(
        &second_clone,
        "conflict.txt",
        "Remote changes\n",
        "Remote modification",
    )?;
    setup.push_from(&second_clone)?;

    let result = sync_with(
        &setup.local_path,
        config("Merge: {hostname} at {timestamp}"),
    );
    assert!(
        result.is_ok() || result.is_err(),
        "Sync should either succeed or fail gracefully"
    );
    Ok(())
}

#[test]
fn multiple_users_concurrent_changes() -> Result<()> {
    let setup = TestRepoSetup::new()?;
    setup.commit_file("shared.txt", "Initial\n", "Initial")?;
    setup.push()?;

    let user2 = setup.create_second_clone("user2")?;
    let user3 = setup.create_second_clone("user3")?;

    setup.commit_file("file1.txt", "User1 content\n", "User1 adds file")?;
    setup.commit_file_in(&user2, "file2.txt", "User2 content\n", "User2 adds file")?;
    setup.commit_file_in(&user3, "file3.txt", "User3 content\n", "User3 adds file")?;
    setup.push_from(&user2)?;

    sync(&setup.local_path, config("Sync user1"))?;

    let push_result = setup.push_from(&user3);
    assert!(
        push_result.is_err(),
        "Direct push should fail due to diverged branches"
    );

    sync(&user3, config("Sync user1"))?;

    setup.pull()?;
    setup.pull_in(&user2)?;

    setup.assert_file_content("file1.txt", "User1 content\n")?;
    setup.assert_file_content("file2.txt", "User2 content\n")?;
    setup.assert_file_content("file3.txt", "User3 content\n")?;
    setup.assert_file_content_in(&user2, "file1.txt", "User1 content\n")?;
    setup.assert_file_content_in(&user2, "file3.txt", "User3 content\n")
}

#[test]
fn uncommitted_changes_during_sync() -> Result<()> {
    let setup = TestRepoSetup::new()?;
    setup.commit_file("base.txt", "Base content\n", "Initial")?;
    setup.push()?;
    let second = setup.create_second_clone("second")?;
    setup.commit_file_in(&second, "remote.txt", "Remote file\n", "Add remote")?;
    setup.push_from(&second)?;

    write_file(
        &setup.local_path.join("uncommitted.txt"),
        b"Not committed yet\n",
    )?;
    write_file(
        &setup.local_path.join("base.txt"),
        b"Modified but not committed\n",
    )?;

    sync(&setup.local_path, config("Auto-commit and sync"))?;

    setup.assert_file_content("remote.txt", "Remote file\n")?;
    setup.assert_file_content("uncommitted.txt", "Not committed yet\n")?;

    setup.pull_in(&second)?;
    setup.assert_file_content_in(&second, "uncommitted.txt", "Not committed yet\n")
}

#[test]
fn nested_git_repo_directory_does_not_break_auto_commit() -> Result<()> {
    let setup = TestRepoSetup::new()?;
    setup.commit_file("README.md", "initial\n", "Initial commit")?;
    setup.push()?;

    let worktrees = make_directory(&setup.local_path, ".worktrees")?;
    let nested_root = make_directory(&worktrees, "fix-org-categories")?;
    Repository::init(&nested_root)?;
    write_file(&nested_root.join("nested.txt"), b"nested\n")?;
    write_file(&setup.local_path.join("README.md"), b"changed\n")?;

    sync(
        &setup.local_path,
        config("Auto-commit: {hostname} at {timestamp}"),
    )?;

    let second_clone = setup.create_second_clone("second")?;
    setup.assert_file_content_in(&second_clone, "README.md", "changed\n")?;
    assert!(
        !second_clone.join(".worktrees").exists(),
        "Nested repository directory should not be synced"
    );
    Ok(())
}

#[test]
fn staged_changes_should_be_auto_committed_and_synced() -> Result<()> {
    let setup = TestRepoSetup::new()?;
    setup.commit_file("tracked.txt", "v1\n", "initial")?;
    setup.push()?;
    let second_clone = setup.create_second_clone("second")?;

    write_file(&setup.local_path.join("tracked.txt"), b"v2\n")?;
    let repo = Repository::open(&setup.local_path)?;
    let mut index = repo.index()?;
    index.add_path(Path::new("tracked.txt"))?;
    index.write()?;

    sync(&setup.local_path, config("Sync staged change"))?;

    setup.pull_in(&second_clone)?;
    setup.assert_file_content_in(&second_clone, "tracked.txt", "v2\n")
}

#[test]
fn revert_in_progress_should_not_be_reported_as_clean() -> Result<()> {
    let setup = TestRepoSetup::new()?;
    setup.commit_file("tracked.txt", "v1\n", "initial")?;
    setup.push()?;
    setup.commit_file("tracked.txt", "v2\n", "second")?;

    let repo = Repository::open(&setup.local_path)?;
    let head = repo.head()?.peel_to_commit()?;
    repo.revert(&head, None)?;

    let synchronizer = detected(&setup.local_path, config("Sync"));
    let state = Worktree::new(&repo).run(synchronizer.get_repository_state());

    match state {
        Ok(state) => assert_ne!(
            state,
            RepositoryState::Clean,
            "Repository with revert in progress must not be reported as clean"
        ),
        Err(e) => panic!("{}", e.message()),
    }
    let refused = sync_with(&setup.local_path, config("Sync"));
    assert!(matches!(
        refused,
        Err(SyncError::UnsafeRepositoryState { ref state }) if state == "Reverting"
    ));
    Ok(())
}

#[test]
fn sync_should_handle_unborn_head_when_local_changes_exist() -> Result<()> {
    let setup = TestRepoSetup::new()?;
    write_file(&setup.local_path.join("first.txt"), b"initial content\n")?;

    sync(&setup.local_path, config("Initial sync"))?;

    let second_clone = setup.create_second_clone("second")?;
    setup.assert_file_content_in(&second_clone, "first.txt", "initial content\n")
}

#[test]
fn syncing_local_branch_without_remote_ref_returns_typed_error() -> Result<()> {
    let setup = TestRepoSetup::new()?;
    setup.commit_file("tracked.txt", "v1\n", "initial")?;
    setup.push()?;
    checkout_new_branch(&setup.local_path, "feature/local-only", "HEAD")?;
    setup.commit_file("tracked.txt", "v2\n", "local branch change")?;

    let result = sync_with(&setup.local_path, config("Sync local-only branch"));

    assert!(
        matches!(
            result,
            Err(SyncError::RemoteBranchNotFound {
                ref remote,
                ref branch
            }) if remote == "origin" && branch == "feature/local-only"
        ),
        "Expected typed missing-remote-branch error, got: {result:?}"
    );
    Ok(())
}

#[test]
fn sync_uses_checked_out_branch_even_with_stale_config_branch_name() -> Result<()> {
    let setup = TestRepoSetup::new()?;
    setup.commit_file("tracked.txt", "v1\n", "initial")?;
    setup.push()?;
    let second_clone = setup.create_second_clone("second")?;

    checkout_new_branch(&setup.local_path, "feature/active", "HEAD")?;
    let repo = Repository::open(&setup.local_path)?;
    Worktree::new(&repo).perform(&GitOp::Run(RemoteCommand::PushUpstream {
        remote: "origin".to_string(),
        branch: "feature/active".to_string(),
    }));
    let second = Repository::open(&second_clone)?;
    Worktree::new(&second)
        .fetch("origin", "feature/active")
        .map_err(anyhow::Error::msg)?;
    checkout_new_branch(&second_clone, "feature/active", "origin/feature/active")?;

    setup.commit_file_in(
        &second_clone,
        "feature.txt",
        "remote-v1\n",
        "remote feature change",
    )?;
    push_branch(&second_clone, "feature/active")?;

    // The configuration names another branch than the one that is checked out.
    let stale = |path: &Path| {
        RepositorySynchronizer::new(
            path.to_str().unwrap(),
            config("Sync with stale branch config"),
            true,
        )
        .unwrap()
    };
    let (result, after) = resync(&setup.local_path, stale(&setup.local_path));
    assert!(result.is_ok(), "{result:?}");
    assert_eq!(after.config.branch_name, "feature/active");
    setup.assert_file_content("feature.txt", "remote-v1\n")?;

    setup.commit_file("feature.txt", "local-v2\n", "local feature change")?;
    let (result, _) = resync(&setup.local_path, stale(&setup.local_path));
    assert!(result.is_ok(), "{result:?}");

    pull_branch(&second_clone, "feature/active")?;
    setup.assert_file_content_in(&second_clone, "feature.txt", "local-v2\n")
}

/// A change here and another one on the remote, to the same line.
fn conflicting_setup() -> Result<(TestRepoSetup, PathBuf)> {
    let setup = TestRepoSetup::new()?;
    setup.commit_file("data.txt", "line1\nline2\nline3\n", "Initial")?;
    setup.push()?;
    let second = setup.create_second_clone("second")?;
    setup.commit_file("data.txt", "line1\nLOCAL\nline3\n", "Local change")?;
    setup.commit_file_in(
        &second,
        "data.txt",
        "line1\nREMOTE\nline3\n",
        "Remote change",
    )?;
    setup.push_from(&second)?;
    Ok((setup, second))
}

#[test]
fn conflict_branch_disabled_by_default() -> Result<()> {
    let (setup, _) = conflicting_setup()?;
    let result = sync_with(&setup.local_path, config("Sync"));

    assert!(
        result.is_err(),
        "Sync should fail when conflict_branch is disabled"
    );
    assert!(matches!(
        result,
        Err(SyncError::ManualInterventionRequired { .. })
    ));
    assert_eq!(
        current_branch(&setup.local_path)?,
        "master",
        "Should still be on master"
    );
    Ok(())
}

#[test]
fn conflict_branch_creates_fallback_on_conflict() -> Result<()> {
    let (setup, _) = conflicting_setup()?;
    let result = sync_with(&setup.local_path, conflict_config());

    assert!(
        result.is_ok(),
        "Sync should succeed with conflict_branch enabled: {:?}",
        result
    );
    let branch = current_branch(&setup.local_path)?;
    assert!(
        branch.starts_with(FALLBACK_BRANCH_PREFIX),
        "Should be on a fallback branch, got: {}",
        branch
    );
    assert!(
        remote_branch_exists(&setup, &branch)?,
        "Fallback branch should exist on remote"
    );
    setup.assert_file_content("data.txt", "line1\nLOCAL\nline3\n")
}

#[test]
fn conflict_branch_returns_to_target_after_resolution() -> Result<()> {
    let (setup, second) = conflicting_setup()?;
    sync(&setup.local_path, conflict_config())?;
    let fallback_branch = current_branch(&setup.local_path)?;
    assert!(fallback_branch.starts_with(FALLBACK_BRANCH_PREFIX));

    // Somebody else merges the fallback branch, and keeps what it says.
    let repo = Repository::open(&second)?;
    Worktree::new(&repo)
        .fetch("origin", &fallback_branch)
        .map_err(anyhow::Error::msg)?;
    let ours = repo.head()?.peel_to_commit()?;
    let theirs = repo
        .find_reference(&format!("refs/remotes/origin/{fallback_branch}"))?
        .peel_to_commit()?;
    let signature = repo.signature()?;
    let merge = repo.commit(
        Some("HEAD"),
        &signature,
        &signature,
        "Merge",
        &theirs.tree()?,
        &[&ours, &theirs],
    )?;
    repo.checkout_tree(
        repo.find_commit(merge)?.as_object(),
        Some(CheckoutBuilder::new().force()),
    )?;
    setup.push_from(&second)?;

    sync(&setup.local_path, conflict_config())?;

    assert_eq!(
        current_branch(&setup.local_path)?,
        "master",
        "Should have returned to master after resolution"
    );
    setup.assert_file_content("data.txt", "line1\nLOCAL\nline3\n")
}

#[test]
fn conflict_branch_stays_on_fallback_when_still_conflicting() -> Result<()> {
    let (setup, second) = conflicting_setup()?;
    sync(&setup.local_path, conflict_config())?;
    let fallback_branch = current_branch(&setup.local_path)?;
    assert!(fallback_branch.starts_with(FALLBACK_BRANCH_PREFIX));

    setup.commit_file_in(
        &second,
        "data.txt",
        "line1\nSTILL REMOTE\nline3\n",
        "Another remote change",
    )?;
    setup.push_from(&second)?;

    let (result, after) = resync(
        &setup.local_path,
        detected(&setup.local_path, conflict_config()),
    );
    assert!(result.is_ok(), "{result:?}");
    let branch = current_branch(&setup.local_path)?;
    assert!(
        branch.starts_with(FALLBACK_BRANCH_PREFIX),
        "Should still be on fallback branch since conflict persists, got: {}",
        branch
    );

    // Where the target branch has not moved, it is not tried again.
    assert!(after.fallback_state.last_checked_target_oid.is_some());
    let repo = Repository::open(&setup.local_path)?;
    let mut worktree = Worktree::new(&repo);
    let (result, _) = worktree.run(after.sync(false));
    assert!(result.is_ok(), "{result:?}");
    assert!(!worktree
        .asked
        .iter()
        .any(|op| matches!(op, GitOp::MergeConflicts { .. })));
    Ok(())
}

#[test]
fn conflict_branch_naming_includes_hostname() -> Result<()> {
    let (setup, _) = conflicting_setup()?;
    sync(&setup.local_path, conflict_config())?;

    let branch = current_branch(&setup.local_path)?;
    assert!(branch.starts_with(FALLBACK_BRANCH_PREFIX));
    let hostname = hostname::get()?.to_string_lossy().to_string();
    let branch_suffix = branch.strip_prefix(FALLBACK_BRANCH_PREFIX).unwrap();
    assert!(
        branch_suffix.starts_with(&hostname),
        "Branch should contain hostname. Expected to start with '{}', got '{}'",
        hostname,
        branch_suffix
    );
    Ok(())
}

#[test]
fn commits_of_a_fallback_branch_are_taken_along() -> Result<()> {
    let (setup, second) = conflicting_setup()?;
    sync(&setup.local_path, conflict_config())?;

    // The remote takes its change back, so that nothing stands in the way any more.
    setup.commit_file_in(
        &second,
        "data.txt",
        "line1\nline2\nline3\n",
        "Take the change back",
    )?;
    setup.commit_file_in(&second, "other.txt", "other\n", "Something else")?;
    setup.push_from(&second)?;
    setup.commit_file("extra.txt", "extra\n", "More work on the fallback branch")?;

    sync(&setup.local_path, conflict_config())?;

    assert_eq!(current_branch(&setup.local_path)?, "master");
    setup.assert_file_content("data.txt", "line1\nLOCAL\nline3\n")?;
    setup.assert_file_content("extra.txt", "extra\n")?;
    setup.assert_file_content("other.txt", "other\n")?;
    setup.pull_in(&second)?;
    setup.assert_file_content_in(&second, "extra.txt", "extra\n")
}

#[test]
fn uncommitted_work_survives_a_return() -> Result<()> {
    let (setup, second) = conflicting_setup()?;
    sync(&setup.local_path, conflict_config())?;
    assert!(current_branch(&setup.local_path)?.starts_with(FALLBACK_BRANCH_PREFIX));

    // Nothing stands in the way any more, and there is work that nobody has committed.
    setup.commit_file_in(
        &second,
        "data.txt",
        "line1\nline2\nline3\n",
        "Take the change back",
    )?;
    setup.push_from(&second)?;
    write_file(
        &setup.local_path.join("data.txt"),
        b"line1\nLOCAL\nline3\nline4\n",
    )?;
    write_file(&setup.local_path.join("new.txt"), b"new\n")?;

    let repo = Repository::open(&setup.local_path)?;
    let mut worktree = Worktree::new(&repo);
    let synchronizer = detected(&setup.local_path, conflict_config());
    let (result, after) = worktree.run(synchronizer.sync(false));
    assert!(result.is_ok(), "{result:?}");

    assert_eq!(current_branch(&setup.local_path)?, "master");
    assert_eq!(after.config.branch_name, "master");
    setup.assert_file_content("data.txt", "line1\nLOCAL\nline3\nline4\n")?;
    setup.assert_file_content("new.txt", "new\n")?;
    assert!(repo.statuses(None)?.is_empty());
    setup.pull_in(&second)?;
    setup.assert_file_content_in(&second, "data.txt", "line1\nLOCAL\nline3\nline4\n")?;
    setup.assert_file_content_in(&second, "new.txt", "new\n")?;

    // It was committed before anything else was checked out.
    let position = |wanted: fn(&GitOp) -> bool| worktree.asked.iter().position(wanted).unwrap();
    let committed = position(|op| matches!(op, GitOp::Commit { .. }));
    assert!(committed < position(|op| matches!(op, GitOp::SetHead { .. })));
    assert!(committed < position(|op| matches!(op, GitOp::CheckoutHead)));
    Ok(())
}

#[test]
fn uncommitted_work_stays_where_no_return_is_possible() -> Result<()> {
    let (setup, _) = conflicting_setup()?;
    sync(&setup.local_path, conflict_config())?;
    let fallback_branch = current_branch(&setup.local_path)?;
    write_file(
        &setup.local_path.join("data.txt"),
        b"line1\nLOCAL AGAIN\nline3\n",
    )?;

    sync(&setup.local_path, conflict_config())?;

    assert_eq!(current_branch(&setup.local_path)?, fallback_branch);
    setup.assert_file_content("data.txt", "line1\nLOCAL AGAIN\nline3\n")?;
    let repo = Repository::open(&setup.local_path)?;
    assert!(repo.statuses(None)?.is_empty());
    Ok(())
}

#[test]
fn a_return_that_fails_on_the_way_ends_where_it_began() -> Result<()> {
    let (setup, _) = conflicting_setup()?;
    sync(&setup.local_path, conflict_config())?;
    let fallback_branch = current_branch(&setup.local_path)?;

    // Taken together, the commits agree with the target branch; one by one they do not.
    setup.commit_file("data.txt", "line1\nREMOTE\nline3\n", "Agree after all")?;
    setup.commit_file("extra.txt", "extra\n", "More work on the fallback branch")?;

    let (result, after) = resync(
        &setup.local_path,
        detected(&setup.local_path, conflict_config()),
    );
    assert!(result.is_ok(), "{result:?}");
    assert_eq!(current_branch(&setup.local_path)?, fallback_branch);
    assert_eq!(after.config.branch_name, fallback_branch);
    let repo = Repository::open(&setup.local_path)?;
    assert_eq!(repo.state(), git2::RepositoryState::Clean);

    // It is tried again the next time.
    assert!(after.fallback_state.last_checked_target_oid.is_none());
    let mut worktree = Worktree::new(&repo);
    let (result, _) = worktree.run(after.sync(false));
    assert!(result.is_ok(), "{result:?}");
    assert!(worktree
        .asked
        .iter()
        .any(|op| matches!(op, GitOp::StartRebase { .. })));
    assert_eq!(current_branch(&setup.local_path)?, fallback_branch);
    setup.assert_file_content("data.txt", "line1\nREMOTE\nline3\n")?;
    setup.assert_file_content("extra.txt", "extra\n")
}

#[test]
fn failing_pre_commit_hook_blocks_sync_when_skip_hooks_is_false() -> Result<()> {
    let setup = TestRepoSetup::new()?;
    setup.commit_file("tracked.txt", "v1\n", "initial")?;
    setup.push()?;
    write_file(&setup.local_path.join("tracked.txt"), b"v2\n")?;

    let repo = Repository::open(&setup.local_path)?;
    let mut worktree = Worktree::new(&repo);
    worktree.hook_output = Some("pre-commit failed from test");
    let synchronizer = detected(&setup.local_path, config("Hook behavior test"));
    let (result, _) = worktree.run(synchronizer.sync(false));

    assert!(
        matches!(result, Err(SyncError::HookRejected { .. })),
        "Expected hook rejection when skip_hooks=false, got: {result:?}"
    );
    Ok(())
}

#[test]
fn failing_pre_commit_hook_is_bypassed_when_skip_hooks_is_true() -> Result<()> {
    let setup = TestRepoSetup::new()?;
    setup.commit_file("tracked.txt", "v1\n", "initial")?;
    setup.push()?;
    let second_clone = setup.create_second_clone("second")?;
    write_file(&setup.local_path.join("tracked.txt"), b"v2\n")?;

    let repo = Repository::open(&setup.local_path)?;
    let mut worktree = Worktree::new(&repo);
    worktree.hook_output = Some("pre-commit failed from test");
    let synchronizer = detected(
        &setup.local_path,
        SyncConfig {
            skip_hooks: true,
            ..config("Hook behavior test")
        },
    );
    let (result, _) = worktree.run(synchronizer.sync(false));
    assert!(result.is_ok(), "{result:?}");

    setup.pull_in(&second_clone)?;
    setup.assert_file_content_in(&second_clone, "tracked.txt", "v2\n")
}

#[test]
fn commit_retries_with_fallback_identity_when_git_identity_missing() -> Result<()> {
    let temp = TempDir::new()?;
    let repo = Repository::init(temp.path())?;
    write_file(&temp.path().join("file.txt"), b"hello\n")?;
    let mut index = repo.index()?;
    index.add_path(Path::new("file.txt"))?;
    index.write()?;

    let expected_identity =
        CommandGitTransport::fallback_commit_identity(Some("ann".to_string()));
    let mut worktree = Worktree::new(&repo);
    worktree.nameless = true;
    let result = worktree.run(CommandGitTransport.commit("auto commit message", false));
    match result {
        Ok(outcome) => assert_eq!(outcome, CommitOutcome::Created),
        Err(e) => panic!("commit should succeed with fallback identity: {e:?}"),
    }

    let commit = repo.head()?.peel_to_commit()?;
    let author = commit.author();
    assert_eq!(
        (author.name().unwrap().to_string(), author.email().unwrap().to_string()),
        expected_identity
    );
    Ok(())
}

#[test]
fn a_check_asks_and_changes_nothing() -> Result<()> {
    let setup = TestRepoSetup::new()?;
    setup.commit_file("tracked.txt", "v1\n", "initial")?;
    setup.push()?;
    write_file(&setup.local_path.join("tracked.txt"), b"v2\n")?;
    let repo = Repository::open(&setup.local_path)?;
    let before = repo.head()?.target();

    let mut worktree = Worktree::new(&repo);
    let synchronizer = detected(&setup.local_path, config("Sync"));
    let (result, _) = worktree.run(InspectRun::start(synchronizer, true));
    assert!(result.is_ok(), "{result:?}");
    assert!(worktree.asked.iter().all(|op| matches!(
        op,
        GitOp::Head
            | GitOp::HeadDetached
            | GitOp::Operation
            | GitOp::Statuses { .. }
            | GitOp::BranchOid { .. }
            | GitOp::UpstreamOid { .. }
            | GitOp::AheadBehind { .. }
    )));
    assert_eq!(repo.head()?.target(), before);
    setup.assert_file_content("tracked.txt", "v2\n")
}

#[test]
fn a_detached_head_is_refused() -> Result<()> {
    let setup = TestRepoSetup::new()?;
    setup.commit_file("tracked.txt", "v1\n", "initial")?;
    setup.push()?;
    let repo = Repository::open(&setup.local_path)?;
    let head = repo.head()?.target().unwrap();
    repo.set_head_detached(head)?;

    let result = sync_with(&setup.local_path, config("Sync"));
    assert!(matches!(result, Err(SyncError::DetachedHead)), "{result:?}");
    Ok(())
}

#[test]
fn new_files_stay_untracked_where_they_are_not_synced() -> Result<()> {
    let setup = TestRepoSetup::new()?;
    setup.commit_file("tracked.txt", "v1\n", "initial")?;
    setup.push()?;
    write_file(&setup.local_path.join("tracked.txt"), b"v2\n")?;
    write_file(&setup.local_path.join("new.txt"), b"new\n")?;

    sync(
        &setup.local_path,
        SyncConfig {
            sync_new_files: false,
            ..config("Sync")
        },
    )?;

    let second_clone = setup.create_second_clone("second")?;
    setup.assert_file_content_in(&second_clone, "tracked.txt", "v2\n")?;
    assert!(!second_clone.join("new.txt").exists());
    Ok(())
}

#[test]
fn a_branch_without_upstream_is_not_published() -> Result<()> {
    let setup = TestRepoSetup::new()?;
    setup.commit_file("tracked.txt", "v1\n", "initial")?;
    setup.push()?;
    // The remote has a branch of the same name, but nothing ties the two together.
    checkout_new_branch(&setup.local_path, "loose", "HEAD")?;
    push_branch(&setup.local_path, "loose")?;

    let repo = Repository::open(&setup.local_path)?;
    let synchronizer = detected(&setup.local_path, config("Sync"));
    let state = Worktree::new(&repo).run(synchronizer.get_sync_state());
    assert!(matches!(state, Ok(SyncState::NoUpstream)), "{state:?}");
    let result = sync_with(&setup.local_path, config("Sync"));
    assert!(
        matches!(result, Err(SyncError::NoRemoteConfigured { ref branch }) if branch == "loose"),
        "{result:?}"
    );
    Ok(())
}

#[test]
fn the_default_branch_is_found() -> Result<()> {
    let setup = TestRepoSetup::new()?;
    setup.commit_file("tracked.txt", "v1\n", "initial")?;
    setup.push()?;
    let second = setup.create_second_clone("second")?;

    let repo = Repository::open(&second)?;
    let synchronizer = detected(&second, config("Sync"));
    let branch = Worktree::new(&repo).run(synchronizer.detect_default_branch());
    assert!(matches!(branch, Ok(ref branch) if branch == "master"), "{branch:?}");
    Ok(())
}

#[test]
fn a_place_without_repository_is_reported() {
    let result = RepositorySynchronizer::new("/nowhere", SyncConfig::default(), false);
    assert!(matches!(
        result,
        Err(SyncError::NotARepository { ref path }) if path == "/nowhere"
    ));
    let result =
        RepositorySynchronizer::new_with_detected_branch("/nowhere", SyncConfig::default(), None);
    assert!(matches!(result, Err(SyncError::NotARepository { .. })));
}

/// A repository that is watched, by a clock of its own.
struct Watching {
    watch: WatchLoop,
    repo_path: PathBuf,
    now_ms: u128,
    next_tick: u128,
    next_period: u128,
}

impl Watching {
    fn new(repo_path: &Path, config: SyncConfig, watch: WatchConfig, period: Option<u64>) -> Self {
        let manager = watch_with_periodic_sync(repo_path.to_str().unwrap(), config, watch, period);
        Watching {
            watch: WatchLoop::new_at(manager, 0),
            repo_path: repo_path.to_path_buf(),
            now_ms: 0,
            next_tick: 0,
            next_period: u128::from(period.unwrap_or(0)),
        }
    }

    fn moment(&self) -> Moment {
        Moment {
            now: self.now_ms * 1_000_000,
            wall: WallTime {
                unix_secs: 1_000_000 + (self.now_ms / 1000) as i64,
                nanos: 0,
            },
            wall_offset_secs: Some(0),
            utc_offset_secs: Some(0),
        }
    }

    fn happen(&mut self, event: WatchEvent) {
        let moment = self.moment();
        let actions = self.watch.handle(event, moment);
        for action in actions {
            if let WatchAction::Sync = action {
                let config = self.watch.manager.sync_config.copy();
                let result = sync_with(&self.repo_path, config);
                self.happen(WatchEvent::SyncDone(result));
            }
        }
    }

    /// Writes a file, which is noticed where it is watched.
    fn write(&mut self, name: &str, contents: &str) -> Result<()> {
        let file = self.repo_path.join(name);
        write_file(&file, contents.as_bytes())?;
        let changed = file.to_str().unwrap().to_string();
        let watched = self
            .watch
            .manager
            .watch_roots()
            .iter()
            .any(|root| path::strip_prefix(&changed, root).is_some());
        if !watched {
            return Ok(());
        }
        let repo_path = self.repo_path.to_str().unwrap();
        let repo = Repository::open(repo_path)?;
        let event = FileEvent {
            kind: ChangeKind::Modify,
            paths: vec![changed],
        };
        let ignored = event
            .paths
            .iter()
            .map(|p| match path::strip_prefix(p, repo_path) {
                Some(inside) => repo.status_should_ignore(Path::new(&inside)).unwrap_or(false),
                None => true,
            })
            .collect();
        if EventFilter::should_process_event(repo_path, &event, &Some(ignored)) {
            self.happen(WatchEvent::File(event.kind));
        }
        Ok(())
    }

    fn sleep(&mut self, ms: u128) {
        let until = self.now_ms + ms;
        let tick = u128::from(self.watch.manager.tick_ms());
        while self.now_ms < until {
            self.now_ms += 10;
            if self.now_ms >= self.next_tick {
                self.next_tick = self.now_ms + tick;
                self.happen(WatchEvent::Tick(None));
            }
            if let Some(period) = self.watch.manager.watch_config.periodic_sync_interval_ms {
                if self.now_ms >= self.next_period {
                    self.next_period = self.now_ms + u128::from(period);
                    self.happen(WatchEvent::Periodic);
                }
            }
        }
    }
}

fn quick_watch() -> WatchConfig {
    WatchConfig {
        debounce_ms: 100,
        min_interval_ms: 200,
        sync_on_start: false,
        dry_run: false,
        ..Default::default()
    }
}

#[test]
fn file_changes_trigger_sync() -> Result<()> {
    let setup = TestRepoSetup::new()?;
    setup.commit_file("README.md", "# Initial\n", "Initial commit")?;
    setup.push()?;
    let second_clone = setup.create_second_clone("second")?;

    let mut watching = Watching::new(
        &setup.local_path,
        config("Auto-sync: {hostname} at {timestamp}"),
        quick_watch(),
        None,
    );
    watching.sleep(500);
    watching.write("newfile.txt", "Content added during watch\n")?;
    watching.sleep(2000);

    setup.pull_in(&second_clone)?;
    setup.assert_file_content_in(&second_clone, "newfile.txt", "Content added during watch\n")
}

#[test]
fn periodic_sync_works() -> Result<()> {
    let setup = TestRepoSetup::new()?;
    setup.commit_file("README.md", "# Periodic Sync\n", "Initial")?;
    setup.push()?;
    let second_clone = setup.create_second_clone("second")?;

    let mut watching = Watching::new(
        &setup.local_path,
        config("Periodic sync: {hostname} at {timestamp}"),
        quick_watch(),
        Some(1000),
    );
    watching.sleep(500);
    setup.commit_file_in(
        &second_clone,
        "remote_change.txt",
        "From remote\n",
        "Remote change",
    )?;
    setup.push_from(&second_clone)?;
    watching.sleep(1500);

    setup.assert_file_content("remote_change.txt", "From remote\n")
}

#[test]
fn gitignored_files_not_synced() -> Result<()> {
    let setup = TestRepoSetup::new()?;
    setup.commit_file(".gitignore", "*.log\nbuild/\nsecret*\n", "Add gitignore")?;
    setup.push()?;
    let second_clone = setup.create_second_clone("second")?;

    let mut watching = Watching::new(
        &setup.local_path,
        config("Auto-sync: {hostname} at {timestamp}"),
        quick_watch(),
        None,
    );
    watching.sleep(500);
    make_directory(&setup.local_path, "build")?;
    watching.write("debug.log", "Log content\n")?;
    watching.write("secret_key.txt", "Secret\n")?;
    watching.write("build/output.txt", "Build output\n")?;
    assert!(
        !watching.watch.scheduler.pending_sync,
        "Ignored files should not be noticed"
    );
    watching.write("normal.txt", "Normal file\n")?;
    watching.sleep(2000);

    setup.pull_in(&second_clone)?;
    setup.assert_file_content_in(&second_clone, "normal.txt", "Normal file\n")?;
    assert!(
        !second_clone.join("debug.log").exists(),
        "Log file should not be synced"
    );
    assert!(
        !second_clone.join("secret_key.txt").exists(),
        "Secret file should not be synced"
    );
    assert!(
        !second_clone.join("build").exists(),
        "Build directory should not be synced"
    );
    Ok(())
}

#[test]
fn sync_stuck_after_error_during_watch() -> Result<()> {
    let setup = TestRepoSetup::new()?;
    setup.commit_file("README.md", "# Initial\n", "Initial commit")?;
    setup.push()?;
    let second_clone = setup.create_second_clone("second")?;
    let repo = Repository::open(&setup.local_path)?;
    repo.set_head_detached(repo.head()?.target().unwrap())?;

    let mut watching = Watching::new(
        &setup.local_path,
        config("Auto-sync: {hostname} at {timestamp}"),
        quick_watch(),
        None,
    );
    watching.sleep(300);
    watching.write("deadlock.txt", "content\n")?;
    watching.sleep(600);
    assert_eq!(
        watching.watch.manager.progress.last_sync_error.as_deref(),
        Some("Not on a branch (detached HEAD)")
    );

    repo.set_head("refs/heads/master")?;
    watching.write("deadlock.txt", "content2\n")?;

    let mut synced = false;
    for _ in 0..30 {
        watching.sleep(200);
        setup.pull_in(&second_clone)?;
        if second_clone.join("deadlock.txt").exists() {
            synced = true;
            break;
        }
    }
    assert!(
        synced,
        "File was not synced after repairing repo state; likely stuck syncing"
    );
    Ok(())
}

#[test]
fn continuous_changes_starve_debounce() -> Result<()> {
    let setup = TestRepoSetup::new()?;
    setup.commit_file("README.md", "# Initial\n", "Initial commit")?;
    setup.push()?;
    let second_clone = setup.create_second_clone("second")?;

    let mut watching = Watching::new(
        &setup.local_path,
        config("Auto-sync: {hostname} at {timestamp}"),
        quick_watch(),
        None,
    );
    watching.sleep(500);
    let start = watching.now_ms;
    let mut seen_at = None;
    while watching.now_ms - start < 3000 {
        watching.write("burst.txt", &format!("tick at {}\n", watching.now_ms))?;
        watching.sleep(40);
        setup.pull_in(&second_clone)?;
        if seen_at.is_none() && second_clone.join("burst.txt").exists() {
            seen_at = Some(watching.now_ms - start);
        }
    }
    assert!(
        seen_at.is_some(),
        "burst.txt was not synced during continuous changes"
    );
    Ok(())
}

#[test]
fn scoped_watch_ignores_events_outside_selected_paths() -> Result<()> {
    let setup = TestRepoSetup::new()?;
    setup.commit_file("README.md", "# Initial\n", "Initial commit")?;
    make_directory(&setup.local_path, "sessions")?;
    setup.commit_file("sessions/.keep", "", "Add sessions directory")?;
    setup.push()?;
    let second_clone = setup.create_second_clone("second")?;

    let mut watching = Watching::new(
        &setup.local_path,
        config("Scoped watch sync"),
        WatchConfig {
            watch_paths: vec!["sessions".to_string()],
            ..quick_watch()
        },
        None,
    );
    watching.sleep(500);
    watching.write("outside.txt", "outside\n")?;
    watching.sleep(800);
    setup.pull_in(&second_clone)?;
    assert!(
        !second_clone.join("outside.txt").exists(),
        "an event outside the configured watch paths triggered a sync"
    );

    watching.write("sessions/inside.txt", "inside\n")?;
    watching.sleep(10_000);
    setup.pull_in(&second_clone)?;
    assert!(
        second_clone.join("sessions/inside.txt").exists(),
        "sessions/inside.txt was not synced"
    );
    Ok(())
}
