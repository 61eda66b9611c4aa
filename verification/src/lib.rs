//! Keeps git repositories in sync with their remotes.

pub mod cli;
pub mod clock;
pub mod config;
pub mod directories;
pub mod error;
pub mod home;
pub mod host;
pub mod path;
pub mod path_laws;
pub mod path_set;
pub mod plan;
pub mod runtime_state;
pub mod setup;
pub mod sync;
pub mod text;
pub mod text_laws;
pub mod tray;
pub mod watch;

pub use crate::config::{Config, ConfigLoader, DefaultConfig, RepositoryConfig};
pub use crate::error::SyncError;
pub use crate::sync::create::FALLBACK_BRANCH_PREFIX;
pub use crate::sync::relation::SyncState;
pub use crate::sync::state::RepositoryState;
pub use crate::sync::unhandled::UnhandledFileState;
pub use crate::sync::{FallbackState, RepositorySynchronizer, SyncConfig};
pub use crate::watch::{watch_with_periodic_sync, WatchConfig, WatchManager};
