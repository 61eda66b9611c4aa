# git-sync-rs

Keeps git repositories in sync with their remotes: commits what changes, fetches, pushes, moves
branches forward or rebases them, and watches repositories so that this happens by itself.

The library is written and proved in Verus.

- `src/sync/` holds the procedures of a synchronization. A procedure never touches a repository. It
  asks for one git operation at a time and is resumed with the reply (`step.rs`). What it does is
  stated by its script, a function from the replies received so far to what comes next. Each
  executable procedure is proved to follow its script, for every reply. `laws.rs` states what holds
  of every synchronization, whatever git replies; `replies.rs` says which replies a script uses.
- `src/watch/` decides when a watched repository is synchronized (`scheduler.rs`), which changes of
  files count (`filter.rs`), and what the watching loop does about each thing that happens
  (`control.rs`).
- `src/tray/` is what the indicator in the system tray shows and offers.
- `src/config.rs`, `src/cli.rs`, `src/plan.rs`, `src/setup.rs` and `src/runtime_state.rs` are
  configuration, the command line, what a run comes to, cloning, and the state that is kept from
  one run to the next.
- `src/clock.rs`, `src/host.rs`, `src/home.rs` and `src/directories.rs` ask the machine for what it
  knows. Beside each function that asks stands one that takes the answer and says exactly what
  comes of it.
- `src/text.rs`, `src/path.rs` and `src/path_set.rs` are what the rest is made of.

The few functions that call outside crates are marked `external_body`; the comment above each says
what is claimed of the call.

`app/` is the program around the library: it performs the operations with libgit2 and the `git`
command, watches files, reads and writes settings, and shows the indicator.

`tests/` runs the procedures on scripted replies and on real repositories.
