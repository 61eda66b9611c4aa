//! What the indicator shows of the repositories.

use crate::clock::{formatted_time, wall_time, written_time, LocalTime, WallTime};
use crate::path;
use crate::path_laws::{
    directories_are_above_what_is_in_them, fit_for_a_name, slashes_and_dots_make_no_difference,
};
use crate::text;
use crate::text::option_view;
use vstd::prelude::*;
use vstd::string::*;

verus! {

/// How a repository is doing. The parameter is the representation of texts.
#[derive(Debug, Clone, PartialEq, Eq)]
pub enum TrayStatus<S = String> {
    Starting,
    Idle,
    Syncing,
    Error(S),
}

impl View for TrayStatus {
    type V = TrayStatus<Seq<char>>;

    open spec fn view(&self) -> TrayStatus<Seq<char>> {
        match self {
            TrayStatus::Starting => TrayStatus::Starting,
            TrayStatus::Idle => TrayStatus::Idle,
            TrayStatus::Syncing => TrayStatus::Syncing,
            TrayStatus::Error(message) => TrayStatus::Error(message@),
        }
    }
}

impl TrayStatus {
    /// A status that says the same.
    pub fn copy(&self) -> (copy: TrayStatus)
        ensures
            copy == self,
    {
        match self {
            TrayStatus::Starting => TrayStatus::Starting,
            TrayStatus::Idle => TrayStatus::Idle,
            TrayStatus::Syncing => TrayStatus::Syncing,
            TrayStatus::Error(message) => TrayStatus::Error(message.clone()),
        }
    }

    /// Whether two statuses say the same.
    pub fn same(&self, other: &TrayStatus) -> (same: bool)
        ensures
            same == (self@ == other@),
    {
        match (self, other) {
            (TrayStatus::Starting, TrayStatus::Starting) => true,
            (TrayStatus::Idle, TrayStatus::Idle) => true,
            (TrayStatus::Syncing, TrayStatus::Syncing) => true,
            (TrayStatus::Error(a), TrayStatus::Error(b)) => text::same_text(
                a.as_str(),
                b.as_str(),
            ),
            _ => false,
        }
    }
}

/// What the user asks for in the tray. The parameter is the representation of texts.
#[derive(Debug, Clone)]
pub enum TrayCommand<S = String> {
    SyncNow,
    Suspend,
    Resume,
    SyncAll,
    SuspendAll,
    ResumeAll,
    SyncRepository(S),
    SuspendRepository(S),
    ResumeRepository(S),
    Quit,
    /// Start the indicator anew
    Respawn { reason: S },
}

/// What the indicator shows of one repository. The parameter is the representation of texts.
#[derive(Debug, Clone, PartialEq, Eq)]
pub struct TrayState<S = String> {
    pub repo_path: S,
    pub display_name: Option<S>,
    pub status: TrayStatus<S>,
    pub last_sync: Option<LocalTime>,
    pub last_error: Option<S>,
    pub paused: bool,
}

impl View for TrayState {
    type V = TrayState<Seq<char>>;

    open spec fn view(&self) -> TrayState<Seq<char>> {
        TrayState {
            repo_path: self.repo_path@,
            display_name: option_view(self.display_name),
            status: self.status@,
            last_sync: self.last_sync,
            last_error: option_view(self.last_error),
            paused: self.paused,
        }
    }
}

/// Whether the time of the last synchronization is one that can be written.
pub open spec fn valid<S>(state: TrayState<S>) -> bool {
    state.last_sync matches Some(t) ==> t.wf()
}

/// The text for a status.
pub open spec fn status_words(state: TrayState<Seq<char>>) -> Seq<char> {
    if state.paused {
        "Suspended"@
    } else {
        match state.status {
            TrayStatus::Starting => "Starting..."@,
            TrayStatus::Idle => "Idle"@,
            TrayStatus::Syncing => "Syncing..."@,
            TrayStatus::Error(message) => "Error: "@ + message,
        }
    }
}

/// The whole seconds from `then` to `now`, rounded towards zero.
pub open spec fn elapsed(now: WallTime, then: LocalTime) -> int {
    let seconds = now.unix_secs - then.unix_secs;
    if seconds < 0 && now.nanos > 0 {
        seconds + 1
    } else {
        seconds
    }
}

/// How long ago something was, in the largest unit of which there is one.
pub open spec fn age(seconds: int) -> Seq<char> {
    if seconds < 0 {
        "in the future"@
    } else if seconds < 60 {
        text::decimal(seconds as nat) + "s ago"@
    } else if seconds < 3600 {
        text::decimal((seconds / 60) as nat) + "m ago"@
    } else if seconds < 86400 {
        text::decimal((seconds / 3600) as nat) + "h ago"@
    } else {
        text::decimal((seconds / 86400) as nat) + "d ago"@
    }
}

/// The text for the time of the last synchronization.
pub open spec fn last_sync_words(last_sync: Option<LocalTime>, now: WallTime) -> Seq<char> {
    match last_sync {
        Some(t) => "Last sync: "@ + written_time(t) + " ("@ + age(elapsed(now, t)) + ")"@,
        None => "Last sync: never"@,
    }
}

/// The name under which a repository is shown: the one it was given, else the last component of
/// its path, else its path.
pub open spec fn shown_name(state: TrayState<Seq<char>>) -> Seq<char> {
    match state.display_name {
        Some(name) => name,
        None => match path::name_of(state.repo_path) {
            Some(name) => name,
            None => state.repo_path,
        },
    }
}

impl TrayState {
    /// The state of a repository that is about to be watched.
    pub fn new(repo_path: String) -> (state: TrayState)
        ensures
            state@ == (TrayState {
                repo_path: repo_path@,
                display_name: None,
                status: TrayStatus::Starting,
                last_sync: None,
                last_error: None,
                paused: false,
            }),
            valid(state),
    {
        TrayState {
            repo_path,
            display_name: None,
            status: TrayStatus::Starting,
            last_sync: None,
            last_error: None,
            paused: false,
        }
    }

    /// A state that says the same.
    pub fn copy(&self) -> (copy: TrayState)
        ensures
            copy == self,
    {
        TrayState {
            repo_path: self.repo_path.clone(),
            display_name: match &self.display_name {
                Some(name) => Some(name.clone()),
                None => None,
            },
            status: self.status.copy(),
            last_sync: self.last_sync,
            last_error: match &self.last_error {
                Some(error) => Some(error.clone()),
                None => None,
            },
            paused: self.paused,
        }
    }

    /// The text for the status.
    pub fn status_text(&self) -> (words: String)
        ensures
            words@ == status_words(self@),
    {
        if self.paused {
            return "Suspended".to_string();
        }
        match &self.status {
            TrayStatus::Starting => "Starting...".to_string(),
            TrayStatus::Idle => "Idle".to_string(),
            TrayStatus::Syncing => "Syncing...".to_string(),
            TrayStatus::Error(message) => "Error: ".to_string().concat(message.as_str()),
        }
    }

    /// The text for the time of the last synchronization, now.
    pub fn last_sync_text(&self) -> (words: String)
        requires
            valid(*self),
        ensures
            exists|now: WallTime| words@ == #[trigger] last_sync_words(self.last_sync, now),
    {
        self.last_sync_text_at(wall_time())
    }

    /// The text for the time of the last synchronization, at the given time.
    pub fn last_sync_text_at(&self, now: WallTime) -> (words: String)
        requires
            valid(*self),
            now.plausible(),
        ensures
            words@ == last_sync_words(self.last_sync, now),
    {
        match self.last_sync {
            Some(t) => {
                let literal: String = t.literal();
                let relative: String = Self::relative_time_text(t, now);
                "Last sync: ".to_string().concat(literal.as_str()).concat(" (").concat(
                    relative.as_str(),
                ).concat(")")
            },
            None => "Last sync: never".to_string(),
        }
    }

    /// How long ago a synchronization was.
    pub fn relative_time_text(sync_time: LocalTime, now: WallTime) -> (words: String)
        requires
            sync_time.wf(),
            now.plausible(),
        ensures
            words@ == age(elapsed(now, sync_time)),
    {
        let mut seconds: i64 = now.unix_secs - sync_time.unix_secs;
        if seconds < 0 && now.nanos > 0 {
            seconds = seconds + 1;
        }
        if seconds < 0 {
            return "in the future".to_string();
        }
        let seconds: u64 = seconds as u64;
        if seconds < 60 {
            return text::number(seconds).concat("s ago");
        }
        if seconds < 3600 {
            return text::number(seconds / 60).concat("m ago");
        }
        if seconds < 86400 {
            return text::number(seconds / 3600).concat("h ago");
        }
        text::number(seconds / 86400).concat("d ago")
    }

    /// The name under which the repository is shown.
    pub fn repo_name(&self) -> (name: String)
        ensures
            name@ == shown_name(self@),
    {
        if let Some(name) = &self.display_name {
            return name.clone();
        }
        match path::file_name(self.repo_path.as_str()) {
            Some(name) => name,
            None => self.repo_path.clone(),
        }
    }
}

/// What the indicator shows of several repositories, in the order of their paths.
#[derive(Debug, Clone)]
pub struct AggregateTrayState {
    pub repositories: Vec<TrayState>,
}

/// The repositories as they are shown.
pub open spec fn shown(repositories: Seq<TrayState>) -> Seq<TrayState<Seq<char>>> {
    repositories.map_values(|s: TrayState| s@)
}

/// Whether paths come in order, no place twice.
pub open spec fn in_order(states: Seq<TrayState<Seq<char>>>) -> bool {
    forall|i: int, j: int|
        0 <= i < j < states.len() ==> path::path_before(
            #[trigger] states[i].repo_path,
            #[trigger] states[j].repo_path,
        )
}

/// Whether `state` is among the states.
pub open spec fn among(
    states: Seq<TrayState<Seq<char>>>,
    state: TrayState<Seq<char>>,
) -> bool {
    states.contains(state)
}

/// The first error among the states.
pub open spec fn first_error(states: Seq<TrayState<Seq<char>>>) -> Option<Seq<char>>
    decreases states.len(),
{
    if states.len() == 0 {
        None
    } else {
        match states[0].status {
            TrayStatus::Error(message) => Some(message),
            _ => first_error(states.skip(1)),
        }
    }
}

/// Whether any of the states has the given status.
pub open spec fn any_is(states: Seq<TrayState<Seq<char>>>, status: TrayStatus<Seq<char>>) -> bool {
    exists|i: int| 0 <= i < states.len() && #[trigger] states[i].status == status
}

/// One status for all: an error before anything else, then a synchronization, then a start.
pub open spec fn status_of_all(states: Seq<TrayState<Seq<char>>>) -> TrayStatus<Seq<char>> {
    match first_error(states) {
        Some(message) => TrayStatus::Error(message),
        None => if any_is(states, TrayStatus::Syncing) {
            TrayStatus::Syncing
        } else if any_is(states, TrayStatus::Starting) {
            TrayStatus::Starting
        } else {
            TrayStatus::Idle
        },
    }
}

/// What repositories are counted by.
pub enum Tally {
    Idle,
    Syncing,
    Starting,
    Suspended,
    Failed,
}

/// Whether a state is counted; one that is suspended counts as neither idle nor starting.
pub open spec fn counted(state: TrayState<Seq<char>>, tally: Tally) -> bool {
    match tally {
        Tally::Idle => state.status is Idle && !state.paused,
        Tally::Syncing => state.status is Syncing,
        Tally::Starting => state.status is Starting && !state.paused,
        Tally::Suspended => state.paused,
        Tally::Failed => state.status is Error,
    }
}

/// How many of the states are counted.
pub open spec fn count(states: Seq<TrayState<Seq<char>>>, tally: Tally) -> nat
    decreases states.len(),
{
    if states.len() == 0 {
        0
    } else {
        let before = count(states.drop_last(), tally);
        if counted(states.last(), tally) {
            before + 1
        } else {
            before
        }
    }
}

/// How many repositories are shown, and how many in each status.
pub open spec fn summary_words(states: Seq<TrayState<Seq<char>>>) -> Seq<char> {
    text::decimal(states.len()) + " repositories: "@ + text::decimal(count(states, Tally::Idle))
        + " idle, "@ + text::decimal(count(states, Tally::Syncing)) + " syncing, "@ + text::decimal(
        count(states, Tally::Starting),
    ) + " starting, "@ + text::decimal(count(states, Tally::Suspended)) + " suspended, "@
        + text::decimal(count(states, Tally::Failed)) + " error(s)"@
}

/// An optional text as it is written for debugging.
pub open spec fn debug_option(t: Option<Seq<char>>) -> Seq<char> {
    match t {
        Some(t) => "Some("@ + text::debug_quoted(t) + ")"@,
        None => "None"@,
    }
}

/// All that is shown of one repository.
pub open spec fn signature_of(state: TrayState<Seq<char>>, now: WallTime) -> Seq<char> {
    shown_name(state) + "\u{1f}"@ + status_words(state) + "\u{1f}"@ + last_sync_words(
        state.last_sync,
        now,
    ) + "\u{1f}"@ + debug_option(state.last_error)
}

/// All that is shown of all repositories.
pub open spec fn signature_of_all(states: Seq<TrayState<Seq<char>>>, now: WallTime) -> Seq<char> {
    text::joined(
        states.map_values(|s: TrayState<Seq<char>>| signature_of(s, now)),
        "\u{1e}"@,
    )
}

/// An optional text as it is written for debugging.
fn write_option(t: &Option<String>) -> (words: String)
    ensures
        words@ == debug_option(option_view(*t)),
{
    match t {
        Some(t) => "Some(".to_string().concat(text::quote(t.as_str()).as_str()).concat(")"),
        None => "None".to_string(),
    }
}

impl Default for AggregateTrayState {
    fn default() -> (state: Self)
        ensures
            state.wf(),
            shown(state.repositories@).len() == 0,
    {
        AggregateTrayState { repositories: Vec::new() }
    }
}

impl AggregateTrayState {
    /// What holds of the state at all times.
    pub open spec fn wf(self) -> bool {
        &&& in_order(shown(self.repositories@))
        &&& forall|i: int| 0 <= i < self.repositories@.len() ==> valid(#[trigger] self.repositories@[i])
    }

    /// The state of one repository.
    pub fn single(state: TrayState) -> (all: AggregateTrayState)
        requires
            valid(state),
        ensures
            all.wf(),
            shown(all.repositories@) == seq![state@],
    {
        let mut repositories: Vec<TrayState> = Vec::new();
        repositories.push(state);
        assert(shown(repositories@) =~= seq![state@]);
        AggregateTrayState { repositories }
    }

    /// Adds the state of a repository, or replaces it where there is one.
    pub fn update_repository(&mut self, state: TrayState)
        requires
            old(self).wf(),
            valid(state),
        ensures
            final(self).wf(),
            forall|s: TrayState<Seq<char>>|
                #![trigger among(shown(final(self).repositories@), s)]
                among(shown(final(self).repositories@), s) <==> s == state@ || (among(
                    shown(old(self).repositories@),
                    s,
                ) && !path::same_place(s.repo_path, state@.repo_path)),
    {
        let ghost before = shown(self.repositories@);
        let mut i: usize = 0;
        while i < self.repositories.len() && path::is_before(
            self.repositories[i].repo_path.as_str(),
            state.repo_path.as_str(),
        )
            invariant
                i <= self.repositories@.len(),
                self.wf(),
                *self == *old(self),
                before == shown(self.repositories@),
                forall|j: int|
                    0 <= j < i ==> path::path_before(
                        #[trigger] before[j].repo_path,
                        state@.repo_path,
                    ),
            decreases self.repositories@.len() - i,
        {
            assert(before[i as int].repo_path == self.repositories@[i as int].repo_path@);
            i = i + 1;
        }
        proof {
            if i < before.len() {
                assert(before[i as int].repo_path == self.repositories@[i as int].repo_path@);
            }
            lemma_after(before, i as int, state@.repo_path);
        }
        if i < self.repositories.len() && path::same_path(
            self.repositories[i].repo_path.as_str(),
            state.repo_path.as_str(),
        ) {
            let ghost new = state@;
            self.repositories.set(i, state);
            assert(shown(self.repositories@) =~= before.update(i as int, new));
            proof {
                lemma_replaced(before, i as int, new);
            }
        } else {
            let ghost new = state@;
            self.repositories.insert(i, state);
            assert(shown(self.repositories@) =~= before.insert(i as int, new));
            proof {
                lemma_inserted(before, i as int, new);
            }
        }
    }

    /// One status for all repositories.
    pub fn aggregate_status(&self) -> (status: TrayStatus)
        ensures
            status@ == status_of_all(shown(self.repositories@)),
    {
        let ghost all = shown(self.repositories@);
        let mut syncing: bool = false;
        let mut starting: bool = false;
        let mut i: usize = 0;
        assert(all.skip(0) =~= all);
        while i < self.repositories.len()
            invariant
                i <= self.repositories@.len(),
                all == shown(self.repositories@),
                first_error(all) == first_error(all.skip(i as int)),
                syncing == exists|j: int|
                    0 <= j < i && #[trigger] all[j].status == TrayStatus::<Seq<char>>::Syncing,
                starting == exists|j: int|
                    0 <= j < i && #[trigger] all[j].status == TrayStatus::<Seq<char>>::Starting,
            decreases self.repositories@.len() - i,
        {
            assert(all.skip(i as int).skip(1) =~= all.skip(i + 1));
            assert(all[i as int] == self.repositories@[i as int]@);
            match &self.repositories[i].status {
                TrayStatus::Error(message) => {
                    return TrayStatus::Error(message.clone());
                },
                TrayStatus::Syncing => {
                    syncing = true;
                },
                TrayStatus::Starting => {
                    starting = true;
                },
                TrayStatus::Idle => {},
            }
            i = i + 1;
        }
        if syncing {
            TrayStatus::Syncing
        } else if starting {
            TrayStatus::Starting
        } else {
            TrayStatus::Idle
        }
    }

    /// Whether any repository is suspended.
    pub fn any_paused(&self) -> (any: bool)
        ensures
            any == exists|i: int|
                0 <= i < self.repositories@.len() && #[trigger] self.repositories@[i].paused,
    {
        let mut i: usize = 0;
        while i < self.repositories.len()
            invariant
                i <= self.repositories@.len(),
                forall|j: int| 0 <= j < i ==> !#[trigger] self.repositories@[j].paused,
            decreases self.repositories@.len() - i,
        {
            if self.repositories[i].paused {
                return true;
            }
            i = i + 1;
        }
        false
    }

    /// How many repositories there are, and how many in each status.
    pub fn status_summary(&self) -> (words: String)
        ensures
            words@ == summary_words(shown(self.repositories@)),
    {
        let ghost all = shown(self.repositories@);
        let total: usize = self.repositories.len();
        let mut idle: u64 = 0;
        let mut syncing: u64 = 0;
        let mut starting: u64 = 0;
        let mut suspended: u64 = 0;
        let mut errors: u64 = 0;
        let mut i: usize = 0;
        while i < total
            invariant
                i <= total == self.repositories@.len(),
                all == shown(self.repositories@),
                idle == count(all.take(i as int), Tally::Idle) <= i,
                syncing == count(all.take(i as int), Tally::Syncing) <= i,
                starting == count(all.take(i as int), Tally::Starting) <= i,
                suspended == count(all.take(i as int), Tally::Suspended) <= i,
                errors == count(all.take(i as int), Tally::Failed) <= i,
            decreases total - i,
        {
            let state: &TrayState = &self.repositories[i];
            assert(all.take(i + 1).drop_last() =~= all.take(i as int));
            assert(all.take(i + 1).last() == state@);
            if state.paused {
                suspended = suspended + 1;
            }
            match &state.status {
                TrayStatus::Starting => {
                    if !state.paused {
                        starting = starting + 1;
                    }
                },
                TrayStatus::Idle => {
                    if !state.paused {
                        idle = idle + 1;
                    }
                },
                TrayStatus::Syncing => {
                    syncing = syncing + 1;
                },
                TrayStatus::Error(_) => {
                    errors = errors + 1;
                },
            }
            i = i + 1;
        }
        assert(all.take(total as int) =~= all);
        text::number(total as u64).concat(" repositories: ").concat(
            text::number(idle).as_str(),
        ).concat(" idle, ").concat(text::number(syncing).as_str()).concat(" syncing, ").concat(
            text::number(starting).as_str(),
        ).concat(" starting, ").concat(text::number(suspended).as_str()).concat(
            " suspended, ",
        ).concat(text::number(errors).as_str()).concat(" error(s)")
    }

    /// All that is shown of all repositories, now.
    pub fn render_signature(&self) -> (signature: String)
        requires
            self.wf(),
        ensures
            exists|now: WallTime|
                signature@ == #[trigger] signature_of_all(shown(self.repositories@), now),
    {
        self.render_signature_at(wall_time())
    }

    /// All that is shown of all repositories, at the given time.
    pub fn render_signature_at(&self, now: WallTime) -> (signature: String)
        requires
            self.wf(),
            now.plausible(),
        ensures
            signature@ == signature_of_all(shown(self.repositories@), now),
    {
        let ghost all = shown(self.repositories@);
        let ghost wanted = all.map_values(|s: TrayState<Seq<char>>| signature_of(s, now));
        let mut parts: Vec<String> = Vec::new();
        let mut i: usize = 0;
        while i < self.repositories.len()
            invariant
                i <= self.repositories@.len(),
                self.wf(),
                now.plausible(),
                all == shown(self.repositories@),
                wanted == all.map_values(|s: TrayState<Seq<char>>| signature_of(s, now)),
                text::views(parts@) == wanted.take(i as int),
            decreases self.repositories@.len() - i,
        {
            let state: &TrayState = &self.repositories[i];
            let part: String = state.repo_name().concat("\u{1f}").concat(
                state.status_text().as_str(),
            ).concat("\u{1f}").concat(state.last_sync_text_at(now).as_str()).concat(
                "\u{1f}",
            ).concat(write_option(&state.last_error).as_str());
            let ghost before = parts@;
            parts.push(part);
            assert(wanted[i as int] == part@);
            assert(text::views(parts@) =~= text::views(before).push(part@));
            assert(text::views(parts@) =~= wanted.take(i + 1));
            i = i + 1;
        }
        assert(wanted.take(wanted.len() as int) =~= wanted);
        text::join(&parts, "\u{1e}")
    }
}

/// Everything from position `i` on comes after a path, where what is at `i` does not come before
/// it.
proof fn lemma_after(states: Seq<TrayState<Seq<char>>>, i: int, p: Seq<char>)
    requires
        in_order(states),
        0 <= i <= states.len(),
        i < states.len() ==> !path::path_before(states[i].repo_path, p),
    ensures
        forall|j: int|
            i < j < states.len() ==> path::path_before(p, #[trigger] states[j].repo_path),
        i < states.len() && !path::same_place(states[i].repo_path, p) ==> path::path_before(
            p,
            states[i].repo_path,
        ),
{
    if i < states.len() {
        path::paths_are_ordered(states[i].repo_path, p, p);
        assert forall|j: int| i < j < states.len() implies path::path_before(
            p,
            #[trigger] states[j].repo_path,
        ) by {
            path::paths_are_ordered(p, states[i].repo_path, states[j].repo_path);
            assert(path::path_before(states[i].repo_path, states[j].repo_path));
        }
    }
}

proof fn lemma_replaced(
    states: Seq<TrayState<Seq<char>>>,
    i: int,
    state: TrayState<Seq<char>>,
)
    requires
        in_order(states),
        0 <= i < states.len(),
        path::same_place(states[i].repo_path, state.repo_path),
    ensures
        in_order(states.update(i, state)),
        forall|s: TrayState<Seq<char>>|
            #![trigger among(states.update(i, state), s)]
            among(states.update(i, state), s) <==> s == state || (among(states, s)
                && !path::same_place(s.repo_path, state.repo_path)),
{
    let new = states.update(i, state);
    assert forall|s: TrayState<Seq<char>>| #![trigger among(new, s)]
        among(new, s) <==> s == state || (among(states, s) && !path::same_place(
            s.repo_path,
            state.repo_path,
        )) by {
        if among(new, s) && s != state {
            let j = choose|j: int| 0 <= j < new.len() && new[j] == s;
            assert(states[j] == s);
            if j < i {
                path::paths_are_ordered(states[j].repo_path, states[i].repo_path, s.repo_path);
            } else {
                path::paths_are_ordered(states[i].repo_path, states[j].repo_path, s.repo_path);
            }
        }
        if among(states, s) && !path::same_place(s.repo_path, state.repo_path) {
            let j = choose|j: int| 0 <= j < states.len() && states[j] == s;
            assert(new[j] == s);
        }
        assert(new[i] == state);
    }
}

proof fn lemma_inserted(
    states: Seq<TrayState<Seq<char>>>,
    i: int,
    state: TrayState<Seq<char>>,
)
    requires
        in_order(states),
        0 <= i <= states.len(),
        forall|j: int|
            0 <= j < i ==> path::path_before(#[trigger] states[j].repo_path, state.repo_path),
        forall|j: int|
            i <= j < states.len() ==> path::path_before(
                state.repo_path,
                #[trigger] states[j].repo_path,
            ),
    ensures
        in_order(states.insert(i, state)),
        forall|s: TrayState<Seq<char>>|
            #![trigger among(states.insert(i, state), s)]
            among(states.insert(i, state), s) <==> s == state || (among(states, s)
                && !path::same_place(s.repo_path, state.repo_path)),
{
    let new = states.insert(i, state);
    assert forall|a: int, b: int| 0 <= a < b < new.len() implies path::path_before(
        #[trigger] new[a].repo_path,
        #[trigger] new[b].repo_path,
    ) by {
        if a != i && b != i {
            let x = if a < i {
                a
            } else {
                a - 1
            };
            let y = if b < i {
                b
            } else {
                b - 1
            };
            assert(new[a] == states[x] && new[b] == states[y]);
        } else if a == i {
            assert(new[b] == states[b - 1]);
        } else {
            assert(new[a] == states[a]);
        }
    }
    assert forall|s: TrayState<Seq<char>>| #![trigger among(new, s)]
        among(new, s) <==> s == state || (among(states, s) && !path::same_place(
            s.repo_path,
            state.repo_path,
        )) by {
        if among(new, s) && s != state {
            let j = choose|j: int| 0 <= j < new.len() && new[j] == s;
            let k = if j < i {
                j
            } else {
                j - 1
            };
            assert(states[k] == s);
            path::paths_are_ordered(s.repo_path, state.repo_path, s.repo_path);
            path::paths_are_ordered(state.repo_path, s.repo_path, s.repo_path);
        }
        if among(states, s) {
            let j = choose|j: int| 0 <= j < states.len() && states[j] == s;
            if j < i {
                assert(new[j] == s);
            } else {
                assert(new[j + 1] == s);
            }
        }
        assert(new[i] == state);
    }
}

/// The repositories that are shown are determined by which states are shown: there is one order
/// for them.
pub proof fn order_is_determined(
    a: Seq<TrayState<Seq<char>>>,
    b: Seq<TrayState<Seq<char>>>,
)
    requires
        in_order(a),
        in_order(b),
        forall|s: TrayState<Seq<char>>| among(a, s) <==> among(b, s),
    ensures
        a == b,
    decreases a.len(),
{
    if a.len() == 0 {
        if b.len() > 0 {
            assert(among(b, b[0]));
        }
        assert(a =~= b);
    } else {
        assert(among(a, a.last()));
        assert(among(b, a.last()));
        assert(b.len() > 0);
        assert(among(b, b.last()));
        let i = choose|i: int| 0 <= i < b.len() && b[i] == a.last();
        let j = choose|j: int| 0 <= j < a.len() && a[j] == b.last();
        path::paths_are_ordered(a.last().repo_path, b.last().repo_path, a.last().repo_path);
        if i < b.len() - 1 {
            assert(path::path_before(b[i].repo_path, b[b.len() - 1].repo_path));
            if j < a.len() - 1 {
                assert(path::path_before(a[j].repo_path, a[a.len() - 1].repo_path));
            }
        }
        assert(a.last() == b.last());
        let x = a.drop_last();
        let y = b.drop_last();
        assert forall|s: TrayState<Seq<char>>| among(x, s) <==> among(y, s) by {
            path::paths_are_ordered(s.repo_path, s.repo_path, s.repo_path);
            if among(x, s) {
                let k = choose|k: int| 0 <= k < x.len() && x[k] == s;
                assert(a[k] == s);
                assert(among(a, s));
                let l = choose|l: int| 0 <= l < b.len() && b[l] == s;
                assert(path::path_before(a[k].repo_path, a[a.len() - 1].repo_path));
                assert(l < b.len() - 1);
                assert(y[l] == s);
            }
            if among(y, s) {
                let l = choose|l: int| 0 <= l < y.len() && y[l] == s;
                assert(b[l] == s);
                assert(among(b, s));
                let k = choose|k: int| 0 <= k < a.len() && a[k] == s;
                assert(path::path_before(b[l].repo_path, b[b.len() - 1].repo_path));
                assert(k < a.len() - 1);
                assert(x[k] == s);
            }
        }
        assert(in_order(x));
        assert(in_order(y));
        order_is_determined(x, y);
        assert(a =~= x.push(a.last()));
        assert(b =~= y.push(b.last()));
    }
}

/// The one status for all repositories is an error exactly where one of them failed; without
/// failures it is a synchronization exactly where one is under way; and so on down to idleness.
pub proof fn errors_come_first(states: Seq<TrayState<Seq<char>>>)
    ensures
        status_of_all(states) is Error <==> exists|i: int|
            0 <= i < states.len() && #[trigger] states[i].status is Error,
        status_of_all(states) is Syncing <==> !(status_of_all(states) is Error) && any_is(
            states,
            TrayStatus::Syncing,
        ),
        status_of_all(states) is Starting <==> !(status_of_all(states) is Error) && !any_is(
            states,
            TrayStatus::Syncing,
        ) && any_is(states, TrayStatus::Starting),
{
    first_error_is_found(states);
}

proof fn first_error_is_found(states: Seq<TrayState<Seq<char>>>)
    ensures
        first_error(states) is Some <==> exists|i: int|
            0 <= i < states.len() && #[trigger] states[i].status is Error,
    decreases states.len(),
{
    if states.len() > 0 {
        let rest = states.skip(1);
        first_error_is_found(rest);
        if exists|i: int| 0 <= i < rest.len() && #[trigger] rest[i].status is Error {
            let i = choose|i: int| 0 <= i < rest.len() && #[trigger] rest[i].status is Error;
            assert(states[i + 1].status is Error);
        }
        if exists|i: int| 0 <= i < states.len() && #[trigger] states[i].status is Error {
            let i = choose|i: int| 0 <= i < states.len() && #[trigger] states[i].status is Error;
            if i > 0 {
                assert(rest[i - 1].status is Error);
            }
        }
    }
}

/// A repository that is suspended is shown as such, whatever its status; otherwise the status is
/// told, and an error with what went wrong.
pub proof fn statuses_are_told(state: TrayState<Seq<char>>, message: Seq<char>)
    ensures
        state.paused ==> status_words(state) == "Suspended"@,
        !state.paused && state.status == TrayStatus::<Seq<char>>::Starting ==> status_words(state)
            == "Starting..."@,
        !state.paused && state.status == TrayStatus::<Seq<char>>::Idle ==> status_words(state)
            == "Idle"@,
        !state.paused && state.status == TrayStatus::<Seq<char>>::Syncing ==> status_words(state)
            == "Syncing..."@,
        !state.paused && state.status == TrayStatus::<Seq<char>>::Error(message) ==> status_words(
            state,
        ) == "Error: "@ + message,
{
}

/// How long ago something was is told in whole days, or else in whole hours, minutes or seconds,
/// whichever is the largest unit of which there is one, rounded down.
pub proof fn ages_are_told_in_the_largest_unit(n: int, rest: int)
    ensures
        0 <= n < 60 ==> age(n) == text::decimal(n as nat) + "s ago"@,
        1 <= n < 60 && 0 <= rest < 60 ==> age(60 * n + rest) == text::decimal(n as nat) + "m ago"@,
        1 <= n < 24 && 0 <= rest < 3600 ==> age(3600 * n + rest) == text::decimal(n as nat)
            + "h ago"@,
        1 <= n && 0 <= rest < 86400 ==> age(86400 * n + rest) == text::decimal(n as nat) + "d ago"@,
        n < 0 ==> age(n) == "in the future"@,
{
    if 1 <= n < 60 && 0 <= rest < 60 {
        assert((60 * n + rest) / 60 == n) by (nonlinear_arith)
            requires
                0 <= rest < 60,
        ;
    }
    if 1 <= n < 24 && 0 <= rest < 3600 {
        assert((3600 * n + rest) / 3600 == n) by (nonlinear_arith)
            requires
                0 <= rest < 3600,
        ;
    }
    if 1 <= n && 0 <= rest < 86400 {
        assert((86400 * n + rest) / 86400 == n) by (nonlinear_arith)
            requires
                0 <= rest < 86400,
        ;
    }
}

/// The age of the last synchronization is what the wall clock has advanced since, in whole seconds;
/// it does not depend on where local time is.
pub proof fn ages_are_what_the_clock_has_advanced(
    now: WallTime,
    unix_secs: i64,
    offset: i32,
    other: i32,
)
    ensures
        now.unix_secs >= unix_secs ==> elapsed(
            now,
            LocalTime { unix_secs, utc_offset_secs: offset },
        ) == now.unix_secs - unix_secs,
        now.unix_secs < unix_secs - 1 ==> elapsed(
            now,
            LocalTime { unix_secs, utc_offset_secs: offset },
        ) < 0,
        elapsed(now, LocalTime { unix_secs, utc_offset_secs: offset }) == elapsed(
            now,
            LocalTime { unix_secs, utc_offset_secs: other },
        ),
{
}

/// The last synchronization is told by its time and its age; where there was none, that is told.
pub proof fn the_last_synchronization_is_told(t: LocalTime, now: WallTime)
    ensures
        last_sync_words(None, now) == "Last sync: never"@,
        last_sync_words(Some(t), now) == "Last sync: "@ + formatted_time(
            t.unix_secs,
            t.utc_offset_secs,
            "%Y-%m-%d %H:%M:%S %Z"@,
        ) + " ("@ + age(elapsed(now, t)) + ")"@,
{
}

/// A repository is shown under the name that it was given, and otherwise under that of its
/// directory.
pub proof fn repositories_are_shown_by_name(
    state: TrayState<Seq<char>>,
    given: Seq<char>,
    base: Seq<char>,
    name: Seq<char>,
)
    requires
        base.len() > 0,
        fit_for_a_name(name),
    ensures
        state.display_name == Some(given) ==> shown_name(state) == given,
        state.display_name is None && state.repo_path == base + seq!['/'] + name ==> shown_name(
            state,
        ) == name,
        state.display_name is None && state.repo_path == base + seq!['/'] + name + seq!['/']
            ==> shown_name(state) == name,
{
    directories_are_above_what_is_in_them(base, name);
    let path = base + seq!['/'] + name;
    slashes_and_dots_make_no_difference(path, name);
}

/// One status for all: where none has failed, a synchronization is told before a start, and a start
/// before that nothing is going on. An error that is told is that of the first repository that has
/// one.
pub proof fn what_matters_most_is_told(states: Seq<TrayState<Seq<char>>>, i: int)
    requires
        0 <= i < states.len(),
    ensures
        ({
            let failed = exists|j: int| 0 <= j < states.len() && (#[trigger] states[j]).status is Error;
            let syncing = exists|j: int|
                0 <= j < states.len() && (#[trigger] states[j]).status is Syncing;
            let starting = exists|j: int|
                0 <= j < states.len() && (#[trigger] states[j]).status is Starting;
            &&& !failed && syncing ==> status_of_all(states) == TrayStatus::<Seq<char>>::Syncing
            &&& !failed && !syncing && starting ==> status_of_all(states) == TrayStatus::<
                Seq<char>,
            >::Starting
            &&& !failed && !syncing && !starting ==> status_of_all(states) == TrayStatus::<
                Seq<char>,
            >::Idle
        }),
        states[i].status is Error && (forall|j: int|
            0 <= j < i ==> !((#[trigger] states[j]).status is Error)) ==> status_of_all(states)
            == states[i].status,
{
    first_error_is_found(states);
    if exists|j: int| 0 <= j < states.len() && (#[trigger] states[j]).status is Syncing {
        let j = choose|j: int| 0 <= j < states.len() && (#[trigger] states[j]).status is Syncing;
        assert(states[j].status == TrayStatus::<Seq<char>>::Syncing);
    }
    if exists|j: int| 0 <= j < states.len() && (#[trigger] states[j]).status is Starting {
        let j = choose|j: int| 0 <= j < states.len() && (#[trigger] states[j]).status is Starting;
        assert(states[j].status == TrayStatus::<Seq<char>>::Starting);
    }
    if states[i].status is Error && (forall|j: int|
        0 <= j < i ==> !((#[trigger] states[j]).status is Error)) {
        the_first_error_is_the_first(states, i);
    }
}

proof fn the_first_error_is_the_first(states: Seq<TrayState<Seq<char>>>, i: int)
    requires
        0 <= i < states.len(),
        states[i].status is Error,
        forall|j: int| 0 <= j < i ==> !((#[trigger] states[j]).status is Error),
    ensures
        first_error(states) == Some(states[i].status->Error_0),
    decreases states.len(),
{
    if i > 0 {
        let rest = states.skip(1);
        assert(!(states[0].status is Error));
        assert(rest[i - 1] == states[i]);
        assert forall|j: int| 0 <= j < i - 1 implies !((#[trigger] rest[j]).status is Error) by {
            assert(rest[j] == states[j + 1]);
        }
        the_first_error_is_the_first(rest, i - 1);
    }
}

/// The summary says how many repositories there are, and how many of them are idle, at work,
/// starting, suspended and in error. One that is suspended counts as suspended, and as neither idle
/// nor starting.
pub proof fn repositories_are_counted(
    states: Seq<TrayState<Seq<char>>>,
    state: TrayState<Seq<char>>,
)
    ensures
        ({
            let all = states.push(state);
            let more = |tally: Tally, one: bool|
                count(all, tally) == count(states, tally) + if one {
                    1nat
                } else {
                    0
                };
            &&& more(Tally::Idle, state.status is Idle && !state.paused)
            &&& more(Tally::Syncing, state.status is Syncing)
            &&& more(Tally::Starting, state.status is Starting && !state.paused)
            &&& more(Tally::Suspended, state.paused)
            &&& more(Tally::Failed, state.status is Error)
        }),
        count(Seq::empty(), Tally::Idle) == 0 && count(Seq::empty(), Tally::Syncing) == 0 && count(
            Seq::empty(),
            Tally::Starting,
        ) == 0 && count(Seq::empty(), Tally::Suspended) == 0 && count(Seq::empty(), Tally::Failed)
            == 0,
        summary_words(states) == text::decimal(states.len()) + " repositories: "@ + text::decimal(
            count(states, Tally::Idle),
        ) + " idle, "@ + text::decimal(count(states, Tally::Syncing)) + " syncing, "@
            + text::decimal(count(states, Tally::Starting)) + " starting, "@ + text::decimal(
            count(states, Tally::Suspended),
        ) + " suspended, "@ + text::decimal(count(states, Tally::Failed)) + " error(s)"@,
{
    assert(states.push(state).drop_last() =~= states);
}

/// Whatever is shown of a repository is part of its signature: the name, the status, the time of
/// the last synchronization and the last error.
pub proof fn signatures_say_all_that_is_shown(state: TrayState<Seq<char>>, now: WallTime)
    ensures
        signature_of(state, now) == shown_name(state) + "\u{1f}"@ + status_words(state) + "\u{1f}"@
            + last_sync_words(state.last_sync, now) + "\u{1f}"@ + match state.last_error {
            Some(e) => "Some("@ + text::debug_quoted(e) + ")"@,
            None => "None"@,
        },
        signature_of_all(seq![state], now) == signature_of(state, now),
{
    let one = seq![state].map_values(|s: TrayState<Seq<char>>| signature_of(s, now));
    assert(one[0] == signature_of(state, now));
}

/// The signature of several repositories is that of each of them, in order, with a separator
/// between each two.
pub proof fn signatures_are_put_together(
    states: Seq<TrayState<Seq<char>>>,
    state: TrayState<Seq<char>>,
    now: WallTime,
)
    ensures
        states.len() > 0 ==> signature_of_all(states.push(state), now) == signature_of_all(
            states,
            now,
        ) + "\u{1e}"@ + signature_of(state, now),
        signature_of_all(Seq::empty(), now).len() == 0,
{
    let sign = |s: TrayState<Seq<char>>| signature_of(s, now);
    let all = states.push(state).map_values(sign);
    assert(all.drop_last() =~= states.map_values(sign));
    assert(all.last() == signature_of(state, now));
    assert(Seq::<TrayState<Seq<char>>>::empty().map_values(sign).len() == 0);
}

} // verus!
