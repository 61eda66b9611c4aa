//! When a watched repository is synchronized.
//!
//! Times are nanoseconds since some moment before the scheduler was made.

use crate::error::SyncError;
use vstd::prelude::*;

verus! {

/// The moments of the runtime's clock.
#[verifier::external_type_specification]
#[verifier::external_body]
pub struct ExInstant(tokio::time::Instant);

/// `tokio::time::Instant::now`: the present moment. Nothing is claimed of it.
#[verifier::external_body]
fn present() -> (now: tokio::time::Instant) {
    tokio::time::Instant::now()
}

/// More nanoseconds than any span of time that the clock can measure.
pub const SPAN_LIMIT: u128 = 18446744073709551616000000000;

/// `tokio::time::Instant::elapsed`, in nanoseconds. How much time has passed is up to the clock;
/// it is a `Duration`, which spans less than 2^64 seconds.
#[verifier::external_body]
fn nanoseconds_since(start: &tokio::time::Instant) -> (nanoseconds: u128)
    ensures
        nanoseconds < SPAN_LIMIT,
{
    start.elapsed().as_nanos()
}

/// A clock that counts from the moment it was started.
#[derive(Debug)]
pub struct Clock {
    start: tokio::time::Instant,
}

impl Clock {
    /// A clock that starts now.
    pub fn start() -> (clock: Clock) {
        Clock { start: present() }
    }

    /// The nanoseconds since the clock was started.
    pub fn now(&self) -> (now: u128)
        ensures
            now < SPAN_LIMIT,
    {
        nanoseconds_since(&self.start)
    }
}

pub const MILLISECOND: u128 = 1000000;

pub const RETRY_BACKOFF_INITIAL: u128 = 1000000000;

pub const RETRY_BACKOFF_MAX: u128 = 60000000000;

pub const RETRY_DELAY_MANUAL: u128 = 30000000000;

pub const RETRY_DELAY_CONFIG: u128 = 60000000000;

pub const RETRY_DELAY_STATE: u128 = 5000000000;

pub const SHORTEST_BATCH_LATENCY: u128 = 500000000;

/// Decides when changes are synchronized: once they have come to rest, or once they have been
/// coming for long enough; never too soon after the last attempt; and after a failure not before
/// a delay that depends on the failure.
#[derive(Debug, Clone, Copy)]
pub struct SyncScheduler {
    pub last_sync: u128,
    pub pending_sync: bool,
    pub immediate_requested: bool,
    pub min_interval: u128,
    pub debounce: u128,
    pub max_batch_latency: u128,
    pub first_event: Option<u128>,
    pub last_event: Option<u128>,
    pub next_retry_at: Option<u128>,
    pub retry_backoff: u128,
}

pub open spec fn larger(a: int, b: int) -> int {
    if a < b {
        b
    } else {
        a
    }
}

/// How long changes may keep coming before they are synchronized all the same.
pub open spec fn batch_latency(debounce: int, min_interval: int) -> int {
    larger(larger(8 * debounce, min_interval), SHORTEST_BATCH_LATENCY as int)
}

/// The time from `then` to `now`; none where `now` is earlier.
pub open spec fn since(now: u128, then: u128) -> int {
    if now >= then {
        now - then
    } else {
        0
    }
}

/// The time at which an event happened first, where `first` is what is known of it.
pub open spec fn at_first(first: Option<u128>, now: u128) -> Option<u128> {
    match first {
        Some(first) => Some(first),
        None => Some(now),
    }
}

/// The delay after a failure that may pass by itself, for the time after the next.
pub open spec fn doubled(backoff: u128) -> u128 {
    if 2 * backoff > RETRY_BACKOFF_MAX {
        RETRY_BACKOFF_MAX
    } else {
        (2 * backoff) as u128
    }
}

/// The delay after failures that somebody has to do something about; none for those that may pass
/// by themselves.
pub open spec fn fixed_delay<S>(e: SyncError<S>) -> Option<u128> {
    match e {
        SyncError::ManualInterventionRequired { .. } => Some(RETRY_DELAY_MANUAL),
        SyncError::HookRejected { .. } => Some(RETRY_DELAY_MANUAL),
        SyncError::NoRemoteConfigured { .. } => Some(RETRY_DELAY_CONFIG),
        SyncError::RemoteBranchNotFound { .. } => Some(RETRY_DELAY_CONFIG),
        SyncError::NotARepository { .. } => Some(RETRY_DELAY_CONFIG),
        SyncError::DetachedHead => Some(RETRY_DELAY_STATE),
        SyncError::UnsafeRepositoryState { .. } => Some(RETRY_DELAY_STATE),
        _ => None,
    }
}

impl SyncScheduler {
    /// What holds of every scheduler.
    pub open spec fn wf(self) -> bool {
        &&& self.max_batch_latency == batch_latency(self.debounce as int, self.min_interval as int)
        &&& RETRY_BACKOFF_INITIAL <= self.retry_backoff <= RETRY_BACKOFF_MAX
    }

    /// The scheduler after a change was noticed.
    pub open spec fn marked(self, now: u128) -> SyncScheduler {
        SyncScheduler {
            pending_sync: true,
            immediate_requested: false,
            first_event: at_first(self.first_event, now),
            last_event: Some(now),
            ..self
        }
    }

    /// The scheduler after a synchronization was asked for.
    pub open spec fn requested(self, now: u128) -> SyncScheduler {
        SyncScheduler {
            pending_sync: true,
            immediate_requested: true,
            first_event: at_first(self.first_event, now),
            last_event: at_first(self.last_event, now),
            ..self
        }
    }

    /// The scheduler after a synchronization succeeded.
    pub open spec fn succeeded(self, now: u128) -> SyncScheduler {
        SyncScheduler {
            last_sync: now,
            pending_sync: false,
            immediate_requested: false,
            first_event: None,
            last_event: None,
            next_retry_at: None,
            retry_backoff: RETRY_BACKOFF_INITIAL,
            ..self
        }
    }

    /// The delay after the given failure.
    pub open spec fn delay_after<S>(self, e: SyncError<S>) -> u128 {
        match fixed_delay(e) {
            Some(delay) => delay,
            None => self.retry_backoff,
        }
    }

    /// The scheduler after a synchronization failed.
    pub open spec fn failed<S>(self, e: SyncError<S>, now: u128) -> SyncScheduler {
        SyncScheduler {
            last_sync: now,
            pending_sync: true,
            immediate_requested: false,
            next_retry_at: Some((now + self.delay_after(e)) as u128),
            retry_backoff: if fixed_delay(e) is Some {
                self.retry_backoff
            } else {
                doubled(self.retry_backoff)
            },
            ..self
        }
    }

    /// Whether a failure forbids an attempt at the given time.
    pub open spec fn held_back(self, now: u128) -> bool {
        self.next_retry_at matches Some(at) && now < at
    }

    /// Whether the changes have come to rest.
    pub open spec fn quiet(self, now: u128) -> bool {
        self.last_event matches Some(last) && since(now, last) >= self.debounce
    }

    /// Whether changes have been coming for long enough.
    pub open spec fn overdue(self, now: u128) -> bool {
        self.first_event matches Some(first) && since(now, first) >= self.max_batch_latency
    }

    /// Whether to synchronize at the given time.
    pub open spec fn due(self, now: u128) -> bool {
        &&& self.pending_sync
        &&& !self.held_back(now)
        &&& since(now, self.last_sync) >= self.min_interval
        &&& self.immediate_requested || self.quiet(now) || self.overdue(now)
    }

    /// A scheduler that last synchronized at the given time.
    pub open spec fn made(debounce_ms: u64, min_interval_ms: u64, now: u128) -> SyncScheduler {
        let debounce = (debounce_ms * MILLISECOND) as u128;
        let min_interval = (min_interval_ms * MILLISECOND) as u128;
        SyncScheduler {
            last_sync: now,
            pending_sync: false,
            immediate_requested: false,
            min_interval,
            debounce,
            max_batch_latency: batch_latency(debounce as int, min_interval as int) as u128,
            first_event: None,
            last_event: None,
            next_retry_at: None,
            retry_backoff: RETRY_BACKOFF_INITIAL,
        }
    }

    /// A scheduler that last synchronized now.
    pub fn new(debounce_ms: u64, min_interval_ms: u64, clock: &Clock) -> (s: SyncScheduler)
        ensures
            s.wf(),
            s.last_sync < SPAN_LIMIT,
            s == SyncScheduler::made(debounce_ms, min_interval_ms, s.last_sync),
    {
        Self::new_at(debounce_ms, min_interval_ms, clock.now())
    }

    /// A scheduler that last synchronized at the given time.
    pub fn new_at(debounce_ms: u64, min_interval_ms: u64, now: u128) -> (s: SyncScheduler)
        ensures
            s.wf(),
            s == SyncScheduler::made(debounce_ms, min_interval_ms, now),
    {
        let debounce: u128 = (debounce_ms as u128) * MILLISECOND;
        let min_interval: u128 = (min_interval_ms as u128) * MILLISECOND;
        let mut max_batch_latency: u128 = debounce * 8;
        if max_batch_latency < min_interval {
            max_batch_latency = min_interval;
        }
        if max_batch_latency < SHORTEST_BATCH_LATENCY {
            max_batch_latency = SHORTEST_BATCH_LATENCY;
        }
        SyncScheduler {
            last_sync: now,
            pending_sync: false,
            immediate_requested: false,
            min_interval,
            debounce,
            max_batch_latency,
            first_event: None,
            last_event: None,
            next_retry_at: None,
            retry_backoff: RETRY_BACKOFF_INITIAL,
        }
    }

    /// Notices a change.
    pub fn mark_file_event(&mut self, clock: &Clock)
        ensures
            exists|now: u128|
                now < SPAN_LIMIT && *final(self) == #[trigger] old(self).marked(now),
    {
        self.mark_file_event_at(clock.now());
    }

    /// Notices a change at the given time.
    pub fn mark_file_event_at(&mut self, now: u128)
        ensures
            *final(self) == old(self).marked(now),
    {
        self.pending_sync = true;
        self.immediate_requested = false;
        if self.first_event.is_none() {
            self.first_event = Some(now);
        }
        self.last_event = Some(now);
    }

    /// Asks for a synchronization.
    pub fn request_sync_now(&mut self, clock: &Clock)
        ensures
            exists|now: u128|
                now < SPAN_LIMIT && *final(self) == #[trigger] old(self).requested(now),
    {
        self.request_sync_now_at(clock.now());
    }

    /// Asks for a synchronization at the given time.
    pub fn request_sync_now_at(&mut self, now: u128)
        ensures
            *final(self) == old(self).requested(now),
    {
        self.pending_sync = true;
        self.immediate_requested = true;
        if self.first_event.is_none() {
            self.first_event = Some(now);
        }
        if self.last_event.is_none() {
            self.last_event = Some(now);
        }
    }

    /// Whether to synchronize now.
    pub fn should_sync_now(&self, clock: &Clock) -> (due: bool)
        ensures
            exists|now: u128| now < SPAN_LIMIT && due == #[trigger] self.due(now),
    {
        self.should_sync_at(clock.now())
    }

    /// Whether to synchronize at the given time.
    pub fn should_sync_at(&self, now: u128) -> (due: bool)
        ensures
            due == self.due(now),
    {
        if !self.pending_sync {
            return false;
        }
        if let Some(next_retry_at) = self.next_retry_at {
            if now < next_retry_at {
                return false;
            }
        }
        if span(now, self.last_sync) < self.min_interval {
            return false;
        }
        if self.immediate_requested {
            return true;
        }
        if let Some(last) = self.last_event {
            if span(now, last) >= self.debounce {
                return true;
            }
        }
        match self.first_event {
            Some(first) => span(now, first) >= self.max_batch_latency,
            None => false,
        }
    }

    /// Notes that a synchronization succeeded.
    pub fn on_sync_success(&mut self, clock: &Clock)
        ensures
            exists|now: u128|
                now < SPAN_LIMIT && *final(self) == #[trigger] old(self).succeeded(now),
    {
        self.on_sync_success_at(clock.now());
    }

    /// Notes that a synchronization succeeded at the given time.
    pub fn on_sync_success_at(&mut self, now: u128)
        ensures
            *final(self) == old(self).succeeded(now),
    {
        self.last_sync = now;
        self.pending_sync = false;
        self.immediate_requested = false;
        self.first_event = None;
        self.last_event = None;
        self.next_retry_at = None;
        self.retry_backoff = RETRY_BACKOFF_INITIAL;
    }

    /// Notes that a synchronization failed.
    pub fn on_sync_failure(&mut self, error: &SyncError, clock: &Clock)
        requires
            old(self).wf(),
        ensures
            exists|now: u128|
                now < SPAN_LIMIT && *final(self) == #[trigger] old(self).failed(*error, now),
            final(self).wf(),
    {
        self.on_sync_failure_at(error, clock.now());
    }

    /// Notes that a synchronization failed at the given time.
    pub fn on_sync_failure_at(&mut self, error: &SyncError, now: u128)
        requires
            old(self).wf(),
            now < SPAN_LIMIT,
        ensures
            *final(self) == old(self).failed(*error, now),
            final(self).wf(),
    {
        self.last_sync = now;
        self.pending_sync = true;
        self.immediate_requested = false;
        let delay: u128 = self.retry_delay_for(error);
        self.next_retry_at = Some(now + delay);
    }

    /// The delay after the given failure. After one that may pass by itself, the next such delay
    /// is twice as long, up to a limit.
    pub fn retry_delay_for(&mut self, error: &SyncError) -> (delay: u128)
        requires
            old(self).wf(),
        ensures
            delay == old(self).delay_after(*error),
            *final(self) == (SyncScheduler {
                retry_backoff: if fixed_delay(*error) is Some {
                    old(self).retry_backoff
                } else {
                    doubled(old(self).retry_backoff)
                },
                ..*old(self)
            }),
            delay <= RETRY_BACKOFF_MAX,
            final(self).wf(),
    {
        match error {
            SyncError::ManualInterventionRequired { .. } | SyncError::HookRejected { .. } => {
                RETRY_DELAY_MANUAL
            },
            SyncError::NoRemoteConfigured { .. } | SyncError::RemoteBranchNotFound { .. }
            | SyncError::NotARepository { .. } => RETRY_DELAY_CONFIG,
            SyncError::DetachedHead | SyncError::UnsafeRepositoryState { .. } => {
                RETRY_DELAY_STATE
            },
            _ => {
                let delay: u128 = self.retry_backoff;
                let twice: u128 = delay * 2;
                self.retry_backoff = if twice > RETRY_BACKOFF_MAX {
                    RETRY_BACKOFF_MAX
                } else {
                    twice
                };
                delay
            },
        }
    }
}

/// The time from `then` to `now`; none where `now` is earlier.
fn span(now: u128, then: u128) -> (d: u128)
    ensures
        d == since(now, then),
{
    if now >= then {
        now - then
    } else {
        0
    }
}

/// The scheduler after changes were noticed at the given times.
pub open spec fn marked_at_each(s: SyncScheduler, times: Seq<u128>) -> SyncScheduler
    decreases times.len(),
{
    if times.len() == 0 {
        s
    } else {
        marked_at_each(s, times.drop_last()).marked(times.last())
    }
}

/// The scheduler after the given failures, each at the given time.
pub open spec fn failed_at_each(s: SyncScheduler, failures: Seq<(SyncError, u128)>) -> SyncScheduler
    decreases failures.len(),
{
    if failures.len() == 0 {
        s
    } else {
        let (e, now) = failures.last();
        failed_at_each(s, failures.drop_last()).failed(e, now)
    }
}

/// Changes that never stop coming do not keep a synchronization from happening: once the first of
/// them is old enough, it is due, however many follow and however close together.
pub proof fn continuous_events_do_not_starve(s: SyncScheduler, times: Seq<u128>, now: u128)
    requires
        s.pending_sync,
        s.overdue(now),
        !s.held_back(now),
        since(now, s.last_sync) >= s.min_interval,
    ensures
        marked_at_each(s, times).due(now),
{
    marks_keep_the_first(s, times);
}

proof fn marks_keep_the_first(s: SyncScheduler, times: Seq<u128>)
    requires
        s.first_event is Some,
        s.pending_sync,
    ensures
        ({
            let m = marked_at_each(s, times);
            &&& m.first_event == s.first_event
            &&& m.pending_sync
            &&& m.next_retry_at == s.next_retry_at
            &&& m.last_sync == s.last_sync
            &&& m.min_interval == s.min_interval
            &&& m.debounce == s.debounce
            &&& m.max_batch_latency == s.max_batch_latency
            &&& m.retry_backoff == s.retry_backoff
        }),
    decreases times.len(),
{
    if times.len() > 0 {
        marks_keep_the_first(s, times.drop_last());
    }
}

/// Changes are gathered: while they are neither at rest nor old enough, nothing is due, unless it
/// was asked for.
pub proof fn changes_are_gathered(s: SyncScheduler, now: u128, later: u128)
    requires
        since(later, now) < s.debounce,
        since(later, at_first(s.first_event, now)->0) < s.max_batch_latency,
    ensures
        !s.marked(now).due(later),
{
}

/// After an attempt, whatever its outcome, nothing is due before the shortest interval has
/// passed, whatever was noticed or asked for in the meantime.
pub proof fn attempts_keep_their_distance(
    s: SyncScheduler,
    e: SyncError,
    at: u128,
    event: u128,
    now: u128,
)
    requires
        since(now, at) < s.min_interval,
    ensures
        !s.succeeded(at).marked(event).due(now),
        !s.succeeded(at).requested(event).due(now),
        !s.failed(e, at).marked(event).due(now),
        !s.failed(e, at).requested(event).due(now),
{
}

/// After a success nothing is due until there is a new reason.
pub proof fn success_leaves_nothing_to_do(s: SyncScheduler, at: u128, now: u128)
    ensures
        !s.succeeded(at).due(now),
        s.wf() ==> s.succeeded(at).wf(),
{
}

/// What is due stays due while nothing happens.
pub proof fn due_stays_due(s: SyncScheduler, now: u128, later: u128)
    requires
        s.due(now),
        now <= later,
    ensures
        s.due(later),
{
}

/// Asking for a synchronization makes it due as soon as the shortest interval has passed and no
/// failure holds it back: changes need not have come to rest.
pub proof fn requests_do_not_wait_for_quiet(s: SyncScheduler, at: u128, now: u128)
    ensures
        s.requested(at).due(now) <==> !s.held_back(now) && since(now, s.last_sync)
            >= s.min_interval,
{
}

/// A failure holds the next attempt back for its delay, whatever is noticed or asked for in the
/// meantime.
pub proof fn failures_hold_back(s: SyncScheduler, e: SyncError, at: u128, event: u128, now: u128)
    requires
        s.wf(),
        at < SPAN_LIMIT,
        now < at + s.delay_after(e),
    ensures
        !s.failed(e, at).due(now),
        !s.failed(e, at).marked(event).due(now),
        !s.failed(e, at).requested(event).due(now),
{
}

/// What was pending is pending after a failure too, and is due again once the delay and the
/// shortest interval have passed and the changes have come to rest.
pub proof fn failures_are_retried(s: SyncScheduler, e: SyncError, at: u128, now: u128)
    requires
        s.wf(),
        at < SPAN_LIMIT,
        now >= at + s.delay_after(e),
        now >= at + s.min_interval,
        s.quiet(now) || s.overdue(now),
    ensures
        s.failed(e, at).due(now),
{
}

pub open spec fn power_of_two(n: nat) -> nat
    decreases n,
{
    if n == 0 {
        1
    } else {
        2 * power_of_two((n - 1) as nat)
    }
}

/// The delay after so many failures in a row that may pass by themselves: a second, then twice
/// as long each time, up to a minute.
pub open spec fn backoff_after(n: nat) -> int {
    if power_of_two(n) * RETRY_BACKOFF_INITIAL > RETRY_BACKOFF_MAX {
        RETRY_BACKOFF_MAX as int
    } else {
        power_of_two(n) * RETRY_BACKOFF_INITIAL
    }
}

/// How many of the failures may pass by themselves.
pub open spec fn passing(failures: Seq<(SyncError, u128)>) -> nat
    decreases failures.len(),
{
    if failures.len() == 0 {
        0
    } else if fixed_delay(failures.last().0) is None {
        passing(failures.drop_last()) + 1
    } else {
        passing(failures.drop_last())
    }
}

/// The delay doubles with each failure that may pass by itself, up to a minute, whatever other
/// failures there are in between; and a success starts it over.
pub proof fn delays_double_up_to_a_minute(
    s: SyncScheduler,
    at: u128,
    failures: Seq<(SyncError, u128)>,
    e: SyncError,
)
    requires
        fixed_delay(e) is None,
    ensures
        failed_at_each(s.succeeded(at), failures).delay_after(e) == backoff_after(
            passing(failures),
        ),
    decreases failures.len(),
{
    if failures.len() > 0 {
        delays_double_up_to_a_minute(s, at, failures.drop_last(), e);
    }
}

/// Whether no failure forbids an attempt at the given time.
pub open spec fn free_to_try(s: SyncScheduler, now: u128) -> bool {
    s.next_retry_at is None || s.next_retry_at->0 <= now
}

/// Changes that have been at rest for as long as they have to be are due, however many there were
/// and whenever they came, once the shortest interval has passed and no failure forbids it.
pub proof fn changes_at_rest_are_due(
    s: SyncScheduler,
    earlier: Seq<u128>,
    at: u128,
    now: u128,
)
    requires
        now >= at + s.debounce,
        now >= s.last_sync + s.min_interval,
        free_to_try(s, now),
    ensures
        marked_at_each(s, earlier).marked(at).due(now),
        s.marked(at).due(now),
{
    marks_change_little(s, earlier);
}

proof fn marks_change_little(s: SyncScheduler, times: Seq<u128>)
    ensures
        ({
            let m = marked_at_each(s, times);
            &&& m.next_retry_at == s.next_retry_at
            &&& m.last_sync == s.last_sync
            &&& m.min_interval == s.min_interval
            &&& m.debounce == s.debounce
            &&& m.max_batch_latency == s.max_batch_latency
            &&& m.retry_backoff == s.retry_backoff
            &&& s.first_event is Some ==> m.first_event == s.first_event
            &&& times.len() > 0 ==> m.pending_sync && m.last_event == Some(times.last())
            &&& times.len() > 0 && s.first_event is None ==> m.first_event == Some(times[0])
        }),
    decreases times.len(),
{
    if times.len() > 0 {
        marks_change_little(s, times.drop_last());
    }
}

/// Changes that never come to rest are due once the first of them is eight times as old as changes
/// have to be at rest, and no younger than the shortest interval and half a second.
pub proof fn old_changes_are_due(
    s: SyncScheduler,
    first: u128,
    following: Seq<u128>,
    now: u128,
)
    requires
        s.wf(),
        s.first_event is None,
        now >= first + 8 * s.debounce,
        now >= first + s.min_interval,
        now >= first + 500000000,
        now >= s.last_sync + s.min_interval,
        free_to_try(s, now),
    ensures
        marked_at_each(s.marked(first), following).due(now),
{
    marks_change_little(s.marked(first), following);
}

/// Nothing is due without a reason, before the shortest interval has passed or while a failure
/// forbids it; and unless it was asked for, nothing is due while the last change is younger than
/// it has to be and the first one is younger than changes may become.
pub proof fn nothing_is_due_too_soon(s: SyncScheduler, now: u128)
    ensures
        s.due(now) ==> s.pending_sync,
        s.due(now) ==> free_to_try(s, now),
        s.due(now) && s.min_interval > 0 ==> now >= s.last_sync + s.min_interval,
        s.due(now) && !s.immediate_requested && s.debounce > 0 && s.max_batch_latency > 0
            ==> (s.last_event is Some && now >= s.last_event->0 + s.debounce) || (
        s.first_event is Some && now >= s.first_event->0 + s.max_batch_latency),
{
}

/// What was asked for is due as soon as the shortest interval has passed and no failure forbids
/// it, whatever has changed.
pub proof fn requests_are_due(s: SyncScheduler, at: u128, now: u128)
    requires
        now >= s.last_sync + s.min_interval,
        free_to_try(s, now),
    ensures
        s.requested(at).due(now),
{
}

/// A change or a request is remembered as the reason, together with when the first and the last of
/// them came; a change takes a request back. Nothing else is affected.
pub proof fn reasons_are_remembered(s: SyncScheduler, now: u128)
    ensures
        s.marked(now).pending_sync && s.requested(now).pending_sync,
        !s.marked(now).immediate_requested && s.requested(now).immediate_requested,
        s.marked(now).last_event == Some(now),
        s.requested(now).last_event is Some && (s.last_event is Some ==> s.requested(now).last_event
            == s.last_event) && (s.last_event is None ==> s.requested(now).last_event == Some(now)),
        s.first_event is Some ==> s.marked(now).first_event == s.first_event && s.requested(
            now,
        ).first_event == s.first_event,
        s.first_event is None ==> s.marked(now).first_event == Some(now) && s.requested(
            now,
        ).first_event == Some(now),
        same_pace(s, s.marked(now)) && same_pace(s, s.requested(now)),
        s.marked(now).retry_backoff == s.retry_backoff && s.requested(now).retry_backoff
            == s.retry_backoff,
        s.marked(now).next_retry_at == s.next_retry_at && s.requested(now).next_retry_at
            == s.next_retry_at,
        s.marked(now).last_sync == s.last_sync && s.requested(now).last_sync == s.last_sync,
{
}

/// Whether two schedulers go by the same intervals.
pub open spec fn same_pace(a: SyncScheduler, b: SyncScheduler) -> bool {
    a.min_interval == b.min_interval && a.debounce == b.debounce && a.max_batch_latency
        == b.max_batch_latency
}

/// After a success there is no reason and no delay, and the delays begin with a second again.
pub proof fn successes_start_over(s: SyncScheduler, now: u128)
    ensures
        ({
            let after = s.succeeded(now);
            &&& after.last_sync == now
            &&& !after.pending_sync && !after.immediate_requested
            &&& after.first_event is None && after.last_event is None
            &&& after.next_retry_at is None
            &&& after.retry_backoff == 1000000000
            &&& same_pace(s, after)
        }),
{
}

/// After a failure there is a reason still, and the next attempt has to wait: half a minute where
/// the user has to act or a hook has spoken, a minute where the remote, its branch or the
/// repository is missing, five seconds where the repository is in an unsafe state or on no branch;
/// and otherwise as long as it is the turn of, which is twice as long the next time, but no longer
/// than a minute.
pub proof fn failures_wait_for_as_long_as_they_should<S>(
    s: SyncScheduler,
    e: SyncError<S>,
    now: u128,
)
    requires
        s.wf(),
        now < SPAN_LIMIT,
    ensures
        ({
            let after = s.failed(e, now);
            let waits = |delay: u128| after.next_retry_at == Some((now + delay) as u128);
            let act = e is ManualInterventionRequired || e is HookRejected;
            let missing = e is NoRemoteConfigured || e is RemoteBranchNotFound || e is NotARepository;
            let stuck = e is DetachedHead || e is UnsafeRepositoryState;
            &&& after.last_sync == now
            &&& after.pending_sync && !after.immediate_requested
            &&& after.first_event == s.first_event && after.last_event == s.last_event
            &&& same_pace(s, after)
            &&& act ==> waits(30000000000)
            &&& missing ==> waits(60000000000)
            &&& stuck ==> waits(5000000000)
            &&& act || missing || stuck ==> after.retry_backoff == s.retry_backoff
            &&& !act && !missing && !stuck ==> waits(s.retry_backoff)
            &&& !act && !missing && !stuck && s.retry_backoff <= 30000000000 ==> after.retry_backoff
                == 2 * s.retry_backoff
            &&& !act && !missing && !stuck && s.retry_backoff > 30000000000 ==> after.retry_backoff
                == 60000000000
        }),
{
}

/// A new scheduler goes by the given milliseconds, has no reason and waits for nothing.
pub proof fn new_schedulers_have_nothing_to_do(debounce_ms: u64, min_interval_ms: u64, now: u128)
    ensures
        ({
            let s = SyncScheduler::made(debounce_ms, min_interval_ms, now);
            &&& s.debounce == debounce_ms * 1000000
            &&& s.min_interval == min_interval_ms * 1000000
            &&& s.max_batch_latency >= 8 * s.debounce
            &&& s.max_batch_latency >= s.min_interval
            &&& s.max_batch_latency >= 500000000
            &&& s.max_batch_latency == 8 * s.debounce || s.max_batch_latency == s.min_interval
                || s.max_batch_latency == 500000000
            &&& s.last_sync == now
            &&& !s.pending_sync && !s.immediate_requested
            &&& s.first_event is None && s.last_event is None && s.next_retry_at is None
            &&& s.retry_backoff == 1000000000
        }),
{
}

} // verus!
