use vstd::prelude::*;
use crate::client::{FetchError, RetryDecision, RetryPolicy};
use crate::snapshot::RegistrySnapshot;

verus! {

/// Where the cache stands in its life.
#[derive(Clone, Copy, Debug, PartialEq, Eq, Structural)]
pub enum CachePhase {
    Uninitialized,
    /// The first fetch is under way, or has not succeeded yet.
    Warming,
    Ready,
    Refreshing,
    /// Refreshes have failed at least the configured number of times in a
    /// row; the last good snapshot is still served.
    Degraded,
}

/// Bookkeeping of the background refresh.
#[derive(Clone, Copy, Debug, PartialEq, Eq, Structural)]
pub struct RefreshCursor {
    /// When a fetch last succeeded, with new data or "not modified".
    pub last_success: Option<u64>,
    pub consecutive_failures: u64,
}

/// What one conditional fetch brought back.
pub enum FetchOutcome {
    Fresh(RegistrySnapshot),
    NotModified,
    Failed(FetchError),
}

/// The readiness signal offered to the host.
#[derive(Clone, Copy, Debug, PartialEq, Eq, Structural)]
pub enum Health {
    Starting,
    Ready,
    Degraded,
}

/// The registry state served to requests, refreshed by a single writer.
/// The snapshot is replaced whole or not at all.
pub struct RegistryCache {
    pub phase: CachePhase,
    pub snapshot: Option<RegistrySnapshot>,
    pub cursor: RefreshCursor,
    pub failure_threshold: u64,
    /// A refresh has begun and not completed.
    pub in_flight: bool,
}

pub open spec fn phase_on_begin(p: CachePhase) -> CachePhase {
    match p {
        CachePhase::Uninitialized => CachePhase::Warming,
        CachePhase::Ready => CachePhase::Refreshing,
        other => other,
    }
}

/// The state once a refresh has been asked for: nothing changes while one
/// is in flight.
pub open spec fn begun(c: RegistryCache) -> RegistryCache {
    if c.in_flight {
        c
    } else {
        RegistryCache {
            phase: phase_on_begin(c.phase),
            snapshot: c.snapshot,
            cursor: c.cursor,
            failure_threshold: c.failure_threshold,
            in_flight: true,
        }
    }
}

pub open spec fn saturating_inc(n: u64) -> u64 {
    if n < u64::MAX { (n + 1) as u64 } else { n }
}

/// The state after a failed refresh: the snapshot stays, the failure is
/// counted, and the phase becomes `Degraded` once the count reaches the
/// threshold (only when there is a snapshot to fall back on).
pub open spec fn failed(c: RegistryCache) -> RegistryCache {
    let failures = saturating_inc(c.cursor.consecutive_failures);
    RegistryCache {
        phase: if c.snapshot is None {
            CachePhase::Warming
        } else if failures >= c.failure_threshold {
            CachePhase::Degraded
        } else {
            CachePhase::Ready
        },
        snapshot: c.snapshot,
        cursor: RefreshCursor { last_success: c.cursor.last_success, consecutive_failures: failures },
        failure_threshold: c.failure_threshold,
        in_flight: false,
    }
}

/// The state once a refresh has completed with `outcome` at time `now`.
pub open spec fn completed(c: RegistryCache, outcome: FetchOutcome, now: u64) -> RegistryCache {
    match outcome {
        FetchOutcome::Fresh(s) => RegistryCache {
            phase: CachePhase::Ready,
            snapshot: Some(s),
            cursor: RefreshCursor { last_success: Some(now), consecutive_failures: 0 },
            failure_threshold: c.failure_threshold,
            in_flight: false,
        },
        FetchOutcome::NotModified => if c.snapshot is Some {
            RegistryCache {
                phase: CachePhase::Ready,
                snapshot: c.snapshot,
                cursor: RefreshCursor { last_success: Some(now), consecutive_failures: 0 },
                failure_threshold: c.failure_threshold,
                in_flight: false,
            }
        } else {
            failed(c)
        },
        FetchOutcome::Failed(_) => failed(c),
    }
}

/// The state after each `(snapshot, time)` of `installs` has been fetched
/// in a refresh of its own, in order.
pub open spec fn after_installs(c: RegistryCache, installs: Seq<(RegistrySnapshot, u64)>) -> RegistryCache
    decreases installs.len(),
{
    if installs.len() == 0 {
        c
    } else {
        let last = installs.last();
        completed(begun(after_installs(c, installs.drop_last())), FetchOutcome::Fresh(last.0), last.1)
    }
}

/// After any non-empty run of successful refreshes, the snapshot served is
/// exactly the last one fetched, every field of it, and the cache is
/// `Ready` with no failure counted.
pub proof fn lemma_installs_are_whole(c: RegistryCache, installs: Seq<(RegistrySnapshot, u64)>)
    requires
        installs.len() > 0,
    ensures
        after_installs(c, installs).snapshot == Some(installs.last().0),
        after_installs(c, installs).phase == CachePhase::Ready,
        after_installs(c, installs).cursor.consecutive_failures == 0,
        after_installs(c, installs).cursor.last_success == Some(installs.last().1),
{
}

/// The cache as it is after one more "not modified" refresh at time `now`.
pub open spec fn touched(c: RegistryCache, now: u64) -> RegistryCache {
    RegistryCache {
        phase: c.phase,
        snapshot: c.snapshot,
        cursor: RefreshCursor { last_success: Some(now), consecutive_failures: c.cursor.consecutive_failures },
        failure_threshold: c.failure_threshold,
        in_flight: c.in_flight,
    }
}

/// A conditional fetch answered "not modified", from a ready cache with no
/// failure counted, changes nothing but the time of the last successful
/// fetch; so doing it again at a later time leaves the same state as once.
pub proof fn lemma_not_modified_idempotent(c: RegistryCache, t1: u64, t2: u64)
    requires
        c.snapshot is Some,
        c.phase == CachePhase::Ready,
        c.cursor.consecutive_failures == 0,
        !c.in_flight,
    ensures
        completed(begun(c), FetchOutcome::NotModified, t1) == touched(c, t1),
        completed(begun(completed(begun(c), FetchOutcome::NotModified, t1)), FetchOutcome::NotModified, t2)
            == touched(c, t2),
{
}

/// A failed refresh never removes or alters the snapshot being served.
pub proof fn lemma_failure_keeps_snapshot(c: RegistryCache, e: FetchError, now: u64)
    ensures
        completed(c, FetchOutcome::Failed(e), now).snapshot == c.snapshot,
        completed(c, FetchOutcome::Failed(e), now).cursor.consecutive_failures
            == saturating_inc(c.cursor.consecutive_failures),
        c.snapshot is Some && saturating_inc(c.cursor.consecutive_failures) >= c.failure_threshold
            ==> completed(c, FetchOutcome::Failed(e), now).phase == CachePhase::Degraded,
{
}

impl RegistryCache {
    /// Every snapshot the cache holds has unique identifiers.
    pub open spec fn wf(&self) -> bool {
        self.snapshot matches Some(s) ==> s.wf()
    }

    pub open spec fn health_of(&self) -> Health {
        if self.snapshot is None {
            Health::Starting
        } else if self.phase == CachePhase::Degraded {
            Health::Degraded
        } else {
            Health::Ready
        }
    }

    /// An empty cache that turns `Degraded` after `failure_threshold`
    /// refreshes fail in a row.
    pub fn new(failure_threshold: u64) -> (r: RegistryCache)
        ensures
            r.wf(),
            r == (RegistryCache {
                phase: CachePhase::Uninitialized,
                snapshot: None,
                cursor: RefreshCursor { last_success: None, consecutive_failures: 0 },
                failure_threshold,
                in_flight: false,
            }),
    {
        RegistryCache {
            phase: CachePhase::Uninitialized,
            snapshot: None,
            cursor: RefreshCursor { last_success: None, consecutive_failures: 0 },
            failure_threshold,
            in_flight: false,
        }
    }

    /// Marks a refresh as started. Returns false, changing nothing, when one
    /// is already in flight.
    pub fn begin_refresh(&mut self) -> (started: bool)
        ensures
            started == !old(self).in_flight,
            *final(self) == begun(*old(self)),
    {
        if self.in_flight {
            return false;
        }
        self.phase = match self.phase {
            CachePhase::Uninitialized => CachePhase::Warming,
            CachePhase::Ready => CachePhase::Refreshing,
            other => other,
        };
        self.in_flight = true;
        true
    }

    fn note_failure(&mut self)
        ensures
            *final(self) == failed(*old(self)),
    {
        let failures = if self.cursor.consecutive_failures < u64::MAX {
            self.cursor.consecutive_failures + 1
        } else {
            self.cursor.consecutive_failures
        };
        self.cursor.consecutive_failures = failures;
        self.phase = if self.snapshot.is_none() {
            CachePhase::Warming
        } else if failures >= self.failure_threshold {
            CachePhase::Degraded
        } else {
            CachePhase::Ready
        };
        self.in_flight = false;
    }

    /// Applies the result of a refresh at time `now`. A fresh snapshot is
    /// installed whole; otherwise the current one stays.
    pub fn complete_refresh(&mut self, outcome: FetchOutcome, now: u64)
        requires
            old(self).wf(),
            outcome matches FetchOutcome::Fresh(s) ==> s.wf(),
        ensures
            final(self).wf(),
            *final(self) == completed(*old(self), outcome, now),
    {
        match outcome {
            FetchOutcome::Fresh(s) => {
                self.snapshot = Some(s);
                self.phase = CachePhase::Ready;
                self.cursor = RefreshCursor { last_success: Some(now), consecutive_failures: 0 };
                self.in_flight = false;
            },
            FetchOutcome::NotModified => {
                if self.snapshot.is_some() {
                    self.phase = CachePhase::Ready;
                    self.cursor = RefreshCursor { last_success: Some(now), consecutive_failures: 0 };
                    self.in_flight = false;
                } else {
                    self.note_failure();
                }
            },
            FetchOutcome::Failed(_) => {
                self.note_failure();
            },
        }
    }

    /// Handles a failed fetch attempt of the refresh in flight: asks for a
    /// retry while `policy` allows one, and otherwise completes the refresh
    /// as failed. `jitter` is a random draw supplied by the caller.
    pub fn on_fetch_error(&mut self, policy: &RetryPolicy, attempts_made: u32, err: FetchError, jitter: u64, now: u64) -> (r: RetryDecision)
        requires
            old(self).wf(),
            attempts_made >= 1,
        ensures
            final(self).wf(),
            r == policy.decision(attempts_made, err, jitter),
            r is RetryAfter ==> *final(self) == *old(self),
            r is GiveUp ==> *final(self) == completed(*old(self), FetchOutcome::Failed(err), now),
    {
        let d = policy.decide(attempts_made, err, jitter);
        if let RetryDecision::GiveUp(_) = d {
            self.complete_refresh(FetchOutcome::Failed(err), now);
        }
        d
    }

    /// The snapshot requests are served from; never waits on a refresh.
    pub fn current_snapshot(&self) -> (r: Option<&RegistrySnapshot>)
        ensures
            r is None <==> self.snapshot is None,
            r matches Some(s) ==> self.snapshot == Some(*s),
    {
        self.snapshot.as_ref()
    }

    /// Whether the cache has ever held registry data.
    pub fn is_ready(&self) -> (r: bool)
        ensures
            r == self.snapshot is Some,
    {
        self.snapshot.is_some()
    }

    pub fn health(&self) -> (r: Health)
        ensures
            r == self.health_of(),
    {
        if self.snapshot.is_none() {
            Health::Starting
        } else if self.phase == CachePhase::Degraded {
            Health::Degraded
        } else {
            Health::Ready
        }
    }

    /// The version token to send with the next conditional fetch.
    pub fn version_token(&self) -> (r: Option<&str>)
        ensures
            r is None <==> self.snapshot is None,
            r matches Some(v) ==> self.snapshot matches Some(s) && v@ == s.version@,
    {
        match &self.snapshot {
            Some(s) => Some(s.version_token()),
            None => None,
        }
    }
}

} // verus!
