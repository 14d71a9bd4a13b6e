use vstd::prelude::*;
use crate::cache::saturating_inc;
use crate::client::{FetchError, RetryDecision, RetryPolicy};

verus! {

/// Sampling rates are given in parts per million.
pub const SAMPLE_SCALE: u32 = 1000000;

/// How a request ended.
#[derive(Debug)]
pub enum RequestOutcome {
    Success,
    /// Failed, with the class of the error.
    Error(String),
}

/// One `(type, field)` pair that a request touched.
#[derive(Debug)]
pub struct FieldRef {
    pub parent_type: String,
    pub field_name: String,
}

/// The record of one completed request.
#[derive(Debug)]
pub struct UsageEvent {
    pub operation_id: String,
    pub operation_name: Option<String>,
    pub fields: Vec<FieldRef>,
    pub client: Option<String>,
    pub timestamp: u64,
    pub duration_ms: u64,
    pub outcome: RequestOutcome,
}

/// The events taken out of the buffer by one flush, to be submitted.
#[derive(Debug)]
pub struct UsageBatch {
    pub events: Vec<UsageEvent>,
}

#[derive(Clone, Copy, Debug, PartialEq, Eq, Structural)]
pub struct ReporterConfig {
    /// Most events the buffer holds; further ones are dropped and counted.
    pub capacity: usize,
    /// Buffer length at which a flush is due.
    pub flush_threshold: usize,
    /// Time between flushes, in the unit of the timestamps given.
    pub flush_interval: u64,
    /// Share of events kept, in parts per million.
    pub sample_rate: u32,
}

/// Counters for observability.
#[derive(Clone, Copy, Debug, PartialEq, Eq, Structural)]
pub struct ReporterCounts {
    pub dropped: u64,
    pub sampled_out: u64,
    pub flushed: u64,
    pub lost_batches: u64,
}

/// What became of one recorded event.
#[derive(Clone, Copy, Debug, PartialEq, Eq, Structural)]
pub enum RecordResult {
    Buffered,
    /// The buffer was full: the event was dropped and counted.
    Dropped,
    /// Left out by sampling.
    SampledOut,
    /// The reporter has shut down and takes no more events.
    Closed,
}

/// The reporter as a value: its buffer and its bookkeeping.
pub struct ReporterView {
    pub buffer: Seq<UsageEvent>,
    pub config: ReporterConfig,
    pub last_flush: u64,
    pub counts: ReporterCounts,
    pub closed: bool,
}

/// Buffers usage events between flushes, never beyond its capacity.
pub struct UsageReporter {
    buffer: Vec<UsageEvent>,
    config: ReporterConfig,
    last_flush: u64,
    counts: ReporterCounts,
    closed: bool,
}

impl View for UsageReporter {
    type V = ReporterView;

    closed spec fn view(&self) -> ReporterView {
        ReporterView {
            buffer: self.buffer@,
            config: self.config,
            last_flush: self.last_flush,
            counts: self.counts,
            closed: self.closed,
        }
    }
}

pub open spec fn add_sat(n: u64, k: nat) -> u64 {
    if n + k <= u64::MAX { (n + k) as u64 } else { u64::MAX }
}

impl ReporterView {
    pub open spec fn wf(self) -> bool {
        self.buffer.len() <= self.config.capacity
    }

    /// The state after `record(e)`: appended while there is room, else
    /// dropped and counted; unchanged once shut down.
    pub open spec fn recorded(self, e: UsageEvent) -> ReporterView {
        if self.closed {
            self
        } else if self.buffer.len() < self.config.capacity {
            ReporterView { buffer: self.buffer.push(e), ..self }
        } else {
            ReporterView { counts: ReporterCounts { dropped: saturating_inc(self.counts.dropped), ..self.counts }, ..self }
        }
    }

    /// The state after recording each of `es` in order.
    pub open spec fn recorded_all(self, es: Seq<UsageEvent>) -> ReporterView
        decreases es.len(),
    {
        if es.len() == 0 {
            self
        } else {
            self.recorded_all(es.drop_last()).recorded(es.last())
        }
    }

    /// The state after a flush at `now`; the batch taken is `self.buffer`.
    pub open spec fn flushed(self, now: u64) -> ReporterView {
        ReporterView {
            buffer: Seq::empty(),
            last_flush: now,
            counts: ReporterCounts { flushed: add_sat(self.counts.flushed, self.buffer.len()), ..self.counts },
            ..self
        }
    }

    pub open spec fn flush_due(self, now: u64) -> bool {
        self.buffer.len() >= self.config.flush_threshold
            || (now >= self.last_flush && now - self.last_flush >= self.config.flush_interval)
    }
}

pub open spec fn sampled_in(rate: u32, draw: u32) -> bool {
    draw % SAMPLE_SCALE < rate
}

impl UsageReporter {
    pub open spec fn wf(&self) -> bool {
        self@.wf()
    }

    /// An empty reporter whose last flush is taken to be at `now`.
    pub fn new(config: ReporterConfig, now: u64) -> (r: UsageReporter)
        ensures
            r.wf(),
            r@.buffer.len() == 0,
            r@.config == config,
            r@.last_flush == now,
            r@.counts == (ReporterCounts { dropped: 0, sampled_out: 0, flushed: 0, lost_batches: 0 }),
            !r@.closed,
    {
        UsageReporter {
            buffer: Vec::new(),
            config,
            last_flush: now,
            counts: ReporterCounts { dropped: 0, sampled_out: 0, flushed: 0, lost_batches: 0 },
            closed: false,
        }
    }

    /// Buffers `e` when there is room; otherwise drops it and counts the
    /// drop. Never blocks and never grows the buffer beyond its capacity.
    pub fn record(&mut self, e: UsageEvent) -> (r: RecordResult)
        requires
            old(self).wf(),
        ensures
            final(self).wf(),
            final(self)@ == old(self)@.recorded(e),
            r == (if old(self)@.closed {
                RecordResult::Closed
            } else if old(self)@.buffer.len() < old(self)@.config.capacity {
                RecordResult::Buffered
            } else {
                RecordResult::Dropped
            }),
    {
        if self.closed {
            RecordResult::Closed
        } else if self.buffer.len() < self.config.capacity {
            self.buffer.push(e);
            RecordResult::Buffered
        } else {
            self.counts.dropped = self.counts.dropped.saturating_add(1);
            proof {
                assert(self@.buffer =~= old(self)@.buffer);
            }
            RecordResult::Dropped
        }
    }

    /// Records `e` if the sampling draw `draw` (a random number supplied
    /// by the caller) falls within the configured rate.
    pub fn record_sampled(&mut self, e: UsageEvent, draw: u32) -> (r: RecordResult)
        requires
            old(self).wf(),
        ensures
            final(self).wf(),
            sampled_in(old(self)@.config.sample_rate, draw) ==> final(self)@ == old(self)@.recorded(e)
                && r != RecordResult::SampledOut,
            !sampled_in(old(self)@.config.sample_rate, draw) ==> r == RecordResult::SampledOut
                && final(self)@ == (ReporterView {
                    counts: ReporterCounts { sampled_out: saturating_inc(old(self)@.counts.sampled_out), ..old(self)@.counts },
                    ..old(self)@
                }),
    {
        if draw % SAMPLE_SCALE < self.config.sample_rate {
            self.record(e)
        } else {
            self.counts.sampled_out = self.counts.sampled_out.saturating_add(1);
            RecordResult::SampledOut
        }
    }

    /// Whether a flush is due at `now`: the buffer reached its threshold,
    /// or the interval has passed since the last flush.
    pub fn should_flush(&self, now: u64) -> (r: bool)
        ensures
            r == self@.flush_due(now),
    {
        self.buffer.len() >= self.config.flush_threshold
            || (now >= self.last_flush && now - self.last_flush >= self.config.flush_interval)
    }

    /// Swaps the buffer for an empty one and hands out what it held.
    pub fn flush(&mut self, now: u64) -> (batch: UsageBatch)
        requires
            old(self).wf(),
        ensures
            final(self).wf(),
            batch.events@ == old(self)@.buffer,
            final(self)@ == old(self)@.flushed(now),
    {
        let mut taken: Vec<UsageEvent> = Vec::new();
        std::mem::swap(&mut self.buffer, &mut taken);
        let n = taken.len() as u64;
        self.counts.flushed = self.counts.flushed.saturating_add(n);
        self.last_flush = now;
        proof {
            assert(self@.buffer =~= Seq::<UsageEvent>::empty());
        }
        UsageBatch { events: taken }
    }

    /// Stops taking events and hands out what is buffered, for one last
    /// submission.
    pub fn shutdown(&mut self, now: u64) -> (batch: UsageBatch)
        requires
            old(self).wf(),
        ensures
            final(self).wf(),
            batch.events@ == old(self)@.buffer,
            final(self)@ == (ReporterView { closed: true, ..old(self)@.flushed(now) }),
    {
        self.closed = true;
        self.flush(now)
    }

    /// Counts a batch given up on after its submission failed.
    pub fn note_batch_lost(&mut self)
        ensures
            final(self)@ == (ReporterView {
                counts: ReporterCounts { lost_batches: saturating_inc(old(self)@.counts.lost_batches), ..old(self)@.counts },
                ..old(self)@
            }),
    {
        self.counts.lost_batches = self.counts.lost_batches.saturating_add(1);
    }

    /// Handles a failed submission of a batch: asks for a retry while
    /// `policy` allows one, and otherwise gives the batch up and counts it.
    pub fn on_submit_error(&mut self, policy: &RetryPolicy, attempts_made: u32, err: FetchError, jitter: u64) -> (r: RetryDecision)
        requires
            attempts_made >= 1,
        ensures
            r == policy.decision(attempts_made, err, jitter),
            r is RetryAfter ==> final(self)@ == old(self)@,
            r is GiveUp ==> final(self)@ == (ReporterView {
                counts: ReporterCounts { lost_batches: saturating_inc(old(self)@.counts.lost_batches), ..old(self)@.counts },
                ..old(self)@
            }),
    {
        let d = policy.decide(attempts_made, err, jitter);
        if let RetryDecision::GiveUp(_) = d {
            self.note_batch_lost();
        }
        d
    }

    pub fn len(&self) -> (r: usize)
        ensures
            r == self@.buffer.len(),
    {
        self.buffer.len()
    }

    pub fn counts(&self) -> (r: ReporterCounts)
        ensures
            r == self@.counts,
    {
        self.counts
    }

    pub fn config(&self) -> (r: ReporterConfig)
        ensures
            r == self@.config,
    {
        self.config
    }
}

} // verus!

verus! {

/// An event recorded and then flushed is in that one batch, exactly as it
/// was given, one more time than before, and the buffer left behind is
/// empty; or, when the buffer was full, it is in no batch and the drop
/// count went up by exactly one.
pub proof fn lemma_record_flush_round_trip(v: ReporterView, e: UsageEvent, now: u64)
    requires
        v.wf(),
        !v.closed,
        v.counts.dropped < u64::MAX,
    ensures
        v.buffer.len() < v.config.capacity ==> {
            &&& v.recorded(e).buffer == v.buffer.push(e)
            &&& v.recorded(e).buffer.last() == e
            &&& v.recorded(e).buffer.to_multiset().count(e) == v.buffer.to_multiset().count(e) + 1
            &&& v.recorded(e).flushed(now).buffer.len() == 0
            &&& v.recorded(e).counts.dropped == v.counts.dropped
        },
        v.buffer.len() >= v.config.capacity ==> {
            &&& v.recorded(e).buffer == v.buffer
            &&& v.recorded(e).counts.dropped == v.counts.dropped + 1
        },
{
    broadcast use vstd::seq_lib::to_multiset_build;
    if v.buffer.len() < v.config.capacity {
        assert(v.buffer.push(e).to_multiset() =~= v.buffer.to_multiset().insert(e));
    }
}

/// At exactly full capacity, a further record leaves the buffer as it was.
pub proof fn lemma_full_buffer_unchanged(v: ReporterView, e: UsageEvent)
    requires
        v.buffer.len() == v.config.capacity,
        !v.closed,
    ensures
        v.recorded(e).buffer == v.buffer,
        v.recorded(e).buffer.len() == v.config.capacity,
        v.recorded(e).counts.dropped == saturating_inc(v.counts.dropped),
{
}

/// Recording a run of events keeps the first ones that fit, in order, and
/// counts each of the others as dropped.
pub proof fn lemma_recorded_all(v: ReporterView, es: Seq<UsageEvent>)
    requires
        v.wf(),
        !v.closed,
        v.counts.dropped + es.len() <= u64::MAX,
    ensures
        v.recorded_all(es).wf(),
        v.buffer.len() + es.len() <= v.config.capacity ==> v.recorded_all(es).buffer == v.buffer + es,
        v.buffer.len() + es.len() <= v.config.capacity ==> v.recorded_all(es).counts.dropped == v.counts.dropped,
        v.buffer.len() + es.len() > v.config.capacity ==> {
            &&& v.recorded_all(es).buffer == v.buffer + es.take(v.config.capacity - v.buffer.len())
            &&& v.recorded_all(es).counts.dropped == v.counts.dropped + v.buffer.len() + es.len() - v.config.capacity
        },
        v.recorded_all(es).config == v.config,
        v.recorded_all(es).closed == v.closed,
    decreases es.len(),
{
    if es.len() > 0 {
        let prefix = es.drop_last();
        lemma_recorded_all(v, prefix);
        let w = v.recorded_all(prefix);
        if v.buffer.len() + es.len() <= v.config.capacity {
            assert(w.buffer.push(es.last()) =~= v.buffer + es);
        } else if v.buffer.len() + prefix.len() == v.config.capacity {
            assert(es.take(v.config.capacity - v.buffer.len()) =~= prefix);
        } else {
            assert(es.take(v.config.capacity - v.buffer.len()) =~= prefix.take(v.config.capacity - v.buffer.len()));
        }
    }
}

/// With a flush between records, and room for them all, every event ends
/// up either in the flushed batch or in the buffer after it, once, in the
/// order recorded.
pub proof fn lemma_flush_between_records(v: ReporterView, es: Seq<UsageEvent>, k: int, now: u64)
    requires
        v.wf(),
        v.buffer.len() == 0,
        !v.closed,
        0 <= k <= es.len(),
        es.len() <= v.config.capacity,
        v.counts.dropped + es.len() <= u64::MAX,
    ensures
        v.recorded_all(es.take(k)).buffer + v.recorded_all(es.take(k)).flushed(now).recorded_all(es.skip(k)).buffer
            == es,
        v.recorded_all(es.take(k)).flushed(now).recorded_all(es.skip(k)).counts.dropped == v.counts.dropped,
{
    lemma_recorded_all(v, es.take(k));
    let w = v.recorded_all(es.take(k)).flushed(now);
    lemma_recorded_all(w, es.skip(k));
    assert(v.buffer + es.take(k) =~= es.take(k));
    assert(w.buffer + es.skip(k) =~= es.skip(k));
    assert(es.take(k) + es.skip(k) =~= es);
}

} // verus!
