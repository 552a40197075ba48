//! The bounded-retry reconnect policy: a counter of consecutive transport
//! failures, reset by a successful stream open, with an exhaustion bound.
//!
//! The spec functions here fold a transcript of stream events into the
//! retry count and the exhaustion verdict; the lemmas state the laws the
//! policy obeys over every transcript.

use vstd::prelude::*;

verus! {

/// One observation handed to the ingestion loop by the transport.
#[derive(Clone, Debug)]
pub enum StreamEvent {
    /// A connection attempt failed before the stream began.
    ConnectFailed,
    /// A stream began delivering bytes (a successful open).
    Opened,
    /// One received body chunk.
    Chunk(Vec<u8>),
    /// A mid-stream transport error.
    ChunkError,
    /// The remote peer closed the stream cleanly.
    Closed,
}

/// The events that count as transport failures: a failed connect, a
/// mid-stream error, and a clean close (the loop always tries to resume).
pub open spec fn is_failure_event(e: StreamEvent) -> bool {
    e is ConnectFailed || e is ChunkError || e is Closed
}

/// The consecutive transport failures at the end of a transcript: failures
/// since the last successful open. Chunks leave the count unchanged.
pub open spec fn failures_since_open(events: Seq<StreamEvent>) -> nat
    decreases events.len(),
{
    if events.len() == 0 {
        0
    } else if events.last() is Opened {
        0
    } else if is_failure_event(events.last()) {
        failures_since_open(events.drop_last()) + 1
    } else {
        failures_since_open(events.drop_last())
    }
}

/// Whether a transcript drives the policy into the exhausted state: at
/// some point the consecutive failures reach `max`.
pub open spec fn exhausts(events: Seq<StreamEvent>, max: nat) -> bool
    decreases events.len(),
{
    if events.len() == 0 {
        false
    } else {
        exhausts(events.drop_last(), max) || (is_failure_event(events.last())
            && failures_since_open(events) >= max)
    }
}

/// The retry state: how many consecutive transport failures have happened,
/// against the configured bound.
pub struct ReconnectPolicy {
    retry_count: u64,
    max_retries: u64,
}

impl ReconnectPolicy {
    /// The consecutive transport failures counted so far.
    pub closed spec fn retry_count(&self) -> nat {
        self.retry_count as nat
    }

    /// The bound on consecutive failures.
    pub closed spec fn max_retries(&self) -> nat {
        self.max_retries as nat
    }

    /// The counter never runs past the bound, and the bound leaves room
    /// to count one more failure.
    pub open spec fn wf(&self) -> bool {
        1 <= self.max_retries() && self.max_retries() < u64::MAX && self.retry_count()
            <= self.max_retries()
    }

    /// A fresh policy: no failure counted yet.
    pub fn new(max_retries: u64) -> (r: Self)
        requires
            1 <= max_retries < u64::MAX,
        ensures
            r.wf(),
            r.retry_count() == 0,
            r.max_retries() == max_retries,
    {
        ReconnectPolicy { retry_count: 0, max_retries }
    }

    /// A successful stream open resets the counter, independent of whether
    /// any data frame has yet been decoded.
    pub fn record_success(&mut self)
        requires
            old(self).wf(),
        ensures
            final(self).wf(),
            final(self).retry_count() == 0,
            final(self).max_retries() == old(self).max_retries(),
    {
        self.retry_count = 0;
    }

    /// Counts one transport failure.
    pub fn record_failure(&mut self)
        requires
            old(self).wf(),
            old(self).retry_count() < old(self).max_retries(),
        ensures
            final(self).wf(),
            final(self).retry_count() == old(self).retry_count() + 1,
            final(self).max_retries() == old(self).max_retries(),
    {
        self.retry_count = self.retry_count + 1;
    }

    /// Whether the bound is reached: no further automatic attempt is made.
    pub fn is_exhausted(&self) -> (r: bool)
        ensures
            r == (self.retry_count() >= self.max_retries()),
    {
        self.retry_count >= self.max_retries
    }
}

/// The count of failure events in a transcript.
pub open spec fn failure_count(events: Seq<StreamEvent>) -> nat
    decreases events.len(),
{
    if events.len() == 0 {
        0
    } else {
        failure_count(events.drop_last()) + if is_failure_event(events.last()) {
            1 as nat
        } else {
            0 as nat
        }
    }
}

/// Without a successful open, the consecutive failures are all the failures.
proof fn lemma_no_open_failures(events: Seq<StreamEvent>)
    requires
        forall|i: int| 0 <= i < events.len() ==> !(#[trigger] events[i] is Opened),
    ensures
        failures_since_open(events) == failure_count(events),
    decreases events.len(),
{
    if events.len() > 0 {
        assert(events.last() == events[events.len() - 1]);
        assert(forall|i: int|
            0 <= i < events.drop_last().len() ==> #[trigger] events.drop_last()[i] == events[i]);
        lemma_no_open_failures(events.drop_last());
    }
}

/// A transcript with no successful open exhausts the policy exactly when
/// it holds at least `max` transport failures. With `max` failures the
/// loop gives up; with fewer it does not.
pub proof fn lemma_failures_without_open_exhaust(events: Seq<StreamEvent>, max: nat)
    requires
        1 <= max,
        forall|i: int| 0 <= i < events.len() ==> !(#[trigger] events[i] is Opened),
    ensures
        exhausts(events, max) <==> failure_count(events) >= max,
    decreases events.len(),
{
    if events.len() > 0 {
        assert(forall|i: int|
            0 <= i < events.drop_last().len() ==> #[trigger] events.drop_last()[i] == events[i]);
        lemma_failures_without_open_exhaust(events.drop_last(), max);
        lemma_no_open_failures(events);
        lemma_no_open_failures(events.drop_last());
        if !is_failure_event(events.last()) {
            assert(failure_count(events) == failure_count(events.drop_last()));
        }
    }
}

/// After a transcript ending in a successful open, the consecutive
/// failures are those of the continuation alone.
proof fn lemma_failures_after_open(prefix: Seq<StreamEvent>, rest: Seq<StreamEvent>)
    requires
        prefix.len() > 0,
        prefix.last() is Opened,
    ensures
        failures_since_open(prefix + rest) == failures_since_open(rest),
    decreases rest.len(),
{
    if rest.len() == 0 {
        assert(prefix + rest =~= prefix);
    } else {
        let all = prefix + rest;
        assert(all.len() > 0);
        assert(all.last() == rest.last());
        assert(all.drop_last() =~= prefix + rest.drop_last());
        lemma_failures_after_open(prefix, rest.drop_last());
    }
}

/// Exhaustion is final: a transcript whose prefix exhausts the policy
/// exhausts it as a whole.
pub proof fn lemma_exhausts_prefix(events: Seq<StreamEvent>, i: int, max: nat)
    requires
        0 <= i <= events.len(),
        exhausts(events.take(i), max),
    ensures
        exhausts(events, max),
    decreases events.len() - i,
{
    if i == events.len() {
        assert(events.take(i) =~= events);
    } else {
        assert(events.take(i + 1).drop_last() =~= events.take(i));
        lemma_exhausts_prefix(events, i + 1, max);
    }
}

/// How much of a transcript the ingestion loop consumes: all of it, or,
/// when some prefix exhausts the policy, the shortest prefix that does.
pub open spec fn stop_len(events: Seq<StreamEvent>, max: nat) -> nat
    decreases events.len(),
{
    if !exhausts(events, max) {
        events.len()
    } else if exhausts(events.drop_last(), max) {
        stop_len(events.drop_last(), max)
    } else {
        events.len()
    }
}

/// The prefix at which exhaustion first holds is where the loop stops.
pub proof fn lemma_stop_len_at(events: Seq<StreamEvent>, i: int, max: nat)
    requires
        0 < i <= events.len(),
        exhausts(events.take(i), max),
        !exhausts(events.take(i - 1), max),
    ensures
        stop_len(events, max) == i,
    decreases events.len(),
{
    lemma_exhausts_prefix(events, i, max);
    if i == events.len() {
        assert(events.take(i) =~= events);
        assert(events.take(i - 1) =~= events.drop_last());
    } else {
        let shorter = events.drop_last();
        assert(shorter.take(i) =~= events.take(i));
        assert(shorter.take(i - 1) =~= events.take(i - 1));
        lemma_exhausts_prefix(shorter, i, max);
        lemma_stop_len_at(shorter, i, max);
    }
}

/// A successful open between failures resets the retry counter: a
/// transcript split by an open exhausts the policy exactly when one of its
/// two halves does on its own.
pub proof fn lemma_open_resets_exhaustion(a: Seq<StreamEvent>, b: Seq<StreamEvent>, max: nat)
    requires
        1 <= max,
    ensures
        exhausts(a + seq![StreamEvent::Opened] + b, max) <==> exhausts(a, max) || exhausts(b, max),
    decreases b.len(),
{
    let mid = a + seq![StreamEvent::Opened];
    assert(mid.last() is Opened);
    if b.len() == 0 {
        assert(mid + b =~= mid);
        assert(mid.drop_last() =~= a);
        assert(!(is_failure_event(mid.last())));
    } else {
        let all = mid + b;
        assert(all.last() == b.last());
        assert(all.drop_last() =~= mid + b.drop_last());
        lemma_open_resets_exhaustion(a, b.drop_last(), max);
        lemma_failures_after_open(mid, b);
        assert(failures_since_open(all) == failures_since_open(b));
    }
}

} // verus!
