//! The client: owns the store, the notifier, the forwarding channel and the
//! reconnect policy, and folds stream events into them one at a time.
//!
//! The surrounding application performs the transport work (connecting,
//! awaiting chunks, sleeping through backoff) and hands each observation to
//! [`ConfigSdk::handle_event`], which decides everything else and answers
//! with the next action to take.

use vstd::prelude::*;

use crate::decoder::ServerConfig;
use crate::decoder::chunk_config;
use crate::decoder::decode_config;
use crate::decoder::chunk_to_chars;
use crate::errors::ConfigError;
use crate::frame::Frame;
use crate::frame::classify_frame;
use crate::policy::ReconnectPolicy;
use crate::policy::StreamEvent;
use crate::policy::exhausts;
use crate::policy::failures_since_open;
use crate::policy::is_failure_event;
use crate::policy::lemma_exhausts_prefix;
use crate::policy::lemma_stop_len_at;
use crate::policy::stop_len;
use crate::store::ConfigStore;
use crate::store::ForwardingChannel;
use crate::store::UpdateNotifier;
use crate::store::WaitHandle;
use crate::MAX_RETRIES;
use crate::BACKOFF_SECS;
use crate::DEFAULT_CHANNEL_CAPACITY;

verus! {

/// Where the connect–stream–parse cycle currently stands.
#[derive(Clone, Copy, Debug, PartialEq, Eq, Structural)]
pub enum ConnectionState {
    /// About to attempt a connection.
    Connecting,
    /// A stream is open and delivering chunks.
    Streaming,
    /// Waiting out the delay before the next attempt.
    Backoff,
    /// The retry bound was reached; no further attempt is made.
    Exhausted,
}

/// What the surrounding loop should do after an event was absorbed.
#[derive(Clone, Copy, Debug, PartialEq, Eq, Structural)]
pub enum Action {
    /// Keep delivering events from the current stream or attempt.
    Continue,
    /// Wait this many seconds, then attempt to reconnect.
    Backoff(u64),
    /// Give up: the retry bound is exhausted.
    Stop,
}

/// A successful stream open: streaming again, counter reset, and neither
/// the store, the wake count nor the forwarding buffer touched.
pub open spec fn opened_transition(pre: ConfigSdk, post: ConfigSdk, a: Action) -> bool {
    post.state() is Streaming && post.retry_count() == 0 && post.config() == pre.config()
        && post.signals() == pre.signals() && post.queued() == pre.queued() && a is Continue
}

/// A transport failure: one more consecutive retry counted, nothing else
/// touched, and then either a backoff delay or, at the bound, exhaustion.
pub open spec fn failure_transition(pre: ConfigSdk, post: ConfigSdk, a: Action) -> bool {
    post.retry_count() == pre.retry_count() + 1 && post.config() == pre.config()
        && post.signals() == pre.signals() && post.queued() == pre.queued() && (post.retry_count()
        >= post.max_retries() <==> post.state() is Exhausted) && (post.state() is Exhausted ==> a
        is Stop) && (!(post.state() is Exhausted) ==> post.state() is Backoff && a
        == Action::Backoff(BACKOFF_SECS))
}

/// The store now holds exactly `s`, one wake was signalled, and `s` was
/// offered to the forwarding channel, buffered only if it could accept.
pub open spec fn config_update(pre: ConfigSdk, post: ConfigSdk, s: Seq<(Seq<char>, Seq<char>)>) -> bool {
    post.config() == Some(s) && post.signals() == pre.signals() + 1 && (pre.can_forward()
        ==> post.queued() == pre.queued().push(s)) && (!pre.can_forward() ==> post.queued()
        == pre.queued())
}

/// A received chunk: while streaming, a decodable data frame updates the
/// configuration; any other chunk — malformed UTF-8, a comment, an
/// anomalous frame, a payload that does not decode — changes nothing and
/// never terminates the loop.
pub open spec fn chunk_transition(pre: ConfigSdk, post: ConfigSdk, bytes: Seq<u8>, a: Action) -> bool {
    post.state() == pre.state() && post.retry_count() == pre.retry_count() && a is Continue && (
    if pre.state() is Streaming {
        match chunk_config(bytes) {
            Some(s) => config_update(pre, post, s),
            None => post == pre,
        }
    } else {
        post == pre
    })
}

/// Whether a client that starts connecting is streaming after a
/// transcript: the last transport transition was a successful open.
pub open spec fn streaming_after(events: Seq<StreamEvent>) -> bool
    decreases events.len(),
{
    if events.len() == 0 {
        false
    } else {
        match events.last() {
            StreamEvent::Opened => true,
            StreamEvent::Chunk(_) => streaming_after(events.drop_last()),
            _ => false,
        }
    }
}

/// The cached configuration after a transcript: the settings of the last
/// chunk that decoded while streaming, or `init` when none did. Each
/// update replaces the previous value whole.
pub open spec fn config_after(
    events: Seq<StreamEvent>,
    init: Option<Seq<(Seq<char>, Seq<char>)>>,
) -> Option<Seq<(Seq<char>, Seq<char>)>>
    decreases events.len(),
{
    if events.len() == 0 {
        init
    } else {
        let prev = config_after(events.drop_last(), init);
        match events.last() {
            StreamEvent::Chunk(bytes) => if streaming_after(events.drop_last()) {
                match chunk_config(bytes@) {
                    Some(s) => Some(s),
                    None => prev,
                }
            } else {
                prev
            },
            _ => prev,
        }
    }
}

/// The first configuration a transcript decodes: the settings of the
/// earliest chunk that decodes while streaming, or nothing when none does.
pub open spec fn first_config(events: Seq<StreamEvent>) -> Option<Seq<(Seq<char>, Seq<char>)>>
    decreases events.len(),
{
    if events.len() == 0 {
        None
    } else if first_config(events.drop_last()) is Some {
        first_config(events.drop_last())
    } else {
        match events.last() {
            StreamEvent::Chunk(bytes) => if streaming_after(events.drop_last()) {
                chunk_config(bytes@)
            } else {
                None
            },
            _ => None,
        }
    }
}

/// Once a transcript has decoded a configuration, any extension still has
/// that same first configuration.
proof fn lemma_first_config_extends(events: Seq<StreamEvent>, i: int)
    requires
        0 <= i <= events.len(),
        first_config(events.take(i)) is Some,
    ensures
        first_config(events) == first_config(events.take(i)),
    decreases events.len() - i,
{
    if i == events.len() {
        assert(events.take(i) =~= events);
    } else {
        assert(events.take(i + 1).drop_last() =~= events.take(i));
        lemma_first_config_extends(events, i + 1);
    }
}

/// How many configuration updates a transcript applies: the chunks that
/// decode while streaming, each of which signals one wake.
pub open spec fn updates_in(events: Seq<StreamEvent>) -> nat
    decreases events.len(),
{
    if events.len() == 0 {
        0
    } else {
        updates_in(events.drop_last()) + match events.last() {
            StreamEvent::Chunk(bytes) => if streaming_after(events.drop_last()) && chunk_config(
                bytes@,
            ) is Some {
                1 as nat
            } else {
                0 as nat
            },
            _ => 0 as nat,
        }
    }
}

/// The forwarding buffer after a transcript: each applied update is pushed
/// while the channel is open and below its bound, and discarded otherwise.
pub open spec fn queued_after(
    events: Seq<StreamEvent>,
    q: Seq<Seq<(Seq<char>, Seq<char>)>>,
    cap: nat,
    closed: bool,
) -> Seq<Seq<(Seq<char>, Seq<char>)>>
    decreases events.len(),
{
    if events.len() == 0 {
        q
    } else {
        let prev = queued_after(events.drop_last(), q, cap, closed);
        match events.last() {
            StreamEvent::Chunk(bytes) => if streaming_after(events.drop_last()) {
                match chunk_config(bytes@) {
                    Some(s) => if !closed && prev.len() < cap {
                        prev.push(s)
                    } else {
                        prev
                    },
                    None => prev,
                }
            } else {
                prev
            },
            _ => prev,
        }
    }
}

/// A handle on one endpoint's live configuration mirror.
pub struct ConfigSdk {
    config_endpoint: String,
    store: ConfigStore,
    notifier: UpdateNotifier,
    channel: ForwardingChannel,
    policy: ReconnectPolicy,
    state: ConnectionState,
}

impl ConfigSdk {
    /// The connection state.
    pub closed spec fn state(&self) -> ConnectionState {
        self.state
    }

    /// Consecutive transport failures counted so far.
    pub closed spec fn retry_count(&self) -> nat {
        self.policy.retry_count()
    }

    /// The bound on consecutive transport failures.
    pub closed spec fn max_retries(&self) -> nat {
        self.policy.max_retries()
    }

    /// The cached configuration, if one has been decoded.
    pub closed spec fn config(&self) -> Option<Seq<(Seq<char>, Seq<char>)>> {
        self.store.slot_view()
    }

    /// How many update wakes have been signalled.
    pub closed spec fn signals(&self) -> nat {
        self.notifier.signals()
    }

    /// The updates buffered for the forwarding consumer, oldest first.
    pub closed spec fn queued(&self) -> Seq<Seq<(Seq<char>, Seq<char>)>> {
        self.channel.queued()
    }

    /// The forwarding channel's buffer bound.
    pub closed spec fn channel_cap(&self) -> nat {
        self.channel.cap()
    }

    /// Whether the forwarding consumer is gone.
    pub closed spec fn channel_closed(&self) -> bool {
        self.channel.is_closed()
    }

    /// Whether the forwarding channel would accept an update now.
    pub open spec fn can_forward(&self) -> bool {
        !self.channel_closed() && self.queued().len() < self.channel_cap()
    }

    /// The configured endpoint.
    pub closed spec fn endpoint_view(&self) -> Seq<char> {
        self.config_endpoint@
    }

    /// The policy counter is sound, and still has room unless exhausted.
    pub closed spec fn wf(&self) -> bool {
        self.policy.wf() && (!(self.state is Exhausted) ==> self.policy.retry_count()
            < self.policy.max_retries())
    }

    /// A fresh client for one endpoint: empty store, no wake signalled,
    /// empty forwarding buffer, default retry bound.
    pub fn new(config_endpoint: &str) -> (r: Self)
        ensures
            r.wf(),
            r.state() is Connecting,
            r.retry_count() == 0,
            r.max_retries() == MAX_RETRIES,
            r.config() is None,
            r.signals() == 0,
            r.queued().len() == 0,
            r.channel_cap() == DEFAULT_CHANNEL_CAPACITY,
            !r.channel_closed(),
            r.endpoint_view() == config_endpoint@,
    {
        Self::with_max_retries(config_endpoint, MAX_RETRIES)
    }

    /// A fresh client with a chosen bound on consecutive transport failures.
    pub fn with_max_retries(config_endpoint: &str, max_retries: u64) -> (r: Self)
        requires
            1 <= max_retries < u64::MAX,
        ensures
            r.wf(),
            r.state() is Connecting,
            r.retry_count() == 0,
            r.max_retries() == max_retries,
            r.config() is None,
            r.signals() == 0,
            r.queued().len() == 0,
            r.channel_cap() == DEFAULT_CHANNEL_CAPACITY,
            !r.channel_closed(),
            r.endpoint_view() == config_endpoint@,
    {
        ConfigSdk {
            config_endpoint: config_endpoint.to_owned(),
            store: ConfigStore::new(),
            notifier: UpdateNotifier::new(),
            channel: ForwardingChannel::new(DEFAULT_CHANNEL_CAPACITY),
            policy: ReconnectPolicy::new(max_retries),
            state: ConnectionState::Connecting,
        }
    }

    /// The configured endpoint, for the transport that opens connections.
    pub fn endpoint(&self) -> (r: &String)
        ensures
            r@ == self.endpoint_view(),
    {
        &self.config_endpoint
    }

    /// The connection state, for observation.
    pub fn current_state(&self) -> (s: ConnectionState)
        ensures
            s == self.state(),
    {
        self.state
    }

    /// The current snapshot: empty before the first successful decode, the
    /// most recently decoded configuration afterward, never a partial one.
    pub fn get_current_config(&self) -> (r: Option<ServerConfig>)
        ensures
            match r {
                Some(c) => self.config() == Some(c@),
                None => self.config() is None,
            },
    {
        self.store.read()
    }

    /// Registers a waiter for the next update wake.
    pub fn subscribe(&self) -> (h: WaitHandle)
        ensures
            h.seen() == self.signals(),
    {
        self.notifier.subscribe()
    }

    /// The wake count, for callers that must check it against its machine
    /// bound before handing over another event.
    pub fn signal_count(&self) -> (n: u64)
        ensures
            n as nat == self.signals(),
    {
        self.notifier.signal_count()
    }

    /// Whether an update wake has occurred since `h` registered.
    pub fn has_update(&self, h: &WaitHandle) -> (r: bool)
        ensures
            r == (self.signals() > h.seen()),
    {
        self.notifier.has_update(h)
    }

    /// Takes the oldest forwarded update, if any.
    pub fn try_recv(&mut self) -> (r: Option<ServerConfig>)
        ensures
            final(self).state() == old(self).state(),
            final(self).retry_count() == old(self).retry_count(),
            final(self).max_retries() == old(self).max_retries(),
            final(self).config() == old(self).config(),
            final(self).signals() == old(self).signals(),
            final(self).channel_cap() == old(self).channel_cap(),
            final(self).channel_closed() == old(self).channel_closed(),
            final(self).wf() == old(self).wf(),
            match r {
                Some(c) => old(self).queued().len() > 0 && c@ == old(self).queued()[0]
                    && final(self).queued() == old(self).queued().subrange(
                    1,
                    old(self).queued().len() as int,
                ),
                None => old(self).queued().len() == 0 && final(self).queued() == old(
                    self,
                ).queued(),
            },
    {
        self.channel.try_recv()
    }

    /// Marks the forwarding consumer as gone: later updates are discarded.
    pub fn close_channel(&mut self)
        ensures
            final(self).state() == old(self).state(),
            final(self).retry_count() == old(self).retry_count(),
            final(self).max_retries() == old(self).max_retries(),
            final(self).config() == old(self).config(),
            final(self).signals() == old(self).signals(),
            final(self).queued() == old(self).queued(),
            final(self).channel_closed(),
            final(self).wf() == old(self).wf(),
    {
        self.channel.close()
    }

    /// Absorbs one chunk received while streaming. A data frame whose
    /// payload decodes replaces the store, wakes the waiters and is offered
    /// to the forwarding channel; anything else changes nothing.
    fn process_chunk(&mut self, bytes: &Vec<u8>)
        requires
            old(self).wf(),
            old(self).signals() < u64::MAX,
            old(self).state() is Streaming,
        ensures
            final(self).wf(),
            final(self).state() == old(self).state(),
            final(self).retry_count() == old(self).retry_count(),
            final(self).max_retries() == old(self).max_retries(),
            final(self).channel_cap() == old(self).channel_cap(),
            final(self).channel_closed() == old(self).channel_closed(),
            final(self).endpoint_view() == old(self).endpoint_view(),
            match chunk_config(bytes@) {
                Some(s) => config_update(*old(self), *final(self), s),
                None => *final(self) == *old(self),
            },
    {
        let chars = match chunk_to_chars(bytes) {
            Some(c) => c,
            None => {
                return ;
            },
        };
        match classify_frame(&chars) {
            Frame::Data(payload) => {
                match decode_config(&payload) {
                    Ok(config) => {
                        let copy = config.clone();
                        let _delivered = self.channel.offer(copy);
                        self.store.write(config);
                        self.notifier.notify_waiters();
                    },
                    Err(_) => {},
                }
            },
            Frame::Comment => {},
            Frame::Anomalous => {},
        }
    }

    /// Runs the ingestion decisions over a transcript of transport
    /// observations, in order, and stops at exhaustion.
    ///
    /// Returns `Err(RetriesExhausted)` exactly when the transcript drives
    /// the consecutive-failure count to the bound; once it does, the
    /// remaining events are not looked at. Returns `Ok(())` when the
    /// transcript ends with the client still listening.
    #[verifier::loop_isolation(false)]
    pub fn listen_for_updates(&mut self, events: &Vec<StreamEvent>) -> (r: Result<
        (),
        ConfigError,
    >)
        requires
            old(self).wf(),
            old(self).state() is Connecting,
            old(self).retry_count() == 0,
            old(self).signals() + events@.len() <= u64::MAX,
        ensures
            final(self).wf(),
            final(self).max_retries() == old(self).max_retries(),
            final(self).channel_cap() == old(self).channel_cap(),
            final(self).channel_closed() == old(self).channel_closed(),
            r is Err <==> exhausts(events@, old(self).max_retries()),
            r matches Err(e) ==> e is RetriesExhausted && final(self).state() is Exhausted,
            r is Ok ==> final(self).config() == config_after(events@, old(self).config())
                && final(self).signals() == old(self).signals() + updates_in(events@)
                && final(self).queued() == queued_after(
                events@,
                old(self).queued(),
                old(self).channel_cap(),
                old(self).channel_closed(),
            ),
            r is Err ==> ({
                let consumed = events@.take(
                    stop_len(events@, old(self).max_retries()) as int,
                );
                final(self).config() == config_after(consumed, old(self).config())
                    && final(self).signals() == old(self).signals() + updates_in(consumed)
                    && final(self).queued() == queued_after(
                    consumed,
                    old(self).queued(),
                    old(self).channel_cap(),
                    old(self).channel_closed(),
                )
            }),
    {
        let ghost max = old(self).max_retries();
        let ghost sig0 = old(self).signals();
        let ghost q0 = old(self).queued();
        let ghost cap0 = old(self).channel_cap();
        let ghost closed0 = old(self).channel_closed();
        let mut i: usize = 0;
        proof {
            assert(events@.take(0) =~= Seq::<StreamEvent>::empty());
        }
        while i < events.len()
            invariant
                i <= events@.len(),
                self.wf(),
                self.max_retries() == max,
                self.signals() <= sig0 + i,
                sig0 + events@.len() <= u64::MAX,
                !(self.state() is Exhausted),
                !exhausts(events@.take(i as int), max),
                self.retry_count() == failures_since_open(events@.take(i as int)),
                (self.state() is Streaming) == streaming_after(events@.take(i as int)),
                self.config() == config_after(events@.take(i as int), old(self).config()),
                self.signals() == sig0 + updates_in(events@.take(i as int)),
                self.queued() == queued_after(events@.take(i as int), q0, cap0, closed0),
                self.channel_cap() == cap0,
                self.channel_closed() == closed0,
            decreases events@.len() - i,
        {
            let event = &events[i];
            let a = self.handle_event(event);
            i += 1;
            proof {
                assert(events@.take(i as int).drop_last() =~= events@.take(i - 1));
                assert(events@.take(i as int).last() == events@[i - 1]);
            }
            match a {
                Action::Stop => {
                    proof {
                        lemma_exhausts_prefix(events@, i as int, max);
                        lemma_stop_len_at(events@, i as int, max);
                    }
                    return Err(ConfigError::RetriesExhausted);
                },
                _ => {},
            }
        }
        proof {
            assert(events@.take(i as int) =~= events@);
        }
        Ok(())
    }

    /// The single-shot mode: runs the same ingestion decisions, but
    /// returns as soon as the first configuration is decoded.
    ///
    /// Returns that configuration, `Err(RetriesExhausted)` when the
    /// failure bound is reached first, or `Err(NoConfigReceived)` when the
    /// transcript ends before any data frame decodes.
    #[verifier::loop_isolation(false)]
    pub fn wait_for_first_config(&mut self, events: &Vec<StreamEvent>) -> (r: Result<
        ServerConfig,
        ConfigError,
    >)
        requires
            old(self).wf(),
            old(self).state() is Connecting,
            old(self).retry_count() == 0,
            old(self).config() is None,
            old(self).signals() + events@.len() <= u64::MAX,
        ensures
            final(self).wf(),
            match r {
                Ok(c) => final(self).config() == Some(c@) && first_config(events@) == Some(c@),
                Err(e) => (e is RetriesExhausted || e is NoConfigReceived) && final(self).config()
                    is None && (e is RetriesExhausted ==> exhausts(events@, old(self).max_retries())
                    && final(self).state() is Exhausted) && (e is NoConfigReceived ==> !exhausts(
                    events@,
                    old(self).max_retries(),
                ) && first_config(events@) is None && config_after(events@, None) is None),
            },
    {
        let ghost max = old(self).max_retries();
        let ghost sig0 = old(self).signals();
        let mut i: usize = 0;
        proof {
            assert(events@.take(0) =~= Seq::<StreamEvent>::empty());
        }
        while i < events.len()
            invariant
                i <= events@.len(),
                self.wf(),
                self.max_retries() == max,
                self.signals() <= sig0 + i,
                sig0 + events@.len() <= u64::MAX,
                !(self.state() is Exhausted),
                !exhausts(events@.take(i as int), max),
                self.retry_count() == failures_since_open(events@.take(i as int)),
                (self.state() is Streaming) == streaming_after(events@.take(i as int)),
                self.config() == config_after(events@.take(i as int), None),
                self.config() is None,
                first_config(events@.take(i as int)) is None,
            decreases events@.len() - i,
        {
            let event = &events[i];
            let a = self.handle_event(event);
            i += 1;
            proof {
                assert(events@.take(i as int).drop_last() =~= events@.take(i - 1));
                assert(events@.take(i as int).last() == events@[i - 1]);
            }
            match a {
                Action::Stop => {
                    proof {
                        lemma_exhausts_prefix(events@, i as int, max);
                    }
                    return Err(ConfigError::RetriesExhausted);
                },
                _ => {},
            }
            match self.get_current_config() {
                Some(c) => {
                    proof {
                        assert(first_config(events@.take(i as int)) == Some(c@));
                        lemma_first_config_extends(events@, i as int);
                    }
                    return Ok(c);
                },
                None => {},
            }
        }
        proof {
            assert(events@.take(i as int) =~= events@);
        }
        Err(ConfigError::NoConfigReceived)
    }

    /// Folds one transport observation into the client.
    ///
    /// A successful open resets the retry counter. A transport failure —
    /// a failed connect, a mid-stream error, or a clean close — counts one
    /// retry and either backs off or, at the bound, exhausts the policy.
    /// A chunk received while streaming may update the store; a malformed
    /// one changes nothing and never terminates the loop.
    pub fn handle_event(&mut self, event: &StreamEvent) -> (a: Action)
        requires
            old(self).wf(),
            old(self).signals() < u64::MAX,
        ensures
            final(self).wf(),
            final(self).max_retries() == old(self).max_retries(),
            final(self).channel_cap() == old(self).channel_cap(),
            final(self).channel_closed() == old(self).channel_closed(),
            final(self).endpoint_view() == old(self).endpoint_view(),
            old(self).state() is Exhausted ==> *final(self) == *old(self) && a is Stop,
            !(old(self).state() is Exhausted) && *event is Opened ==> opened_transition(
                *old(self),
                *final(self),
                a,
            ),
            !(old(self).state() is Exhausted) && is_failure_event(*event) ==> failure_transition(
                *old(self),
                *final(self),
                a,
            ),
            match *event {
                StreamEvent::Chunk(bytes) => !(old(self).state() is Exhausted)
                    ==> chunk_transition(*old(self), *final(self), bytes@, a),
                _ => true,
            },
    {
        match self.state {
            ConnectionState::Exhausted => Action::Stop,
            _ => {
                match event {
                    StreamEvent::Opened => {
                        self.policy.record_success();
                        self.state = ConnectionState::Streaming;
                        Action::Continue
                    },
                    StreamEvent::ConnectFailed | StreamEvent::ChunkError | StreamEvent::Closed => {
                        self.policy.record_failure();
                        if self.policy.is_exhausted() {
                            self.state = ConnectionState::Exhausted;
                            Action::Stop
                        } else {
                            self.state = ConnectionState::Backoff;
                            Action::Backoff(BACKOFF_SECS)
                        }
                    },
                    StreamEvent::Chunk(bytes) => {
                        match self.state {
                            ConnectionState::Streaming => {
                                self.process_chunk(bytes);
                            },
                            _ => {},
                        }
                        Action::Continue
                    },
                }
            },
        }
    }
}

} // verus!
