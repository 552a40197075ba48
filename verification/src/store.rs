//! The latest-wins configuration store, the wake-all update notifier, and
//! the bounded best-effort forwarding channel.

use vstd::prelude::*;

use crate::decoder::ServerConfig;

verus! {

/// Holds the single latest decoded configuration. The slot starts empty,
/// is replaced whole on each write, and is read as an independent copy:
/// a reader observes either no configuration or a fully decoded one.
pub struct ConfigStore {
    slot: Option<ServerConfig>,
}

impl ConfigStore {
    /// The current slot, as the view of its configuration if any.
    pub closed spec fn slot_view(&self) -> Option<Seq<(Seq<char>, Seq<char>)>> {
        match self.slot {
            Some(c) => Some(c@),
            None => None,
        }
    }

    /// An empty store: no configuration has been received yet.
    pub fn new() -> (r: Self)
        ensures
            r.slot_view() is None,
    {
        ConfigStore { slot: None }
    }

    /// Replaces the cached slot with `config`. The previous value is
    /// discarded; no history is retained.
    pub fn write(&mut self, config: ServerConfig)
        ensures
            final(self).slot_view() == Some(config@),
    {
        self.slot = Some(config);
    }

    /// An independent copy of the current slot; empty before the first
    /// write, the most recently written configuration afterward.
    pub fn read(&self) -> (r: Option<ServerConfig>)
        ensures
            match r {
                Some(c) => self.slot_view() == Some(c@),
                None => self.slot_view() is None,
            },
    {
        match &self.slot {
            Some(c) => Some(c.clone()),
            None => None,
        }
    }
}

/// A handle held by one waiter: remembers how many wakes had happened
/// when the waiter registered.
pub struct WaitHandle {
    seen: u64,
}

impl WaitHandle {
    /// The number of wakes the holder had seen at registration.
    pub closed spec fn seen(&self) -> nat {
        self.seen as nat
    }
}

/// Wakes every currently registered waiter when the store is updated.
/// It carries no payload and queues no missed notifications: a waiter that
/// registers only after a wake is not woken by it.
pub struct UpdateNotifier {
    signal_count: u64,
}

impl UpdateNotifier {
    /// How many wakes have been signalled so far.
    pub closed spec fn signals(&self) -> nat {
        self.signal_count as nat
    }

    /// Whether `h` has a wake to observe: one signalled after `h` registered.
    pub open spec fn woken(&self, h: &WaitHandle) -> bool {
        self.signals() > h.seen()
    }

    /// A notifier with no wake signalled yet.
    pub fn new() -> (r: Self)
        ensures
            r.signals() == 0,
    {
        UpdateNotifier { signal_count: 0 }
    }

    /// Registers a waiter: the handle will observe exactly the wakes
    /// signalled after this call.
    pub fn subscribe(&self) -> (h: WaitHandle)
        ensures
            h.seen() == self.signals(),
            !self.woken(&h),
    {
        WaitHandle { seen: self.signal_count }
    }

    /// The wake count, for callers that must respect its machine bound
    /// before signalling another wake.
    pub fn signal_count(&self) -> (n: u64)
        ensures
            n as nat == self.signals(),
    {
        self.signal_count
    }

    /// Wakes all currently registered waiters.
    pub fn notify_waiters(&mut self)
        requires
            old(self).signals() < u64::MAX,
        ensures
            final(self).signals() == old(self).signals() + 1,
    {
        self.signal_count = self.signal_count + 1;
    }

    /// Whether a wake has occurred since `h` registered. A woken waiter
    /// must re-read the store itself; the wake carries no payload.
    pub fn has_update(&self, h: &WaitHandle) -> (r: bool)
        ensures
            r == self.woken(h),
    {
        self.signal_count > h.seen
    }
}

/// A waiter registered before an update is woken by it; one registered
/// only after the update's wake is not woken by that same update and must
/// poll the store to observe it.
pub proof fn lemma_wake_reaches_earlier_waiters_only(
    before: UpdateNotifier,
    after: UpdateNotifier,
    early: WaitHandle,
    late: WaitHandle,
)
    requires
        early.seen() == before.signals(),
        after.signals() == before.signals() + 1,
        late.seen() == after.signals(),
    ensures
        after.woken(&early),
        !after.woken(&late),
{
}

/// Carries each decoded configuration onward to a consumer that wants
/// every update. Delivery is best-effort and at-most-once: when the buffer
/// is full or the receiving side is gone, an update is discarded.
pub struct ForwardingChannel {
    buffer: Vec<ServerConfig>,
    capacity: usize,
    closed: bool,
}

impl ForwardingChannel {
    /// The buffered configurations, oldest first.
    pub closed spec fn queued(&self) -> Seq<Seq<(Seq<char>, Seq<char>)>> {
        self.buffer@.map_values(|c: ServerConfig| c@)
    }

    /// The buffer bound the channel was created with.
    pub closed spec fn cap(&self) -> nat {
        self.capacity as nat
    }

    /// Whether the receiving side is gone.
    pub closed spec fn is_closed(&self) -> bool {
        self.closed
    }

    /// Whether `offer` would accept an update now.
    pub open spec fn can_accept(&self) -> bool {
        !self.is_closed() && self.queued().len() < self.cap()
    }

    /// An empty channel with the given buffer bound.
    pub fn new(capacity: usize) -> (r: Self)
        ensures
            r.queued() == Seq::<Seq<(Seq<char>, Seq<char>)>>::empty(),
            r.cap() == capacity,
            !r.is_closed(),
    {
        let r = ForwardingChannel { buffer: Vec::new(), capacity, closed: false };
        proof {
            assert(r.queued() =~= Seq::<Seq<(Seq<char>, Seq<char>)>>::empty());
        }
        r
    }

    /// Offers one update. It is buffered exactly when the channel is open
    /// and below its bound; otherwise it is discarded, never blocking.
    pub fn offer(&mut self, config: ServerConfig) -> (delivered: bool)
        ensures
            delivered == old(self).can_accept(),
            final(self).cap() == old(self).cap(),
            final(self).is_closed() == old(self).is_closed(),
            delivered ==> final(self).queued() == old(self).queued().push(config@),
            !delivered ==> final(self).queued() == old(self).queued(),
    {
        if !self.closed && self.buffer.len() < self.capacity {
            self.buffer.push(config);
            proof {
                assert(self.queued() =~= old(self).queued().push(config@));
            }
            true
        } else {
            false
        }
    }

    /// Takes the oldest buffered update, if any.
    pub fn try_recv(&mut self) -> (r: Option<ServerConfig>)
        ensures
            final(self).cap() == old(self).cap(),
            final(self).is_closed() == old(self).is_closed(),
            match r {
                Some(c) => old(self).queued().len() > 0 && c@ == old(self).queued()[0]
                    && final(self).queued() == old(self).queued().subrange(
                    1,
                    old(self).queued().len() as int,
                ),
                None => old(self).queued().len() == 0 && final(self).queued() == old(
                    self,
                ).queued(),
            },
    {
        if self.buffer.len() > 0 {
            let c = self.buffer.remove(0);
            proof {
                assert(self.queued() =~= old(self).queued().subrange(
                    1,
                    old(self).queued().len() as int,
                ));
            }
            Some(c)
        } else {
            None
        }
    }

    /// Marks the receiving side as gone: later offers are discarded.
    pub fn close(&mut self)
        ensures
            final(self).is_closed(),
            final(self).cap() == old(self).cap(),
            final(self).queued() == old(self).queued(),
    {
        self.closed = true;
    }
}

} // verus!
