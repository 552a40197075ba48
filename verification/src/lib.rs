//! A client-side mirror of server-managed configuration, fed by a long-lived
//! Server-Sent-Events stream.
//!
//! The verified core covers the event-stream framing, payload decoding,
//! the bounded-retry reconnect policy, the latest-wins configuration store,
//! and the update notifier. The asynchronous transport around it lives
//! outside the library and drives it through [`ConfigSdk::handle_event`].

use vstd::prelude::*;

mod client;
mod decoder;
mod errors;
mod frame;
mod policy;
mod store;

pub use client::Action;
pub use client::ConfigSdk;
pub use client::ConnectionState;
pub use decoder::ServerConfig;
pub use decoder::decode_config;
pub use decoder::chunk_to_chars;
pub use decoder::lemma_decode_deterministic;
pub use errors::ConfigError;
pub use policy::ReconnectPolicy;
pub use policy::StreamEvent;
pub use policy::lemma_failures_without_open_exhaust;
pub use policy::lemma_open_resets_exhaustion;
pub use store::ConfigStore;
pub use store::ForwardingChannel;
pub use store::UpdateNotifier;
pub use store::WaitHandle;
pub use store::lemma_wake_reaches_earlier_waiters_only;
pub use frame::Frame;
pub use frame::classify_frame;
pub use frame::trim_chars;

verus! {

/// Upper bound on consecutive transport failures before the ingestion
/// loop gives up.
pub const MAX_RETRIES: u64 = 5;

/// Fixed delay, in seconds, between reconnect attempts.
pub const BACKOFF_SECS: u64 = 10;

/// Buffer bound of the forwarding update channel.
pub const DEFAULT_CHANNEL_CAPACITY: usize = 100;

} // verus!
