use config_sdk::Action;
use config_sdk::ConfigError;
use config_sdk::ReconnectPolicy;
use config_sdk::ConfigSdk;
use config_sdk::ConnectionState;
use config_sdk::ForwardingChannel;
use config_sdk::ServerConfig;
use config_sdk::StreamEvent;
use config_sdk::BACKOFF_SECS;

fn data_chunk(payload: &str) -> StreamEvent {
    StreamEvent::Chunk(format!("data: {}\n\n", payload).into_bytes())
}

fn raw_chunk(text: &str) -> StreamEvent {
    StreamEvent::Chunk(text.as_bytes().to_vec())
}

fn entries(pairs: &[(&str, &str)]) -> Vec<(String, String)> {
    pairs.iter().map(|(k, v)| (k.to_string(), v.to_string())).collect()
}

fn config(pairs: &[(&str, &str)]) -> ServerConfig {
    ServerConfig { settings: entries(pairs) }
}

#[test]
fn store_is_empty_before_first_decode() {
    let sdk = ConfigSdk::new("http://example.invalid/events");
    assert!(sdk.get_current_config().is_none());
    assert_eq!(sdk.current_state(), ConnectionState::Connecting);
    assert_eq!(sdk.endpoint().as_str(), "http://example.invalid/events");
}

#[test]
fn store_holds_latest_decode_and_replaces_whole_document() {
    let mut sdk = ConfigSdk::new("http://example.invalid/events");
    sdk.handle_event(&StreamEvent::Opened);
    sdk.handle_event(&data_chunk("{\"settings\":{\"a\":1}}"));
    let first = sdk.get_current_config().expect("configuration cached");
    assert_eq!(first.settings, entries(&[("a", "1")]));
    sdk.handle_event(&data_chunk("{\"settings\":{\"b\":2}}"));
    let second = sdk.get_current_config().expect("configuration cached");
    assert_eq!(second.settings, entries(&[("b", "2")]));
}

#[test]
fn malformed_data_frame_changes_nothing_and_continues() {
    let mut sdk = ConfigSdk::new("http://example.invalid/events");
    sdk.handle_event(&StreamEvent::Opened);
    sdk.handle_event(&data_chunk("{\"settings\":{\"a\":1}}"));
    let a = sdk.handle_event(&data_chunk("{\"settings\":"));
    assert_eq!(a, Action::Continue);
    assert_eq!(sdk.current_state(), ConnectionState::Streaming);
    let kept = sdk.get_current_config().expect("configuration kept");
    assert_eq!(kept.settings, entries(&[("a", "1")]));
}

#[test]
fn invalid_utf8_chunk_is_discarded() {
    let mut sdk = ConfigSdk::new("http://example.invalid/events");
    sdk.handle_event(&StreamEvent::Opened);
    let a = sdk.handle_event(&StreamEvent::Chunk(vec![0xff, 0xfe]));
    assert_eq!(a, Action::Continue);
    assert_eq!(sdk.current_state(), ConnectionState::Streaming);
    assert!(sdk.get_current_config().is_none());
}

#[test]
fn comment_and_anomalous_frames_are_ignored() {
    let mut sdk = ConfigSdk::new("http://example.invalid/events");
    sdk.handle_event(&StreamEvent::Opened);
    assert_eq!(sdk.handle_event(&raw_chunk(": heartbeat")), Action::Continue);
    assert_eq!(sdk.handle_event(&raw_chunk("unexpected line")), Action::Continue);
    assert_eq!(sdk.current_state(), ConnectionState::Streaming);
    assert!(sdk.get_current_config().is_none());
}

#[test]
fn failure_backs_off_then_exhausts_at_bound() {
    let mut sdk = ConfigSdk::with_max_retries("http://example.invalid/events", 2);
    assert_eq!(sdk.handle_event(&StreamEvent::ConnectFailed), Action::Backoff(BACKOFF_SECS));
    assert_eq!(sdk.current_state(), ConnectionState::Backoff);
    assert_eq!(sdk.handle_event(&StreamEvent::ConnectFailed), Action::Stop);
    assert_eq!(sdk.current_state(), ConnectionState::Exhausted);
    // Exhaustion is final: no further attempt is made.
    assert_eq!(sdk.handle_event(&StreamEvent::Opened), Action::Stop);
    assert_eq!(sdk.current_state(), ConnectionState::Exhausted);
}

#[test]
fn max_retries_consecutive_failures_exhaust() {
    let mut sdk = ConfigSdk::new("http://example.invalid/events");
    let events = vec![StreamEvent::ConnectFailed; 5];
    let r = sdk.listen_for_updates(&events);
    assert!(matches!(r, Err(ConfigError::RetriesExhausted)));
    assert_eq!(sdk.current_state(), ConnectionState::Exhausted);
}

#[test]
fn fewer_than_max_retries_failures_do_not_exhaust() {
    let mut sdk = ConfigSdk::new("http://example.invalid/events");
    let events = vec![StreamEvent::ConnectFailed; 4];
    let r = sdk.listen_for_updates(&events);
    assert!(r.is_ok());
}

#[test]
fn successful_open_resets_the_retry_counter() {
    let mut sdk = ConfigSdk::new("http://example.invalid/events");
    let events = vec![
        StreamEvent::ConnectFailed,
        StreamEvent::ConnectFailed,
        StreamEvent::Opened,
        StreamEvent::Closed,
        StreamEvent::ConnectFailed,
        StreamEvent::ConnectFailed,
        StreamEvent::ConnectFailed,
    ];
    let r = sdk.listen_for_updates(&events);
    assert!(r.is_ok(), "the open between failures must reset the counter");
}

#[test]
fn clean_close_counts_as_a_transport_failure() {
    let mut sdk = ConfigSdk::with_max_retries("http://example.invalid/events", 1);
    sdk.handle_event(&StreamEvent::Opened);
    assert_eq!(sdk.handle_event(&StreamEvent::Closed), Action::Stop);
    assert_eq!(sdk.current_state(), ConnectionState::Exhausted);
}

#[test]
fn waiter_before_update_wakes_waiter_after_does_not() {
    let mut sdk = ConfigSdk::new("http://example.invalid/events");
    sdk.handle_event(&StreamEvent::Opened);
    let early = sdk.subscribe();
    assert!(!sdk.has_update(&early));
    assert_eq!(sdk.signal_count(), 0);
    sdk.handle_event(&data_chunk("{\"settings\":{\"a\":1}}"));
    assert!(sdk.has_update(&early));
    assert_eq!(sdk.signal_count(), 1, "one wake per applied update");
    let late = sdk.subscribe();
    assert!(!sdk.has_update(&late), "a waiter registered after the wake is not woken by it");
    assert!(sdk.get_current_config().is_some(), "the late waiter polls the store instead");
}

#[test]
fn decoded_updates_are_forwarded_in_order() {
    let mut sdk = ConfigSdk::new("http://example.invalid/events");
    sdk.handle_event(&StreamEvent::Opened);
    sdk.handle_event(&data_chunk("{\"settings\":{\"a\":1}}"));
    sdk.handle_event(&data_chunk("{\"settings\":{\"b\":2}}"));
    let first = sdk.try_recv().expect("first update forwarded");
    assert_eq!(first.settings, entries(&[("a", "1")]));
    let second = sdk.try_recv().expect("second update forwarded");
    assert_eq!(second.settings, entries(&[("b", "2")]));
    assert!(sdk.try_recv().is_none());
}

#[test]
fn full_channel_discards_updates_without_blocking() {
    let mut ch = ForwardingChannel::new(2);
    assert!(ch.offer(config(&[("a", "1")])));
    assert!(ch.offer(config(&[("b", "2")])));
    assert!(!ch.offer(config(&[("c", "3")])), "a full buffer discards the update");
    let got = ch.try_recv().expect("oldest update first");
    assert_eq!(got.settings, entries(&[("a", "1")]));
    assert!(ch.offer(config(&[("d", "4")])), "room again after a receive");
}

#[test]
fn closed_channel_discards_updates() {
    let mut ch = ForwardingChannel::new(8);
    ch.close();
    assert!(!ch.offer(config(&[("a", "1")])));
    assert!(ch.try_recv().is_none());
}

#[test]
fn closed_forwarding_consumer_does_not_stop_ingestion() {
    let mut sdk = ConfigSdk::new("http://example.invalid/events");
    sdk.close_channel();
    sdk.handle_event(&StreamEvent::Opened);
    let a = sdk.handle_event(&data_chunk("{\"settings\":{\"a\":1}}"));
    assert_eq!(a, Action::Continue);
    let c = sdk.get_current_config().expect("store still updated");
    assert_eq!(c.settings, entries(&[("a", "1")]));
    assert!(sdk.try_recv().is_none());
}

#[test]
fn retry_counter_resets_on_success() {
    let mut policy = ReconnectPolicy::new(3);
    assert!(!policy.is_exhausted());
    policy.record_failure();
    policy.record_failure();
    policy.record_success();
    policy.record_failure();
    policy.record_failure();
    assert!(!policy.is_exhausted());
    policy.record_failure();
    assert!(policy.is_exhausted());
}

#[test]
fn single_shot_returns_first_decoded_configuration() {
    let mut sdk = ConfigSdk::new("http://example.invalid/events");
    let events = vec![
        StreamEvent::Opened,
        raw_chunk(": heartbeat"),
        data_chunk("{\"settings\":{\"a\":1}}"),
        data_chunk("{\"settings\":{\"b\":2}}"),
    ];
    let c = sdk.wait_for_first_config(&events).expect("a configuration arrives");
    assert_eq!(c.settings, entries(&[("a", "1")]));
}

#[test]
fn single_shot_reports_no_config_when_stream_ends_first() {
    let mut sdk = ConfigSdk::new("http://example.invalid/events");
    let events = vec![StreamEvent::Opened, raw_chunk(": heartbeat")];
    let r = sdk.wait_for_first_config(&events);
    assert!(matches!(r, Err(ConfigError::NoConfigReceived)));
}

#[test]
fn single_shot_reports_exhaustion() {
    let mut sdk = ConfigSdk::new("http://example.invalid/events");
    let events = vec![StreamEvent::ConnectFailed; 5];
    let r = sdk.wait_for_first_config(&events);
    assert!(matches!(r, Err(ConfigError::RetriesExhausted)));
}
