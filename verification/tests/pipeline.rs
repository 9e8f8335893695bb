use feedcast::errors::{Ack, FeedError};
use feedcast::conn::{after_send, delivery_report, is_subscribe, on_text, ConnPhase};
use feedcast::hub::Hub;
use feedcast::poller::{next_phase, tick, HeightSample, PollerPhase, StepReport};
use feedcast::store::{classify_store_reply, Store};

fn bytes(s: &str) -> Vec<u8> {
    s.as_bytes().to_vec()
}

#[test]
fn idempotent_height_insert() {
    let mut store = Store::new();
    assert_eq!(store.record_height(820000, 1700000000), Ok(Ack::Inserted));
    assert_eq!(store.record_height(820000, 1700009999), Ok(Ack::AlreadyPresent));
    assert_eq!(store.num_heights(), 1);
    let row = store.height_at(0);
    assert_eq!(row.height, 820000);
    assert_eq!(row.timestamp, bytes("2023-11-14T22:13:20+00:00"));
}

#[test]
fn invalid_timestamp_writes_nothing() {
    let mut store = Store::new();
    assert_eq!(store.record_height(1, -5), Err(FeedError::InvalidTimestamp));
    assert_eq!(store.record_price(&bytes("1.0"), -5), Err(FeedError::InvalidTimestamp));
    assert_eq!(store.num_heights(), 0);
    assert_eq!(store.num_prices(), 0);
}

#[test]
fn price_rows_append_without_key() {
    let mut store = Store::new();
    assert_eq!(store.record_price(&bytes("65000.5"), 1700000000), Ok(Ack::Inserted));
    assert_eq!(store.record_price(&bytes("65000.5"), 1700000000), Ok(Ack::Inserted));
    assert_eq!(store.num_prices(), 2);
    assert_eq!(store.price_at(1).price, bytes("65000.5"));
    assert_eq!(store.price_at(0).timestamp, bytes("2023-11-14T22:13:20+00:00"));
}

#[test]
fn broadcast_fan_out() {
    let mut hub = Hub::new(16);
    let a = hub.subscribe();
    let b = hub.subscribe();
    let c = hub.subscribe();
    hub.publish(bytes("first"));
    hub.publish(bytes("second"));
    for id in [a, b, c] {
        assert_eq!(hub.poll(id), Some(bytes("first")));
        assert_eq!(hub.poll(id), Some(bytes("second")));
        assert_eq!(hub.poll(id), None);
    }
}

#[test]
fn late_subscriber_isolation() {
    let mut hub = Hub::new(16);
    hub.publish(bytes("early"));
    let id = hub.subscribe();
    hub.publish(bytes("late"));
    assert_eq!(hub.poll(id), Some(bytes("late")));
    assert_eq!(hub.poll(id), None);
}

#[test]
fn slow_subscriber_drops_oldest() {
    let mut hub = Hub::new(2);
    let id = hub.subscribe();
    hub.publish(bytes("a"));
    hub.publish(bytes("b"));
    assert_eq!(hub.lag(id), 0);
    hub.publish(bytes("c"));
    assert_eq!(hub.lag(id), 1);
    assert_eq!(hub.poll(id), Some(bytes("b")));
    assert_eq!(hub.lag(id), 0);
    assert_eq!(hub.poll(id), Some(bytes("c")));
    assert_eq!(hub.poll(id), None);
}

#[test]
fn unsubscribe_detaches() {
    let mut hub = Hub::new(4);
    let id = hub.subscribe();
    assert!(hub.is_active(id));
    hub.unsubscribe(id);
    assert!(!hub.is_active(id));
}

#[test]
fn fault_isolation_on_price_failure() {
    let mut store = Store::new();
    let mut hub = Hub::new(16);
    let sub = hub.subscribe();
    let report = tick(
        &mut store,
        &mut hub,
        Ok(HeightSample { height: 820000, time: Some(1700000000) }),
        Err(FeedError::TransportError),
        1700000100,
    );
    assert_eq!(report.height, StepReport::Recorded(Ack::Inserted));
    assert_eq!(report.price, StepReport::FetchFailed(FeedError::TransportError));
    assert_eq!(store.num_heights(), 1);
    assert_eq!(store.num_prices(), 0);
    assert_eq!(
        hub.poll(sub),
        Some(bytes("{\"height\":820000,\"price\":0.0,\"timestamp\":1700000000}"))
    );
    assert_eq!(hub.poll(sub), None);
    // the schedule is unaffected: the finished tick hands the poller back to
    // Idle, from which the next tick starts
    assert_eq!(next_phase(PollerPhase::Publishing, false), PollerPhase::Idle);
    assert_eq!(next_phase(PollerPhase::Idle, false), PollerPhase::Fetching);
}

#[test]
fn height_without_time_is_discarded() {
    let mut store = Store::new();
    let mut hub = Hub::new(16);
    let sub = hub.subscribe();
    let report = tick(
        &mut store,
        &mut hub,
        Ok(HeightSample { height: 820000, time: None }),
        Ok(bytes("65000.5")),
        1700000100,
    );
    assert_eq!(report.height, StepReport::Discarded);
    assert_eq!(report.price, StepReport::Recorded(Ack::Inserted));
    assert_eq!(store.num_heights(), 0);
    assert_eq!(store.num_prices(), 1);
    assert_eq!(
        hub.poll(sub),
        Some(bytes("{\"height\":0,\"price\":65000.5,\"timestamp\":1700000100}"))
    );
    assert_eq!(hub.poll(sub), None);
}

#[test]
fn malformed_price_text_is_a_decode_failure() {
    let mut store = Store::new();
    let mut hub = Hub::new(16);
    let sub = hub.subscribe();
    let report = tick(
        &mut store,
        &mut hub,
        Err(FeedError::TransportError),
        Ok(bytes("sixty-five{thousand")),
        1700000100,
    );
    assert_eq!(report.price, StepReport::FetchFailed(FeedError::DecodeError));
    assert_eq!(store.num_prices(), 0);
    assert_eq!(hub.poll(sub), None);
}

#[test]
fn invalid_tick_instant_fails_only_the_record() {
    let mut store = Store::new();
    let mut hub = Hub::new(16);
    let sub = hub.subscribe();
    let report = tick(
        &mut store,
        &mut hub,
        Err(FeedError::TransportError),
        Ok(bytes("65000.5")),
        -1,
    );
    // the payload is still published; only the store rejects the instant
    assert_eq!(report.price, StepReport::RecordFailed(FeedError::InvalidTimestamp));
    assert_eq!(store.num_prices(), 0);
    assert_eq!(
        hub.poll(sub),
        Some(bytes("{\"height\":0,\"price\":65000.5,\"timestamp\":-1}"))
    );
}

#[test]
fn shutdown_stops_new_ticks_only() {
    assert_eq!(next_phase(PollerPhase::Idle, true), PollerPhase::Shutdown);
    assert_eq!(next_phase(PollerPhase::Fetching, true), PollerPhase::Publishing);
    assert_eq!(next_phase(PollerPhase::Publishing, true), PollerPhase::Shutdown);
    assert_eq!(next_phase(PollerPhase::Shutdown, false), PollerPhase::Shutdown);
    assert_eq!(next_phase(PollerPhase::Shutdown, true), PollerPhase::Shutdown);
}

#[test]
fn duplicate_key_reply_counts_as_success() {
    assert_eq!(classify_store_reply(true, false), Ok(Ack::Inserted));
    assert_eq!(classify_store_reply(false, true), Ok(Ack::AlreadyPresent));
    assert_eq!(classify_store_reply(false, false), Err(FeedError::StoreError));
}

#[test]
fn failed_delivery_is_reported_and_closes() {
    assert_eq!(delivery_report(true), None);
    assert_eq!(delivery_report(false), Some(FeedError::DeliveryError));
}

#[test]
fn connection_lifecycle() {
    assert!(is_subscribe(&bytes("subscribe")));
    assert!(!is_subscribe(&bytes("subscribe!")));
    assert!(!is_subscribe(&bytes("unsubscribe")));
    assert_eq!(on_text(ConnPhase::Connected, &bytes("hello")), (ConnPhase::Connected, false));
    assert_eq!(on_text(ConnPhase::Connected, &bytes("subscribe")), (ConnPhase::Streaming, true));
    assert_eq!(on_text(ConnPhase::Streaming, &bytes("subscribe")), (ConnPhase::Streaming, false));
    assert_eq!(after_send(ConnPhase::Streaming, true), ConnPhase::Streaming);
    assert_eq!(after_send(ConnPhase::Streaming, false), ConnPhase::Closed);
    assert_eq!(on_text(ConnPhase::Closed, &bytes("subscribe")), (ConnPhase::Closed, false));
}

#[test]
fn end_to_end_tick() {
    let mut store = Store::new();
    let mut hub = Hub::new(100);
    let first = hub.subscribe();
    let second = hub.subscribe();
    let now = 1700000100;
    let report = tick(
        &mut store,
        &mut hub,
        Ok(HeightSample { height: 820000, time: Some(1700000000) }),
        Ok(bytes("65000.5")),
        now,
    );
    assert_eq!(report.height, StepReport::Recorded(Ack::Inserted));
    assert_eq!(report.price, StepReport::Recorded(Ack::Inserted));

    assert_eq!(store.num_heights(), 1);
    assert_eq!(store.height_at(0).height, 820000);
    assert_eq!(store.height_at(0).timestamp, bytes("2023-11-14T22:13:20+00:00"));
    assert_eq!(store.num_prices(), 1);
    assert_eq!(store.price_at(0).price, bytes("65000.5"));
    assert_eq!(store.price_at(0).timestamp, bytes("2023-11-14T22:15:00+00:00"));

    let height_payload = bytes("{\"height\":820000,\"price\":0.0,\"timestamp\":1700000000}");
    let price_payload = bytes("{\"height\":0,\"price\":65000.5,\"timestamp\":1700000100}");
    for id in [first, second] {
        assert_eq!(hub.poll(id), Some(height_payload.clone()));
        assert_eq!(hub.poll(id), Some(price_payload.clone()));
        assert_eq!(hub.poll(id), None);
    }
}
