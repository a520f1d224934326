use mission_chat::registry::RoomRegistry;
use mission_chat::relay::{
    reader_step, relay_after_persist, sibling_half, writer_step, InboundItem, PersistedRecord,
    ReaderStep, RelayHalf, WriterEvent, WriterStep,
};

fn stored(id: i64, mission_id: i32, user_id: i32, content: &str) -> Result<PersistedRecord, String> {
    Ok(PersistedRecord {
        persisted_id: id,
        mission_id,
        user_id,
        content: content.to_string(),
        persisted_at: "2024-01-01T00:00:00+00:00".to_string(),
    })
}

#[test]
fn reader_ingests_text_frames() {
    assert!(matches!(
        reader_step(InboundItem::Text("hi".to_string())),
        ReaderStep::Ingest(c) if c == "hi"
    ));
}

#[test]
fn reader_skips_non_text_frames() {
    assert!(matches!(reader_step(InboundItem::NonText), ReaderStep::Skip));
}

#[test]
fn reader_stops_when_stream_ends() {
    assert!(matches!(reader_step(InboundItem::Closed), ReaderStep::Stop));
}

#[test]
fn writer_forwards_verbatim_and_stops_on_closed_channel() {
    assert!(matches!(
        writer_step(WriterEvent::Message("frame".to_string())),
        WriterStep::Forward(m) if m == "frame"
    ));
    assert!(matches!(writer_step(WriterEvent::Lagged), WriterStep::Skip));
    assert!(matches!(writer_step(WriterEvent::Closed), WriterStep::Stop));
}

#[test]
fn each_half_cancels_the_other() {
    assert!(matches!(sibling_half(RelayHalf::Reader), RelayHalf::Writer));
    assert!(matches!(sibling_half(RelayHalf::Writer), RelayHalf::Reader));
}

#[test]
fn persisted_message_reaches_every_subscriber() {
    let mut reg = RoomRegistry::new();
    let tx = reg.get_or_create_room(42).tx.clone();
    let mut rx_a = tx.subscribe();
    let mut rx_b = tx.subscribe();

    let outcome = stored(1, 42, 9, "hello");
    let published = relay_after_persist(&tx, &outcome, 9, "hello", "2024-01-01T00:00:01+00:00");
    let envelope = published.expect("a stored message must be broadcast");

    assert_eq!(rx_a.try_recv().unwrap(), envelope);
    assert_eq!(rx_b.try_recv().unwrap(), envelope);

    let v: serde_json::Value = serde_json::from_str(&envelope).unwrap();
    assert_eq!(v["user_id"], serde_json::Value::from(9));
    assert_eq!(v["content"].as_str().unwrap(), "hello");
    assert_eq!(v["type"].as_str().unwrap(), "chat");
    assert_eq!(v["created_at"].as_str().unwrap(), "2024-01-01T00:00:01+00:00");
}

#[test]
fn failed_persistence_drops_message_and_spares_connection() {
    let mut reg = RoomRegistry::new();
    let tx = reg.get_or_create_room(42).tx.clone();
    let mut rx_a = tx.subscribe();
    let mut rx_b = tx.subscribe();

    // "hello" persists and is broadcast to both.
    let published =
        relay_after_persist(&tx, &stored(1, 42, 9, "hello"), 9, "hello", "t1");
    let first = published.unwrap();
    assert_eq!(rx_a.try_recv().unwrap(), first);
    assert_eq!(rx_b.try_recv().unwrap(), first);

    // The store fails for "lost": nothing is broadcast to anyone.
    let failed: Result<PersistedRecord, String> = Err("connection refused".to_string());
    let published = relay_after_persist(&tx, &failed, 9, "lost", "t2");
    assert!(published.is_none());
    assert!(rx_a.try_recv().is_err());
    assert!(rx_b.try_recv().is_err());

    // The connection went on: "back" is broadcast normally to both.
    let published =
        relay_after_persist(&tx, &stored(2, 42, 9, "back"), 9, "back", "t3");
    let third = published.unwrap();
    assert_eq!(rx_a.try_recv().unwrap(), third);
    assert_eq!(rx_b.try_recv().unwrap(), third);
    let v: serde_json::Value = serde_json::from_str(&third).unwrap();
    assert_eq!(v["content"].as_str().unwrap(), "back");
}

#[test]
fn broadcast_without_subscribers_is_not_fatal() {
    let mut reg = RoomRegistry::new();
    let tx = reg.get_or_create_room(3).tx.clone();
    let published = relay_after_persist(&tx, &stored(1, 3, 4, "quiet"), 4, "quiet", "t");
    assert!(published.is_some());
}

#[test]
fn messages_arrive_in_publish_order() {
    let mut reg = RoomRegistry::new();
    let tx = reg.get_or_create_room(11).tx.clone();
    let mut rx = tx.subscribe();
    let first = relay_after_persist(&tx, &stored(1, 11, 2, "one"), 2, "one", "t1").unwrap();
    let second = relay_after_persist(&tx, &stored(2, 11, 2, "two"), 2, "two", "t2").unwrap();
    assert_eq!(rx.try_recv().unwrap(), first);
    assert_eq!(rx.try_recv().unwrap(), second);
}
