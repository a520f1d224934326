use mission_chat::registry::RoomRegistry;
use tokio::sync::broadcast::error::TryRecvError;

#[test]
fn room_identity_same_underlying_channel() {
    let mut reg = RoomRegistry::new();
    let first_id = reg.get_or_create_room(42).id;
    let tx1 = reg.get_or_create_room(42).tx.clone();
    let second_id = reg.get_or_create_room(42).id;
    let tx2 = reg.get_or_create_room(42).tx.clone();
    assert_eq!(first_id, second_id);

    // A handle from the second call subscribes; a handle from the first
    // call publishes: the message arrives, so both calls returned the
    // same underlying channel.
    let mut rx = tx2.subscribe();
    tx1.send("ping".to_string()).unwrap();
    assert_eq!(rx.try_recv().unwrap(), "ping");
}

#[test]
fn distinct_missions_get_distinct_rooms() {
    let mut reg = RoomRegistry::new();
    let id1 = reg.get_or_create_room(1).id;
    let id2 = reg.get_or_create_room(2).id;
    assert_ne!(id1, id2);
}

#[test]
fn rooms_are_isolated() {
    let mut reg = RoomRegistry::new();
    let tx1 = reg.get_or_create_room(1).tx.clone();
    let tx2 = reg.get_or_create_room(2).tx.clone();
    let mut rx2 = tx2.subscribe();
    let _rx1 = tx1.subscribe();
    tx1.send("only room one".to_string()).unwrap();
    assert!(matches!(rx2.try_recv(), Err(TryRecvError::Empty)));
}

#[test]
fn existing_rooms_survive_later_creations() {
    let mut reg = RoomRegistry::new();
    let tx_early = reg.get_or_create_room(5).tx.clone();
    let mut rx = tx_early.subscribe();
    for mission in 6..30 {
        let _ = reg.get_or_create_room(mission);
    }
    let tx_again = reg.get_or_create_room(5).tx.clone();
    tx_again.send("still here".to_string()).unwrap();
    assert_eq!(rx.try_recv().unwrap(), "still here");
}
