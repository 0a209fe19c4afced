use fq::rooms::{Room, RoomRegistry, ROOM_CAPACITY};
use tokio::sync::broadcast::error::TryRecvError;

#[test]
fn registry_starts_empty() {
    let registry = RoomRegistry::new();
    assert_eq!(registry.len(), 0);
    assert!(!registry.contains("lobby"));
}

#[test]
fn get_or_create_returns_the_same_room_for_a_name() {
    let mut registry = RoomRegistry::new();
    let first = registry.get_or_create("lobby");
    let second = registry.get_or_create("lobby");
    assert!(first.tx.same_channel(&second.tx));
    assert_eq!(registry.len(), 1);
    assert!(registry.contains("lobby"));
}

#[test]
fn get_or_create_keeps_rooms_apart_by_name() {
    let mut registry = RoomRegistry::new();
    let lobby = registry.get_or_create("lobby");
    let other = registry.get_or_create("other");
    let empty = registry.get_or_create("");
    assert!(!lobby.tx.same_channel(&other.tx));
    assert!(!lobby.tx.same_channel(&empty.tx));
    assert_eq!(registry.len(), 3);
    let again = registry.get_or_create("lobby");
    assert!(again.tx.same_channel(&lobby.tx));
    assert!(registry.get_or_create("other").tx.same_channel(&other.tx));
    assert_eq!(registry.len(), 3);
    assert!(!registry.contains("Lobby"));
}

#[test]
fn handles_from_two_threads_share_one_room() {
    let registry = std::sync::Arc::new(std::sync::Mutex::new(RoomRegistry::new()));
    let runtime = tokio::runtime::Builder::new_multi_thread().worker_threads(2).build().unwrap();
    let mut workers = Vec::new();
    for _ in 0..8 {
        let registry = registry.clone();
        workers.push(
            runtime.spawn_blocking(move || registry.lock().unwrap().get_or_create("lobby")),
        );
    }
    let mut rooms: Vec<Room> = Vec::new();
    for worker in workers {
        rooms.push(runtime.block_on(worker).unwrap());
    }
    for room in &rooms {
        assert!(room.tx.same_channel(&rooms[0].tx));
    }
    assert_eq!(registry.lock().unwrap().len(), 1);
}

#[test]
fn a_handle_publishes_to_the_room_it_came_from() {
    let room = Room::new();
    let handle = room.handle();
    assert!(room.tx.same_channel(&handle.tx));
    let mut subscription = room.subscribe();
    assert_eq!(handle.publish(String::from("hi")), 1);
    assert_eq!(subscription.try_recv(), Ok(String::from("hi")));
}

#[test]
fn reached_counts_none_as_no_subscriber() {
    assert_eq!(Room::reached(None), 0);
    assert_eq!(Room::reached(Some(1)), 1);
    assert_eq!(Room::reached(Some(3)), 3);
}

#[test]
fn publishing_without_subscribers_drops_the_message() {
    let room = Room::new();
    assert_eq!(room.publish(String::from("nobody hears this")), 0);
    let mut late = room.subscribe();
    assert_eq!(late.try_recv(), Err(TryRecvError::Empty));
}

#[test]
fn every_subscriber_receives_each_message_once_in_order() {
    let room = Room::new();
    let mut first = room.subscribe();
    let mut second = room.subscribe();
    let mut third = room.subscribe();
    assert_eq!(room.publish(String::from("one")), 3);
    assert_eq!(room.publish(String::from("two")), 3);
    assert_eq!(room.publish(String::from("three")), 3);
    for subscription in [&mut first, &mut second, &mut third] {
        assert_eq!(subscription.try_recv(), Ok(String::from("one")));
        assert_eq!(subscription.try_recv(), Ok(String::from("two")));
        assert_eq!(subscription.try_recv(), Ok(String::from("three")));
        assert_eq!(subscription.try_recv(), Err(TryRecvError::Empty));
    }
}

#[test]
fn a_subscriber_misses_what_was_published_before_it_joined() {
    let room = Room::new();
    let mut early = room.subscribe();
    room.publish(String::from("before"));
    let mut late = room.subscribe();
    room.publish(String::from("after"));
    assert_eq!(early.try_recv(), Ok(String::from("before")));
    assert_eq!(early.try_recv(), Ok(String::from("after")));
    assert_eq!(late.try_recv(), Ok(String::from("after")));
    assert_eq!(late.try_recv(), Err(TryRecvError::Empty));
}

#[test]
fn a_full_room_keeps_its_capacity_without_lag() {
    let room = Room::new();
    let mut subscription = room.subscribe();
    for i in 0..ROOM_CAPACITY {
        room.publish(format!("message {}", i));
    }
    for i in 0..ROOM_CAPACITY {
        assert_eq!(subscription.try_recv(), Ok(format!("message {}", i)));
    }
    assert_eq!(subscription.try_recv(), Err(TryRecvError::Empty));
}

#[test]
fn a_subscriber_that_falls_behind_is_told_how_much_it_lost() {
    assert_eq!(ROOM_CAPACITY, 64);
    let room = Room::new();
    let mut slow = room.subscribe();
    let mut quick = room.subscribe();
    for i in 0..70 {
        room.publish(format!("message {}", i));
        assert_eq!(quick.try_recv(), Ok(format!("message {}", i)));
    }
    assert_eq!(slow.try_recv(), Err(TryRecvError::Lagged(6)));
    assert_eq!(slow.try_recv(), Ok(String::from("message 6")));
}

#[test]
fn one_publish_past_capacity_lags_by_one() {
    let room = Room::new();
    let mut slow = room.subscribe();
    for i in 0..65 {
        room.publish(format!("message {}", i));
    }
    assert_eq!(slow.try_recv(), Err(TryRecvError::Lagged(1)));
    assert_eq!(slow.try_recv(), Ok(String::from("message 1")));
}
