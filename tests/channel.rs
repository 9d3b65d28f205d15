use netspeed::bus::NetDataTrafficSpeed;
use netspeed::channel::{Broadcast, Received, MAX_SUBSCRIBERS};

fn msg(k: u32) -> NetDataTrafficSpeed {
    NetDataTrafficSpeed { up: k, down: k * 10 }
}

#[test]
fn five_into_four_deep_channel_lags_by_one() {
    let mut ch = Broadcast::new();
    let id = ch.subscribe().unwrap();
    for k in 1..=5 {
        ch.publish(msg(k));
    }
    assert_eq!(ch.next_message(id), Received::Lagged(1));
    assert_eq!(ch.next_message(id), Received::Message(msg(2)));
    assert_eq!(ch.next_message(id), Received::Message(msg(3)));
    assert_eq!(ch.next_message(id), Received::Message(msg(4)));
    assert_eq!(ch.next_message(id), Received::Message(msg(5)));
    assert_eq!(ch.next_message(id), Received::Empty);
    assert_eq!(ch.evicted(), 1);
    assert_eq!(ch.published_count(), 5);
}

#[test]
fn no_lag_within_depth() {
    let mut ch = Broadcast::new();
    let id = ch.subscribe().unwrap();
    for k in 1..=4 {
        ch.publish(msg(k));
    }
    for k in 1..=4 {
        assert_eq!(ch.next_message(id), Received::Message(msg(k)));
    }
    assert_eq!(ch.next_message(id), Received::Empty);
    assert_eq!(ch.evicted(), 0);
}

#[test]
fn subscribers_read_independently() {
    let mut ch = Broadcast::new();
    let a = ch.subscribe().unwrap();
    let b = ch.subscribe().unwrap();
    assert_ne!(a, b);
    ch.publish(msg(1));
    ch.publish(msg(2));
    assert_eq!(ch.next_message(a), Received::Message(msg(1)));
    assert_eq!(ch.next_message(a), Received::Message(msg(2)));
    assert_eq!(ch.next_message(b), Received::Message(msg(1)));
    for k in 3..=7 {
        ch.publish(msg(k));
    }
    assert_eq!(ch.next_message(a), Received::Lagged(1));
    assert_eq!(ch.next_message(a), Received::Message(msg(4)));
    assert_eq!(ch.next_message(b), Received::Lagged(2));
    assert_eq!(ch.next_message(b), Received::Message(msg(4)));
}

#[test]
fn late_subscriber_sees_only_new_messages() {
    let mut ch = Broadcast::new();
    ch.publish(msg(1));
    let id = ch.subscribe().unwrap();
    assert_eq!(ch.next_message(id), Received::Empty);
    ch.publish(msg(2));
    assert_eq!(ch.next_message(id), Received::Message(msg(2)));
}

#[test]
fn at_most_four_subscribers() {
    let mut ch: Broadcast<NetDataTrafficSpeed> = Broadcast::new();
    for _ in 0..MAX_SUBSCRIBERS {
        assert!(ch.subscribe().is_some());
    }
    assert_eq!(ch.subscribe(), None);
    ch.unsubscribe(2);
    assert!(!ch.is_subscribed(2));
    assert_eq!(ch.subscribe(), Some(2));
    assert!(ch.is_subscribed(2));
}

#[test]
fn evictions_of_read_messages_are_not_counted() {
    let mut ch = Broadcast::new();
    let id = ch.subscribe().unwrap();
    for k in 1..=4 {
        ch.publish(msg(k));
    }
    for _ in 0..4 {
        ch.next_message(id);
    }
    ch.publish(msg(5));
    assert_eq!(ch.evicted(), 0);
    assert_eq!(ch.next_message(id), Received::Message(msg(5)));
}
