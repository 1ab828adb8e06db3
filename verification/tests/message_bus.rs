use mltop::config::{MESSAGE_EXPIRATION_IN_SECONDS, REFRESH_RATE_MILLIS};
use mltop::message_bus::MessageBus;

#[test]
fn a_new_bus_is_empty() {
    let bus = MessageBus::new();
    assert_eq!(bus.read(), None);
    assert_eq!(MESSAGE_EXPIRATION_IN_SECONDS, 10);
    assert_eq!(REFRESH_RATE_MILLIS, 1000);
}

#[test]
fn a_message_is_readable_until_its_deadline() {
    let mut bus = MessageBus::new();
    bus.send_at(String::from("hello"), 500);
    assert_eq!(bus.read(), Some("hello"));
    bus.check_at(500);
    assert_eq!(bus.read(), Some("hello"));
    bus.check_at(10_499);
    assert_eq!(bus.read(), Some("hello"));
    bus.check_at(10_500);
    assert_eq!(bus.read(), Some("hello"));
    bus.check_at(10_501);
    assert_eq!(bus.read(), None);
    bus.check_at(600);
    assert_eq!(bus.read(), None);
}

#[test]
fn a_check_before_the_message_was_sent_keeps_it() {
    let mut bus = MessageBus::new();
    bus.send_at(String::from("late"), u64::MAX);
    bus.check_at(0);
    assert_eq!(bus.read(), Some("late"));
    bus.check_at(u64::MAX);
    assert_eq!(bus.read(), Some("late"));
}

#[test]
fn the_last_message_sent_wins_and_restarts_the_time() {
    let mut bus = MessageBus::new();
    bus.send_at(String::from("first"), 0);
    bus.send_at(String::from("second"), 9_000);
    assert_eq!(bus.read(), Some("second"));
    bus.check_at(10_001);
    assert_eq!(bus.read(), Some("second"));
    bus.check_at(19_001);
    assert_eq!(bus.read(), None);
}

#[test]
fn clear_empties_the_slot() {
    let mut bus = MessageBus::new();
    bus.send_at(String::from("x"), 1);
    bus.clear();
    assert_eq!(bus.read(), None);
    bus.clear();
    assert_eq!(bus.read(), None);
}

#[test]
fn send_and_check_go_by_the_clock() {
    let mut bus = MessageBus::new();
    let before = bus.now();
    bus.send(String::from("now"));
    bus.check();
    assert_eq!(bus.read(), Some("now"));
    assert!(bus.now() >= before);
    assert!(bus.now() < 5_000);
}
