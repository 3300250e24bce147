use arch_stats::bus::{Bus, Delivery};
use arch_stats::shot::ShotEvent;

fn shot(n: u128) -> ShotEvent {
    ShotEvent {
        id: Some(n),
        arrow_engage_time: Some(10),
        arrow_disengage_time: Some(20),
        arrow_landing_time: None,
        x_coordinate: 1,
        y_coordinate: 2,
        pull_length: 3,
        distance: 4,
        arrow_id: 100 + n,
    }
}

#[test]
fn all_attached_subscribers_observe_event() {
    let mut bus = Bus::new(8);
    let hs: Vec<u64> = (0..3).map(|_| bus.subscribe().unwrap()).collect();
    assert_eq!(bus.publish(shot(1)), Some(0));
    for h in hs {
        assert_eq!(bus.receive(h), Some(Delivery { seq: 0, event: shot(1) }));
        assert_eq!(bus.receive(h), None);
    }
}

#[test]
fn late_subscriber_misses_earlier_event() {
    let mut bus = Bus::new(8);
    let early = bus.subscribe().unwrap();
    bus.publish(shot(1));
    let late = bus.subscribe().unwrap();
    assert_eq!(bus.receive(late), None);
    bus.publish(shot(2));
    assert_eq!(bus.receive(late), Some(Delivery { seq: 1, event: shot(2) }));
    assert_eq!(bus.receive(late), None);
    assert_eq!(bus.receive(early).unwrap().event, shot(1));
    assert_eq!(bus.receive(early).unwrap().event, shot(2));
}

#[test]
fn delivery_keeps_publish_order() {
    let mut bus = Bus::new(8);
    let h = bus.subscribe().unwrap();
    for n in 0..5 {
        bus.publish(shot(n));
    }
    for n in 0..5u64 {
        assert_eq!(bus.receive(h), Some(Delivery { seq: n, event: shot(n as u128) }));
    }
}

#[test]
fn saturated_subscriber_does_not_hold_back_others() {
    let mut bus = Bus::new(2);
    let slow = bus.subscribe().unwrap();
    let fast = bus.subscribe().unwrap();
    for n in 0..4 {
        assert_eq!(bus.publish(shot(n)), Some(n as u64));
        assert_eq!(bus.receive(fast).unwrap().event, shot(n));
    }
    assert_eq!(bus.pending(slow), 2);
    assert_eq!(bus.receive(slow).unwrap().event, shot(0));
    assert_eq!(bus.receive(slow).unwrap().event, shot(1));
    assert_eq!(bus.receive(slow), None);
}

#[test]
fn unsubscribe_is_idempotent() {
    let mut bus = Bus::new(4);
    let a = bus.subscribe().unwrap();
    let b = bus.subscribe().unwrap();
    assert!(bus.unsubscribe(a));
    assert!(!bus.unsubscribe(a));
    assert!(!bus.unsubscribe(9999));
    assert_eq!(bus.subscriber_count(), 1);
    assert!(bus.is_subscribed(b));
    assert!(!bus.is_subscribed(a));
}

#[test]
fn disconnected_session_does_not_stop_publishing() {
    let mut bus = Bus::new(4);
    let a = bus.subscribe().unwrap();
    let b = bus.subscribe().unwrap();
    bus.publish(shot(1));
    assert!(bus.unsubscribe(a));
    assert_eq!(bus.publish(shot(2)), Some(1));
    assert_eq!(bus.receive(a), None);
    assert_eq!(bus.receive(b).unwrap().event, shot(1));
    assert_eq!(bus.receive(b).unwrap().event, shot(2));
}

#[test]
fn zero_capacity_drops_everything() {
    let mut bus = Bus::new(0);
    let a = bus.subscribe().unwrap();
    assert_eq!(bus.publish(shot(1)), Some(0));
    assert_eq!(bus.pending(a), 0);
    assert_eq!(bus.receive(a), None);
}

#[test]
fn handles_are_distinct() {
    let mut bus = Bus::new(1);
    let a = bus.subscribe().unwrap();
    let b = bus.subscribe().unwrap();
    assert_ne!(a, b);
    assert_eq!(bus.pending(12345), 0);
}
