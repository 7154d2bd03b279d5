//! Fan-out hub: per-subscriber delivery, order, bounded queues, and
//! isolation of a stuck subscriber.

use leaderboard::hub::{BroadcastHub, FreshnessEvent};

#[test]
fn events_arrive_in_publish_order() {
    let mut hub = BroadcastHub::new();
    let id = hub.subscribe(8);
    hub.publish(FreshnessEvent { timestamp: 1 });
    hub.publish(FreshnessEvent { timestamp: 2 });
    hub.publish(FreshnessEvent { timestamp: 3 });
    assert_eq!(hub.pop_event(id), Some(FreshnessEvent { timestamp: 1 }));
    assert_eq!(hub.pop_event(id), Some(FreshnessEvent { timestamp: 2 }));
    assert_eq!(hub.pop_event(id), Some(FreshnessEvent { timestamp: 3 }));
    assert_eq!(hub.pop_event(id), None);
}

#[test]
fn full_queue_drops_newest_for_that_subscriber_alone() {
    let mut hub = BroadcastHub::new();
    let stuck = hub.subscribe(1);
    let healthy = hub.subscribe(8);

    hub.publish(FreshnessEvent { timestamp: 10 });
    hub.publish(FreshnessEvent { timestamp: 11 });
    hub.publish(FreshnessEvent { timestamp: 12 });

    assert_eq!(hub.pop_event(healthy), Some(FreshnessEvent { timestamp: 10 }));
    assert_eq!(hub.pop_event(healthy), Some(FreshnessEvent { timestamp: 11 }));
    assert_eq!(hub.pop_event(healthy), Some(FreshnessEvent { timestamp: 12 }));

    assert_eq!(hub.pop_event(stuck), Some(FreshnessEvent { timestamp: 10 }));
    assert_eq!(hub.pop_event(stuck), None);
}

#[test]
fn subscribers_get_fresh_identities_and_detach_cleanly() {
    let mut hub = BroadcastHub::new();
    let a = hub.subscribe(4);
    let b = hub.subscribe(4);
    assert_ne!(a, b);
    assert_eq!(hub.subscriber_count(), 2);

    hub.publish(FreshnessEvent { timestamp: 5 });
    assert!(hub.unsubscribe(a));
    assert!(!hub.unsubscribe(a));
    assert_eq!(hub.subscriber_count(), 1);
    assert_eq!(hub.pop_event(a), None);
    assert_eq!(hub.pop_event(b), Some(FreshnessEvent { timestamp: 5 }));
}

#[test]
fn publish_with_no_subscribers_is_a_no_op() {
    let mut hub = BroadcastHub::new();
    hub.publish(FreshnessEvent { timestamp: 1 });
    assert_eq!(hub.subscriber_count(), 0);
}
