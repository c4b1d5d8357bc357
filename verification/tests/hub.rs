use chat_relay::hub::Hub;
use chat_relay::ids::IdAllocator;
use chat_relay::model::ClientMsg;
use chat_relay::registry::Delivery;
use chat_relay::registry::Registry;
use tokio::sync::mpsc::error::TryRecvError;
use tokio::sync::mpsc::unbounded_channel;

fn msg(text: &str, sender_id: i64, receiver_id: i64) -> ClientMsg {
    ClientMsg { message: text.to_string(), sender_id, receiver_id }
}

fn sorted(mut report: Vec<Delivery>) -> Vec<Delivery> {
    report.sort_by_key(|d| d.id);
    report
}

#[test]
fn allocator_starts_at_one_and_counts_up() {
    let mut ids = IdAllocator::new();
    assert_eq!(ids.next(), 1);
    assert_eq!(ids.next(), 2);
    assert_eq!(ids.next(), 3);
    assert_eq!(ids.next(), 4);
}

#[test]
fn allocator_never_repeats_an_id() {
    let mut ids = IdAllocator::new();
    let mut seen = std::collections::HashSet::new();
    for _ in 0..10_000 {
        assert!(seen.insert(ids.next()));
    }
    assert_eq!(seen.len(), 10_000);
}

#[test]
fn allocator_ids_are_strictly_increasing() {
    let mut ids = IdAllocator::new();
    let mut last = ids.next();
    for _ in 0..1_000 {
        let id = ids.next();
        assert!(id > last);
        last = id;
    }
}

#[test]
fn new_registry_is_empty() {
    let registry = Registry::new();
    assert_eq!(registry.len(), 0);
    assert!(!registry.contains(1));
}

#[test]
fn register_makes_the_entry_visible() {
    let mut registry = Registry::new();
    let (tx, _rx) = unbounded_channel();
    registry.register(7, tx);
    assert_eq!(registry.len(), 1);
    assert!(registry.contains(7));
    assert!(!registry.contains(8));
}

#[test]
fn register_twice_replaces_the_queue() {
    let mut registry = Registry::new();
    let (first_tx, mut first_rx) = unbounded_channel();
    let (second_tx, mut second_rx) = unbounded_channel();
    registry.register(7, first_tx);
    registry.register(7, second_tx);
    assert_eq!(registry.len(), 1);
    let report = registry.broadcast(&msg("x", 1, 2));
    assert_eq!(report, vec![Delivery { id: 7, accepted: true }]);
    assert_eq!(second_rx.try_recv(), Ok(msg("x", 1, 2)));
    assert_eq!(first_rx.try_recv(), Err(TryRecvError::Disconnected));
}

#[test]
fn remove_says_whether_the_id_was_there() {
    let mut registry = Registry::new();
    let (tx, _rx) = unbounded_channel();
    registry.register(3, tx);
    assert!(registry.remove(3));
    assert!(!registry.remove(3));
    assert!(!registry.contains(3));
    assert_eq!(registry.len(), 0);
}

#[test]
fn removed_connection_gets_no_more_messages() {
    let mut registry = Registry::new();
    let (tx_a, mut rx_a) = unbounded_channel();
    let (tx_b, mut rx_b) = unbounded_channel();
    registry.register(1, tx_a);
    registry.register(2, tx_b);
    assert!(registry.remove(1));
    let report = registry.broadcast(&msg("later", 5, 6));
    assert_eq!(report, vec![Delivery { id: 2, accepted: true }]);
    assert_eq!(rx_b.try_recv(), Ok(msg("later", 5, 6)));
    assert_eq!(rx_a.try_recv(), Err(TryRecvError::Disconnected));
}

#[test]
fn broadcast_on_empty_registry_reports_nothing() {
    let mut registry = Registry::new();
    let report = registry.broadcast(&msg("nobody", 1, 2));
    assert!(report.is_empty());
}

#[test]
fn broadcast_reaches_every_connection_once() {
    let mut registry = Registry::new();
    let mut receivers = Vec::new();
    for id in 1..=5usize {
        let (tx, rx) = unbounded_channel();
        registry.register(id, tx);
        receivers.push(rx);
    }
    let report = sorted(registry.broadcast(&msg("all", 9, 8)));
    let expected: Vec<Delivery> =
        (1..=5usize).map(|id| Delivery { id, accepted: true }).collect();
    assert_eq!(report, expected);
    for rx in receivers.iter_mut() {
        assert_eq!(rx.try_recv(), Ok(msg("all", 9, 8)));
        assert_eq!(rx.try_recv(), Err(TryRecvError::Empty));
    }
}

#[test]
fn broadcast_keeps_the_order_of_messages() {
    let mut registry = Registry::new();
    let (tx_a, mut rx_a) = unbounded_channel();
    let (tx_b, mut rx_b) = unbounded_channel();
    registry.register(1, tx_a);
    registry.register(2, tx_b);
    registry.broadcast(&msg("m1", 1, 2));
    registry.broadcast(&msg("m2", 1, 2));
    registry.broadcast(&msg("m3", 2, 1));
    for rx in [&mut rx_a, &mut rx_b] {
        assert_eq!(rx.try_recv(), Ok(msg("m1", 1, 2)));
        assert_eq!(rx.try_recv(), Ok(msg("m2", 1, 2)));
        assert_eq!(rx.try_recv(), Ok(msg("m3", 2, 1)));
        assert_eq!(rx.try_recv(), Err(TryRecvError::Empty));
    }
}

#[test]
fn broadcast_leaves_the_message_with_the_caller() {
    let mut registry = Registry::new();
    let (tx, mut rx) = unbounded_channel();
    registry.register(1, tx);
    let original = msg("keep", -3, i64::MAX);
    registry.broadcast(&original);
    assert_eq!(original, msg("keep", -3, i64::MAX));
    assert_eq!(rx.try_recv(), Ok(original));
}

#[test]
fn closed_queue_is_reported_and_does_not_stop_the_fan_out() {
    let mut registry = Registry::new();
    let (tx_a, mut rx_a) = unbounded_channel();
    let (tx_b, mut rx_b) = unbounded_channel();
    let (tx_c, mut rx_c) = unbounded_channel();
    registry.register(1, tx_a);
    registry.register(2, tx_b);
    registry.register(3, tx_c);
    rx_b.close();
    let report = sorted(registry.broadcast(&msg("still", 1, 3)));
    assert_eq!(
        report,
        vec![
            Delivery { id: 1, accepted: true },
            Delivery { id: 2, accepted: false },
            Delivery { id: 3, accepted: true },
        ]
    );
    assert_eq!(rx_a.try_recv(), Ok(msg("still", 1, 3)));
    assert_eq!(rx_c.try_recv(), Ok(msg("still", 1, 3)));
    assert_eq!(rx_b.try_recv(), Err(TryRecvError::Disconnected));
    assert_eq!(registry.len(), 3);
}

#[test]
fn failure_on_one_connection_does_not_hold_back_later_broadcasts() {
    let mut hub = Hub::new();
    let a = hub.connect();
    let mut b = hub.connect();
    drop(a.outbound);
    let first = sorted(hub.broadcast(&msg("one", 1, 2)));
    let second = sorted(hub.broadcast(&msg("two", 1, 2)));
    let expected =
        vec![Delivery { id: a.id, accepted: false }, Delivery { id: b.id, accepted: true }];
    assert_eq!(first, expected);
    assert_eq!(second, expected);
    assert_eq!(b.outbound.try_recv(), Ok(msg("one", 1, 2)));
    assert_eq!(b.outbound.try_recv(), Ok(msg("two", 1, 2)));
}

#[test]
fn new_hub_has_no_connections() {
    let hub = Hub::new();
    assert_eq!(hub.len(), 0);
    assert!(!hub.is_connected(1));
}

#[test]
fn connect_hands_out_ids_from_one() {
    let mut hub = Hub::new();
    let a = hub.connect();
    let b = hub.connect();
    let c = hub.connect();
    assert_eq!((a.id, b.id, c.id), (1, 2, 3));
    assert_eq!(hub.len(), 3);
    assert!(hub.is_connected(1) && hub.is_connected(2) && hub.is_connected(3));
    assert!(!hub.is_connected(4));
}

#[test]
fn connection_is_registered_before_any_message() {
    let mut hub = Hub::new();
    let mut a = hub.connect();
    assert!(hub.is_connected(a.id));
    assert_eq!(a.outbound.try_recv(), Err(TryRecvError::Empty));
    hub.broadcast(&msg("first", 1, 1));
    assert_eq!(a.outbound.try_recv(), Ok(msg("first", 1, 1)));
}

#[test]
fn ids_are_not_reused_after_disconnect() {
    let mut hub = Hub::new();
    let a = hub.connect();
    assert!(hub.disconnect(a.id));
    let b = hub.connect();
    assert_eq!(a.id, 1);
    assert_eq!(b.id, 2);
    assert!(!hub.is_connected(1));
    assert!(hub.is_connected(2));
}

#[test]
fn disconnect_of_unknown_id_changes_nothing() {
    let mut hub = Hub::new();
    let a = hub.connect();
    assert!(!hub.disconnect(99));
    assert_eq!(hub.len(), 1);
    assert!(hub.is_connected(a.id));
}

#[test]
fn disconnect_closes_the_outbound_queue() {
    let mut hub = Hub::new();
    let mut a = hub.connect();
    hub.broadcast(&msg("before", 1, 2));
    assert!(hub.disconnect(a.id));
    hub.broadcast(&msg("after", 1, 2));
    assert_eq!(a.outbound.try_recv(), Ok(msg("before", 1, 2)));
    assert_eq!(a.outbound.try_recv(), Err(TryRecvError::Disconnected));
}

#[test]
fn sender_receives_its_own_message() {
    let mut hub = Hub::new();
    let mut only = hub.connect();
    let report = hub.broadcast(&msg("echo", 1, 2));
    assert_eq!(report, vec![Delivery { id: only.id, accepted: true }]);
    assert_eq!(only.outbound.try_recv(), Ok(msg("echo", 1, 2)));
}
