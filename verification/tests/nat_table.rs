use reverse_proxy::{NatTable, SocketAddr};

fn peer(last: u8, port: u16) -> SocketAddr {
    SocketAddr::V4 { ip: [10, 0, 0, last], port }
}

#[test]
fn new_table_is_empty_and_open() {
    let t: NatTable<u32> = NatTable::new();
    assert!(!t.is_closed());
    assert_eq!(t.get(&peer(1, 1)), None);
}

#[test]
fn insert_then_get() {
    let mut t = NatTable::new();
    t.insert(peer(1, 1000), "a");
    t.insert(peer(2, 1000), "b");
    assert_eq!(t.get(&peer(1, 1000)), Some(&"a"));
    assert_eq!(t.get(&peer(2, 1000)), Some(&"b"));
    assert_eq!(t.get(&peer(1, 1001)), None);
}

#[test]
fn insert_replaces_relay() {
    let mut t = NatTable::new();
    t.insert(peer(1, 1000), 1);
    t.insert(peer(1, 1000), 2);
    assert_eq!(t.get(&peer(1, 1000)), Some(&2));
}

#[test]
fn ended_relay_leaves_open_table() {
    let mut t = NatTable::new();
    t.insert(peer(1, 1), 1);
    t.insert(peer(2, 2), 2);
    t.remove_unless_closed(&peer(1, 1));
    assert_eq!(t.get(&peer(1, 1)), None);
    assert_eq!(t.get(&peer(2, 2)), Some(&2));
    t.remove_unless_closed(&peer(9, 9));
    assert_eq!(t.get(&peer(2, 2)), Some(&2));
}

#[test]
fn close_drops_every_relay() {
    let mut t = NatTable::new();
    t.insert(peer(1, 1), 1);
    t.insert(peer(2, 2), 2);
    t.close();
    assert!(t.is_closed());
    assert_eq!(t.get(&peer(1, 1)), None);
    assert_eq!(t.get(&peer(2, 2)), None);
}

#[test]
fn closed_table_ignores_ended_relays() {
    let mut t = NatTable::new();
    t.close();
    t.insert(peer(3, 3), 3);
    t.remove_unless_closed(&peer(3, 3));
    assert_eq!(t.get(&peer(3, 3)), Some(&3));
    assert!(t.is_closed());
}
