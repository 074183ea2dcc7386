use openscq30_lib::registry::{unique_by_address, ConnectionDescriptor, ConnectionRegistry, MacAddress};

fn address(last: u8) -> MacAddress {
    MacAddress::from_octets([0xac, 0x12, 0x2f, 0x00, 0x00, last])
}

#[test]
fn concurrent_lookups_share_one_connection() {
    let mut registry = ConnectionRegistry::new();
    let addr = address(1);
    // The first caller finds nothing and opens the connection.
    assert_eq!(None, registry.acquire(addr));
    let handle = registry.register(addr);
    // The second caller gets the same handle without opening anything.
    assert_eq!(Some(handle), registry.acquire(addr));
    registry.release(addr);
    assert!(registry.contains(addr));
    registry.release(addr);
    assert!(!registry.contains(addr));
    // After both let go, a lookup opens a fresh connection.
    assert_eq!(None, registry.acquire(addr));
    let new_handle = registry.register(addr);
    assert_ne!(handle, new_handle);
}

#[test]
fn addresses_do_not_share_connections() {
    let mut registry = ConnectionRegistry::new();
    assert_eq!(None, registry.acquire(address(1)));
    let first = registry.register(address(1));
    assert_eq!(None, registry.acquire(address(2)));
    let second = registry.register(address(2));
    assert_ne!(first, second);
}

#[test]
fn mac_address_octets_round_trip() {
    let addr = MacAddress::from_octets([0xac, 0x12, 0x2f, 0x6a, 0x01, 0xff]);
    assert_eq!(0xac122f6a01ff, addr.value);
    assert_eq!([0xac, 0x12, 0x2f, 0x6a, 0x01, 0xff], addr.octets());
}

#[test]
fn descriptors_are_deduplicated_by_address() {
    let descriptors = vec![
        ConnectionDescriptor::new("Q30".to_string(), address(1)),
        ConnectionDescriptor::new("Q30 again".to_string(), address(1)),
        ConnectionDescriptor::new("Life Q35".to_string(), address(2)),
    ];
    let unique = unique_by_address(&descriptors);
    assert_eq!(2, unique.len());
    assert_eq!("Q30", unique[0].name);
    assert_eq!(address(2), unique[1].mac_address);
}

#[test]
fn descriptors_are_equal_by_address() {
    let a = ConnectionDescriptor::new("Q30".to_string(), address(1));
    let b = ConnectionDescriptor::new("Renamed".to_string(), address(1));
    let c = ConnectionDescriptor::new("Q30".to_string(), address(2));
    assert_eq!(a, b);
    assert_ne!(a, c);
}
