use portmapper::cache::{ChangeNotification, ClearReason, Entry, MappingCache};
use portmapper::mapping::{ExternalAddress, GatewayAddress, Mapping};
use portmapper::protocol::{ProbeCapability, Protocol};

const GW: GatewayAddress = GatewayAddress { ip: 1 };
const UNKNOWN: ProbeCapability = ProbeCapability { pcp: None, pmp: None, upnp: None };

fn mapping(ip: u32, port: u16, lease: u64, now: u64) -> Mapping {
    Mapping::new(Protocol::Pcp, GW, ExternalAddress { ip, port }, 4242, lease, now).unwrap()
}

#[test]
fn new_cache_is_empty() {
    let mut c = MappingCache::new();
    assert_eq!(c, MappingCache { entry: None, generation: 0, capability: UNKNOWN });
    assert_eq!(c.peek(0), None);
    assert_eq!(c.current(0), (None, None));
}

#[test]
fn first_write_is_announced() {
    let mut c = MappingCache::new();
    let m = mapping(7, 9, 100, 10);
    assert_eq!(c.set(m, 0), Some(ChangeNotification::Mapped(m)));
    assert_eq!(c.entry, Some(Entry { mapping: m, generation: 0 }));
    assert_eq!(c.current(10), (Some(m), None));
    assert_eq!(c.peek(109), Some(m));
}

#[test]
fn write_of_the_same_address_is_not_announced() {
    let mut c = MappingCache::new();
    c.set(mapping(7, 9, 100, 10), 0);
    let renewed = mapping(7, 9, 100, 60);
    assert_eq!(c.set(renewed, 0), None);
    assert_eq!(c.peek(159), Some(renewed));
}

#[test]
fn write_of_another_address_is_announced() {
    let mut c = MappingCache::new();
    c.set(mapping(7, 9, 100, 10), 0);
    let other_port = mapping(7, 10, 100, 60);
    assert_eq!(c.set(other_port, 0), Some(ChangeNotification::Mapped(other_port)));
    let other_ip = mapping(8, 10, 100, 70);
    assert_eq!(c.set(other_ip, 0), Some(ChangeNotification::Mapped(other_ip)));
    assert_eq!(c.peek(70), Some(other_ip));
}

#[test]
fn write_for_an_older_generation_is_dropped() {
    let mut c = MappingCache::new();
    c.invalidate();
    c.invalidate();
    assert_eq!(c.generation, 2);
    let before = c;
    assert_eq!(c.set(mapping(7, 9, 100, 10), 1), None);
    assert_eq!(c, before);
    assert_eq!(c.set(mapping(7, 9, 100, 10), 0), None);
    assert_eq!(c, before);
    assert_eq!(c.peek(10), None);
}

#[test]
fn write_for_the_present_generation_is_taken() {
    let mut c = MappingCache::new();
    c.invalidate();
    let m = mapping(7, 9, 100, 10);
    assert_eq!(c.set(m, 1), Some(ChangeNotification::Mapped(m)));
    assert_eq!(c.entry, Some(Entry { mapping: m, generation: 1 }));
}

#[test]
fn read_drops_a_mapping_whose_lease_ran_out() {
    let mut c = MappingCache::new();
    let m = mapping(7, 9, 100, 10);
    c.set(m, 0);
    assert_eq!(c.current(109), (Some(m), None));
    assert_eq!(
        c.current(110),
        (None, Some(ChangeNotification::Revoked(ClearReason::Expired)))
    );
    assert_eq!(c.entry, None);
    assert_eq!(c.current(110), (None, None));
    assert_eq!(c.current(50), (None, None));
}

#[test]
fn peek_leaves_the_cache_alone() {
    let mut c = MappingCache::new();
    let m = mapping(7, 9, 100, 10);
    c.set(m, 0);
    let before = c;
    assert_eq!(c.peek(500), None);
    assert_eq!(c, before);
    assert_eq!(c.peek(20), Some(m));
}

#[test]
fn clear_tells_of_a_mapping_removed() {
    let mut c = MappingCache::new();
    c.set(mapping(7, 9, 100, 10), 0);
    assert_eq!(
        c.clear(ClearReason::PortChanged),
        Some(ChangeNotification::Revoked(ClearReason::PortChanged))
    );
    assert_eq!(c.entry, None);
    assert_eq!(c.clear(ClearReason::PortChanged), None);
    assert_eq!(c.clear(ClearReason::Closed), None);
}

#[test]
fn invalidate_moves_one_generation_on() {
    let mut c = MappingCache::new();
    c.set(mapping(7, 9, 100, 10), 0);
    assert_eq!(
        c.invalidate(),
        Some(ChangeNotification::Revoked(ClearReason::NetworkDown))
    );
    assert_eq!(c, MappingCache { entry: None, generation: 1, capability: UNKNOWN });
    assert_eq!(c.invalidate(), None);
    assert_eq!(c.generation, 2);
}

#[test]
fn notification_hands_out_its_mapping() {
    let m = mapping(7, 9, 100, 10);
    assert_eq!(ChangeNotification::Mapped(m).mapping(), Some(m));
    assert_eq!(ChangeNotification::Revoked(ClearReason::Expired).mapping(), None);
}
