use portmapper::mapping::{ExternalAddress, GatewayAddress, Mapping};
use portmapper::protocol::Protocol;

const GW: GatewayAddress = GatewayAddress { ip: 0xC0A8_0001 };
const EXT: ExternalAddress = ExternalAddress { ip: 0xCB00_7107, port: 40000 };

#[test]
fn new_mapping_expires_one_lease_after_it_was_acquired() {
    let m = Mapping::new(Protocol::Pmp, GW, EXT, 4242, 120, 1000).unwrap();
    assert_eq!(
        m,
        Mapping {
            protocol: Protocol::Pmp,
            gateway: GW,
            external: EXT,
            local_port: 4242,
            lease: 120,
            acquired_at: 1000,
            expires_at: 1120,
        }
    );
    assert!(m.is_well_formed());
}

#[test]
fn new_mapping_needs_a_lease() {
    assert_eq!(Mapping::new(Protocol::Pcp, GW, EXT, 1, 0, 5), None);
}

#[test]
fn new_mapping_needs_an_expiry_that_fits() {
    assert_eq!(Mapping::new(Protocol::Pcp, GW, EXT, 1, 2, u64::MAX - 1), None);
    assert_eq!(Mapping::new(Protocol::Pcp, GW, EXT, 1, u64::MAX, 1), None);
    let m = Mapping::new(Protocol::Pcp, GW, EXT, 1, 1, u64::MAX - 1).unwrap();
    assert_eq!(m.expires_at, u64::MAX);
}

#[test]
fn mapping_is_valid_until_its_lease_ends() {
    let m = Mapping::new(Protocol::Upnp, GW, EXT, 1, 600, 10).unwrap();
    assert!(m.is_valid_at(10));
    assert!(m.is_valid_at(609));
    assert!(!m.is_valid_at(610));
    assert!(!m.is_valid_at(611));
    assert!(m.is_valid_at(0));
}

#[test]
fn renewal_is_due_at_half_the_lease() {
    let m = Mapping::new(Protocol::Pcp, GW, EXT, 1, 120, 0).unwrap();
    assert_eq!(m.renewal_deadline(), 60);
    let m = Mapping::new(Protocol::Pcp, GW, EXT, 1, 120, 1000).unwrap();
    assert_eq!(m.renewal_deadline(), 1060);
    let m = Mapping::new(Protocol::Pcp, GW, EXT, 1, 121, 1000).unwrap();
    assert_eq!(m.renewal_deadline(), 1060);
    let m = Mapping::new(Protocol::Pcp, GW, EXT, 1, 600, 7).unwrap();
    assert_eq!(m.renewal_deadline(), 307);
}

#[test]
fn renewal_of_the_shortest_lease_is_due_at_once() {
    let m = Mapping::new(Protocol::Pcp, GW, EXT, 1, 1, 500).unwrap();
    assert_eq!(m.renewal_deadline(), 500);
    assert!(m.renewal_deadline() < m.expires_at);
}

#[test]
fn renewal_of_the_longest_lease_does_not_overflow() {
    let m = Mapping::new(Protocol::Pcp, GW, EXT, 1, u64::MAX, 0).unwrap();
    assert_eq!(m.renewal_deadline(), u64::MAX / 2);
}

#[test]
fn well_formedness_is_checked_on_the_fields() {
    let good = Mapping::new(Protocol::Pcp, GW, EXT, 1, 10, 5).unwrap();
    assert!(good.is_well_formed());
    assert!(!Mapping { lease: 0, expires_at: 5, ..good }.is_well_formed());
    assert!(!Mapping { expires_at: 14, ..good }.is_well_formed());
    assert!(!Mapping { expires_at: 4, ..good }.is_well_formed());
    assert!(!Mapping { acquired_at: 6, ..good }.is_well_formed());
}
