use portmapper::mapping::{ExternalAddress, GatewayAddress, Mapping};
use portmapper::protocol::{Protocol, ProtocolSet};
use portmapper::round::{settle, ProbeOutcome, Round, Slot, Verdict};

const GW: GatewayAddress = GatewayAddress { ip: 1 };
const EXT: ExternalAddress = ExternalAddress { ip: 7, port: 9 };

fn granted(protocol: Protocol) -> Slot {
    Slot::Granted { mapping: Mapping::new(protocol, GW, EXT, 4242, 600, 0).unwrap() }
}

fn grant(lease: u64) -> ProbeOutcome {
    ProbeOutcome::Granted { local_port: 4242, external: EXT, lease }
}

#[test]
fn usable_grant_settles_as_a_mapping() {
    let slot = settle(Protocol::Upnp, GW, 4242, 1, grant(600), 2);
    assert_eq!(
        slot,
        Slot::Granted {
            mapping: Mapping {
                protocol: Protocol::Upnp,
                gateway: GW,
                external: EXT,
                local_port: 4242,
                lease: 600,
                acquired_at: 2,
                expires_at: 602,
            }
        }
    );
}

#[test]
fn unusable_grant_settles_as_a_refusal() {
    assert_eq!(settle(Protocol::Pcp, GW, 4242, 1, grant(0), 2), Slot::Rejected);
    assert_eq!(settle(Protocol::Pcp, GW, 4242, 1, grant(5), u64::MAX - 4), Slot::Rejected);
}

#[test]
fn grant_for_another_port_is_asked_again() {
    let other = ProbeOutcome::Granted { local_port: 4243, external: EXT, lease: 600 };
    assert_eq!(settle(Protocol::Pcp, GW, 4242, 1, other, 2), Slot::Pending { attempt: 2 });
    assert_eq!(settle(Protocol::Pcp, GW, 4242, 2, other, 2), Slot::Pending { attempt: 3 });
    assert_eq!(settle(Protocol::Pcp, GW, 4242, 3, other, 2), Slot::Failed);
}

#[test]
fn unanswered_attempt_is_repeated_three_times_in_all() {
    assert_eq!(
        settle(Protocol::Pmp, GW, 1, 1, ProbeOutcome::Transient, 0),
        Slot::Pending { attempt: 2 }
    );
    assert_eq!(
        settle(Protocol::Pmp, GW, 1, 2, ProbeOutcome::Transient, 0),
        Slot::Pending { attempt: 3 }
    );
    assert_eq!(settle(Protocol::Pmp, GW, 1, 3, ProbeOutcome::Transient, 0), Slot::Failed);
}

#[test]
fn refusals_settle_at_once() {
    assert_eq!(settle(Protocol::Pmp, GW, 1, 1, ProbeOutcome::Unsupported, 0), Slot::Unsupported);
    assert_eq!(settle(Protocol::Pmp, GW, 1, 1, ProbeOutcome::LeaseRejected, 0), Slot::Rejected);
}

#[test]
fn round_starts_with_first_attempts() {
    let r = Round::start(ProtocolSet { pcp: true, pmp: false, upnp: true });
    assert_eq!(
        r,
        Round {
            pcp: Slot::Pending { attempt: 1 },
            pmp: Slot::Skipped,
            upnp: Slot::Pending { attempt: 1 },
        }
    );
    assert_eq!(r.get(Protocol::Pcp), Slot::Pending { attempt: 1 });
    assert_eq!(r.get(Protocol::Pmp), Slot::Skipped);
    assert_eq!(r.get(Protocol::Upnp), Slot::Pending { attempt: 1 });
}

#[test]
fn put_replaces_one_slot() {
    let mut r = Round::start(ProtocolSet { pcp: true, pmp: true, upnp: true });
    r.put(Protocol::Pmp, Slot::Failed);
    assert_eq!(
        r,
        Round {
            pcp: Slot::Pending { attempt: 1 },
            pmp: Slot::Failed,
            upnp: Slot::Pending { attempt: 1 },
        }
    );
    r.put(Protocol::Pcp, Slot::Unsupported);
    r.put(Protocol::Upnp, Slot::Rejected);
    assert_eq!(r, Round { pcp: Slot::Unsupported, pmp: Slot::Failed, upnp: Slot::Rejected });
}

#[test]
fn preferred_mapping_wins() {
    let r = Round { pcp: granted(Protocol::Pcp), pmp: Slot::Failed, upnp: granted(Protocol::Upnp) };
    assert_eq!(r.decide(), Verdict::Won(Mapping::new(Protocol::Pcp, GW, EXT, 4242, 600, 0).unwrap()));
    let r = Round {
        pcp: granted(Protocol::Pcp),
        pmp: Slot::Pending { attempt: 1 },
        upnp: Slot::Pending { attempt: 1 },
    };
    assert_eq!(r.decide(), Verdict::Won(Mapping::new(Protocol::Pcp, GW, EXT, 4242, 600, 0).unwrap()));
}

#[test]
fn mapping_waits_for_preferred_protocols() {
    let r = Round {
        pcp: Slot::Pending { attempt: 2 },
        pmp: Slot::Unsupported,
        upnp: granted(Protocol::Upnp),
    };
    assert_eq!(r.decide(), Verdict::Undecided);
    let r = Round {
        pcp: Slot::Unsupported,
        pmp: Slot::Pending { attempt: 1 },
        upnp: granted(Protocol::Upnp),
    };
    assert_eq!(r.decide(), Verdict::Undecided);
}

#[test]
fn fallback_wins_once_the_preferred_are_lost() {
    let r = Round { pcp: Slot::Unsupported, pmp: Slot::Skipped, upnp: granted(Protocol::Upnp) };
    assert_eq!(r.decide(), Verdict::Won(Mapping::new(Protocol::Upnp, GW, EXT, 4242, 600, 0).unwrap()));
    let r = Round { pcp: Slot::Rejected, pmp: granted(Protocol::Pmp), upnp: Slot::Pending { attempt: 1 } };
    assert_eq!(r.decide(), Verdict::Won(Mapping::new(Protocol::Pmp, GW, EXT, 4242, 600, 0).unwrap()));
}

#[test]
fn round_without_a_mapping_is_lost_once_all_have_answered() {
    let r = Round { pcp: Slot::Unsupported, pmp: Slot::Failed, upnp: Slot::Rejected };
    assert_eq!(r.decide(), Verdict::Lost);
    let r = Round { pcp: Slot::Skipped, pmp: Slot::Skipped, upnp: Slot::Skipped };
    assert_eq!(r.decide(), Verdict::Lost);
    let r = Round { pcp: Slot::Unsupported, pmp: Slot::Failed, upnp: Slot::Pending { attempt: 3 } };
    assert_eq!(r.decide(), Verdict::Undecided);
}
