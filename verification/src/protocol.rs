//! The three mapping protocols and what is known about a gateway's support
//! for them.

use vstd::prelude::*;

verus! {

/// How long a learned "unsupported" stays believed, in time units.
pub const CAPABILITY_VALIDITY: u64 = 300;

/// A mapping protocol.  The variants are listed from the most to the least
/// preferred.
#[derive(Clone, Copy, Debug, PartialEq, Eq, Hash, Structural)]
pub enum Protocol {
    /// Port Control Protocol.
    Pcp,
    /// NAT Port Mapping Protocol.
    Pmp,
    /// UPnP Internet Gateway Device control.
    Upnp,
}

impl Protocol {
    /// Position in the order of preference: 0 is tried first.
    pub open spec fn rank(self) -> nat {
        match self {
            Protocol::Pcp => 0,
            Protocol::Pmp => 1,
            Protocol::Upnp => 2,
        }
    }

    /// `self` is preferred over `other`.
    pub open spec fn outranks(self, other: Protocol) -> bool {
        self.rank() < other.rank()
    }
}

/// A set of protocols.
#[derive(Clone, Copy, Debug, PartialEq, Eq)]
pub struct ProtocolSet {
    pub pcp: bool,
    pub pmp: bool,
    pub upnp: bool,
}

impl ProtocolSet {
    /// Membership.
    pub open spec fn has(self, p: Protocol) -> bool {
        match p {
            Protocol::Pcp => self.pcp,
            Protocol::Pmp => self.pmp,
            Protocol::Upnp => self.upnp,
        }
    }

    /// The set that holds `p` and nothing else.
    pub open spec fn singleton(p: Protocol) -> ProtocolSet {
        ProtocolSet {
            pcp: p == Protocol::Pcp,
            pmp: p == Protocol::Pmp,
            upnp: p == Protocol::Upnp,
        }
    }

    /// The members, the most preferred first.
    pub open spec fn listed(self) -> Seq<Protocol> {
        let pcp = if self.pcp {
            seq![Protocol::Pcp]
        } else {
            seq![]
        };
        let pmp = if self.pmp {
            seq![Protocol::Pmp]
        } else {
            seq![]
        };
        let upnp = if self.upnp {
            seq![Protocol::Upnp]
        } else {
            seq![]
        };
        pcp + pmp + upnp
    }

    /// No protocol is a member.
    pub open spec fn none(self) -> bool {
        !self.pcp && !self.pmp && !self.upnp
    }

    /// Membership.
    pub fn contains(&self, p: Protocol) -> (r: bool)
        ensures
            r == self.has(p),
    {
        match p {
            Protocol::Pcp => self.pcp,
            Protocol::Pmp => self.pmp,
            Protocol::Upnp => self.upnp,
        }
    }

    /// The set that holds `p` and nothing else.
    pub fn only(p: Protocol) -> (s: ProtocolSet)
        ensures
            s == ProtocolSet::singleton(p),
            forall|q: Protocol| s.has(q) <==> q == p,
    {
        match p {
            Protocol::Pcp => ProtocolSet { pcp: true, pmp: false, upnp: false },
            Protocol::Pmp => ProtocolSet { pcp: false, pmp: true, upnp: false },
            Protocol::Upnp => ProtocolSet { pcp: false, pmp: false, upnp: true },
        }
    }

    /// The members, the most preferred first.
    pub fn members(&self) -> (v: Vec<Protocol>)
        ensures
            v@ == self.listed(),
            forall|p: Protocol| #[trigger] v@.contains(p) <==> self.has(p),
            forall|i: int, j: int|
                0 <= i < j < v@.len() ==> (#[trigger] v@[i]).outranks(#[trigger] v@[j]),
    {
        let mut v: Vec<Protocol> = Vec::new();
        if self.pcp {
            v.push(Protocol::Pcp);
        }
        if self.pmp {
            v.push(Protocol::Pmp);
        }
        if self.upnp {
            v.push(Protocol::Upnp);
        }
        proof {
            assert(v@ =~= self.listed());
            assert forall|p: Protocol| #[trigger] v@.contains(p) <==> self.has(p) by {
                if self.has(p) {
                    let i: int = match p {
                        Protocol::Pcp => 0,
                        Protocol::Pmp => if self.pcp {
                            1
                        } else {
                            0
                        },
                        Protocol::Upnp => v@.len() - 1,
                    };
                    assert(v@[i] == p);
                }
                if v@.contains(p) {
                    let i = choose|i: int| 0 <= i < v@.len() && v@[i] == p;
                    assert(self.has(v@[i]));
                }
            }
        }
        v
    }

    /// No protocol is a member.
    pub fn is_empty(&self) -> (r: bool)
        ensures
            r == self.none(),
            r <==> forall|q: Protocol| !self.has(q),
    {
        proof {
            if self.none() {
                assert forall|q: Protocol| !self.has(q) by {}
            } else {
                assert(self.has(Protocol::Pcp) || self.has(Protocol::Pmp) || self.has(
                    Protocol::Upnp,
                ));
            }
        }
        !self.pcp && !self.pmp && !self.upnp
    }
}

/// Which protocols a gateway answered to.
#[derive(Clone, Copy, Debug, PartialEq, Eq)]
pub struct ProbeResult {
    pub pcp: bool,
    pub pmp: bool,
    pub upnp: bool,
}

impl ProbeResult {
    /// The flag of `p`.
    pub open spec fn has(self, p: Protocol) -> bool {
        match p {
            Protocol::Pcp => self.pcp,
            Protocol::Pmp => self.pmp,
            Protocol::Upnp => self.upnp,
        }
    }

    /// The flag of `p`.
    pub fn supports(&self, p: Protocol) -> (r: bool)
        ensures
            r == self.has(p),
    {
        match p {
            Protocol::Pcp => self.pcp,
            Protocol::Pmp => self.pmp,
            Protocol::Upnp => self.upnp,
        }
    }
}

/// What was learned of one protocol, and when.
#[derive(Clone, Copy, Debug, PartialEq, Eq)]
pub struct Finding {
    /// Whether the gateway spoke the protocol.
    pub supported: bool,
    pub learned_at: u64,
}

impl Finding {
    /// The finding is younger than `CAPABILITY_VALIDITY` at `now`.  One that
    /// lies in the future is not believed.
    pub open spec fn fresh(self, now: u64) -> bool {
        self.learned_at <= now && now - self.learned_at < CAPABILITY_VALIDITY
    }

    /// The finding is fresh at `now` and says that the protocol is missing.
    pub open spec fn excludes(self, now: u64) -> bool {
        !self.supported && self.fresh(now)
    }

    /// The finding is younger than `CAPABILITY_VALIDITY` at `now`.
    pub fn is_fresh(&self, now: u64) -> (r: bool)
        ensures
            r == self.fresh(now),
    {
        self.learned_at <= now && now - self.learned_at < CAPABILITY_VALIDITY
    }

    /// The finding is fresh at `now` and says that the protocol is missing.
    pub fn rules_out(&self, now: u64) -> (r: bool)
        ensures
            r == self.excludes(now),
    {
        !self.supported && self.is_fresh(now)
    }
}

/// What is known of a gateway's support: for each protocol the last finding,
/// with the time of its own, or nothing.
#[derive(Clone, Copy, Debug, PartialEq, Eq)]
pub struct ProbeCapability {
    pub pcp: Option<Finding>,
    pub pmp: Option<Finding>,
    pub upnp: Option<Finding>,
}

impl ProbeCapability {
    /// Nothing is known.
    pub open spec fn unknown() -> ProbeCapability {
        ProbeCapability { pcp: None, pmp: None, upnp: None }
    }

    /// The finding on `p`.
    pub open spec fn of(self, p: Protocol) -> Option<Finding> {
        match p {
            Protocol::Pcp => self.pcp,
            Protocol::Pmp => self.pmp,
            Protocol::Upnp => self.upnp,
        }
    }

    /// `self` with the finding on `p` replaced.
    pub open spec fn with(self, p: Protocol, finding: Finding) -> ProbeCapability {
        match p {
            Protocol::Pcp => ProbeCapability { pcp: Some(finding), ..self },
            Protocol::Pmp => ProbeCapability { pmp: Some(finding), ..self },
            Protocol::Upnp => ProbeCapability { upnp: Some(finding), ..self },
        }
    }

    /// What is known once a capability probe has found `found` at `now`:
    /// that, of every protocol, and nothing older.
    pub open spec fn taken(found: ProbeResult, now: u64) -> ProbeCapability {
        ProbeCapability {
            pcp: Some(Finding { supported: found.pcp, learned_at: now }),
            pmp: Some(Finding { supported: found.pmp, learned_at: now }),
            upnp: Some(Finding { supported: found.upnp, learned_at: now }),
        }
    }

    /// Nothing is known.
    pub fn new() -> (c: ProbeCapability)
        ensures
            c == ProbeCapability::unknown(),
    {
        ProbeCapability { pcp: None, pmp: None, upnp: None }
    }

    /// What is known once a capability probe has found `found` at `now`.
    pub fn record(found: ProbeResult, now: u64) -> (c: ProbeCapability)
        ensures
            c == ProbeCapability::taken(found, now),
    {
        ProbeCapability {
            pcp: Some(Finding { supported: found.pcp, learned_at: now }),
            pmp: Some(Finding { supported: found.pmp, learned_at: now }),
            upnp: Some(Finding { supported: found.upnp, learned_at: now }),
        }
    }

    /// The finding on `p`.
    pub fn get(&self, p: Protocol) -> (f: Option<Finding>)
        ensures
            f == self.of(p),
    {
        match p {
            Protocol::Pcp => self.pcp,
            Protocol::Pmp => self.pmp,
            Protocol::Upnp => self.upnp,
        }
    }

    /// Whether `p` need not be tried at `now`.
    pub fn rules_out(&self, p: Protocol, now: u64) -> (r: bool)
        ensures
            r == ruled_out(*self, p, now),
    {
        match self.get(p) {
            Some(f) => f.rules_out(now),
            None => false,
        }
    }
}

/// `p` need not be tried at `now`: it was found missing, and that finding is
/// still fresh.
pub open spec fn ruled_out(known: ProbeCapability, p: Protocol, now: u64) -> bool {
    known.of(p) matches Some(f) && f.excludes(now)
}

/// The protocols worth trying at `now`: all but those ruled out.
pub open spec fn worth_trying(known: ProbeCapability, now: u64) -> ProtocolSet {
    ProtocolSet {
        pcp: !ruled_out(known, Protocol::Pcp, now),
        pmp: !ruled_out(known, Protocol::Pmp, now),
        upnp: !ruled_out(known, Protocol::Upnp, now),
    }
}

/// What is known once `p` has answered "unsupported" at `now`: that of `p`,
/// as learned at `now`, and of the others what was known before.
pub open spec fn after_unsupported(
    known: ProbeCapability,
    p: Protocol,
    now: u64,
) -> ProbeCapability {
    known.with(p, Finding { supported: false, learned_at: now })
}

/// The protocols worth trying at `now`: all but those that a fresh finding
/// says are missing.
pub fn candidates(known: &ProbeCapability, now: u64) -> (s: ProtocolSet)
    ensures
        s == worth_trying(*known, now),
        forall|p: Protocol| s.has(p) <==> !ruled_out(*known, p, now),
{
    ProtocolSet {
        pcp: !known.rules_out(Protocol::Pcp, now),
        pmp: !known.rules_out(Protocol::Pmp, now),
        upnp: !known.rules_out(Protocol::Upnp, now),
    }
}

/// Records that `p` answered "unsupported" at `now`.  From `now` on and for
/// `CAPABILITY_VALIDITY` time units `p` is ruled out; what is believed of the
/// other protocols, and for how long, is left as it was.
pub fn learn_unsupported(known: &ProbeCapability, p: Protocol, now: u64) -> (c: ProbeCapability)
    ensures
        c == after_unsupported(*known, p, now),
        forall|t: u64|
            now <= t && t - now < CAPABILITY_VALIDITY ==> #[trigger] ruled_out(c, p, t),
        forall|q: Protocol, t: u64|
            q != p ==> #[trigger] ruled_out(c, q, t) == ruled_out(*known, q, t),
{
    let finding = Finding { supported: false, learned_at: now };
    match p {
        Protocol::Pcp => ProbeCapability { pcp: Some(finding), pmp: known.pmp, upnp: known.upnp },
        Protocol::Pmp => ProbeCapability { pcp: known.pcp, pmp: Some(finding), upnp: known.upnp },
        Protocol::Upnp => ProbeCapability { pcp: known.pcp, pmp: known.pmp, upnp: Some(finding) },
    }
}

} // verus!
