//! One round of probing: what each protocol has answered so far, and which
//! mapping, if any, the round yields.

use vstd::prelude::*;
use crate::mapping::{ExternalAddress, GatewayAddress, Mapping};
use crate::protocol::{Protocol, ProtocolSet};
use crate::schedule::MAX_ATTEMPTS;

verus! {

/// How one probe attempt ended.
#[derive(Clone, Copy, Debug, PartialEq, Eq)]
pub enum ProbeOutcome {
    /// The gateway granted a mapping of `local_port` for `lease` time units.
    Granted { local_port: u16, external: ExternalAddress, lease: u64 },
    /// The gateway does not speak the protocol.
    Unsupported,
    /// The gateway refused the mapping.
    LeaseRejected,
    /// No answer came in time.
    Transient,
}

/// Where one protocol stands in a round.
#[derive(Clone, Copy, Debug, PartialEq, Eq)]
pub enum Slot {
    /// Not tried in this round.
    Skipped,
    /// Attempt number `attempt` is under way.
    Pending { attempt: u8 },
    /// The gateway granted `mapping`.
    Granted { mapping: Mapping },
    /// The gateway does not speak the protocol.
    Unsupported,
    /// The gateway refused, or granted what cannot be used.
    Rejected,
    /// Every attempt went unanswered.
    Failed,
}

impl Slot {
    /// The protocol will yield no mapping in this round.
    pub open spec fn lost(self) -> bool {
        self is Skipped || self is Unsupported || self is Rejected || self is Failed
    }

    /// The slot fits protocol `p` in a round that asks `gateway` to map
    /// `local_port`: attempts are counted from 1 to `MAX_ATTEMPTS`, and a
    /// granted mapping is well formed and is what was asked for.
    pub open spec fn fits(self, p: Protocol, gateway: GatewayAddress, local_port: u16) -> bool {
        match self {
            Slot::Pending { attempt } => 1 <= attempt <= MAX_ATTEMPTS,
            Slot::Granted { mapping } => {
                &&& mapping.wf()
                &&& mapping.protocol == p
                &&& mapping.gateway == gateway
                &&& mapping.local_port == local_port
            },
            _ => true,
        }
    }

    /// How many more answers the protocol can give in this round: the
    /// attempt under way and those that may follow it.
    pub open spec fn attempts_left(self) -> nat {
        match self {
            Slot::Pending { attempt } => if attempt <= MAX_ATTEMPTS {
                (MAX_ATTEMPTS - attempt + 1) as nat
            } else {
                0
            },
            _ => 0,
        }
    }
}

/// What a round yields.
#[derive(Clone, Copy, Debug, PartialEq, Eq)]
pub enum Verdict {
    /// An answer that could still change the result is outstanding.
    Undecided,
    /// This mapping is the round's result.
    Won(Mapping),
    /// No protocol yielded a mapping.
    Lost,
}

/// Where a protocol stands after its attempt number `attempt` at mapping
/// `local_port` ended in `outcome` at `now`.  A grant that makes no usable
/// mapping counts as a refusal.  A grant for another port is no answer to
/// what was asked and counts like no answer at all.  An unanswered attempt is
/// repeated until `MAX_ATTEMPTS` are spent.
pub open spec fn settled(
    protocol: Protocol,
    gateway: GatewayAddress,
    local_port: u16,
    attempt: u8,
    outcome: ProbeOutcome,
    now: u64,
) -> Slot {
    let again = if attempt < MAX_ATTEMPTS {
        Slot::Pending { attempt: (attempt + 1) as u8 }
    } else {
        Slot::Failed
    };
    match outcome {
        ProbeOutcome::Granted { local_port: granted_port, external, lease } => if granted_port
            != local_port {
            again
        } else {
            match Mapping::granted(protocol, gateway, external, local_port, lease, now) {
                Some(mapping) => Slot::Granted { mapping },
                None => Slot::Rejected,
            }
        },
        ProbeOutcome::Unsupported => Slot::Unsupported,
        ProbeOutcome::LeaseRejected => Slot::Rejected,
        ProbeOutcome::Transient => again,
    }
}

/// Where a protocol stands after its attempt number `attempt` at mapping
/// `local_port` ended in `outcome` at `now`.
pub fn settle(
    protocol: Protocol,
    gateway: GatewayAddress,
    local_port: u16,
    attempt: u8,
    outcome: ProbeOutcome,
    now: u64,
) -> (slot: Slot)
    ensures
        slot == settled(protocol, gateway, local_port, attempt, outcome, now),
{
    let again = if attempt < MAX_ATTEMPTS {
        Slot::Pending { attempt: attempt + 1 }
    } else {
        Slot::Failed
    };
    match outcome {
        ProbeOutcome::Granted { local_port: granted_port, external, lease } => {
            if granted_port != local_port {
                again
            } else {
                match Mapping::new(protocol, gateway, external, local_port, lease, now) {
                    Some(mapping) => Slot::Granted { mapping },
                    None => Slot::Rejected,
                }
            }
        },
        ProbeOutcome::Unsupported => Slot::Unsupported,
        ProbeOutcome::LeaseRejected => Slot::Rejected,
        ProbeOutcome::Transient => again,
    }
}

/// The slots of the three protocols.
#[derive(Clone, Copy, Debug, PartialEq, Eq)]
pub struct Round {
    pub pcp: Slot,
    pub pmp: Slot,
    pub upnp: Slot,
}

impl Round {
    /// The slot of `p`.
    pub open spec fn slot(self, p: Protocol) -> Slot {
        match p {
            Protocol::Pcp => self.pcp,
            Protocol::Pmp => self.pmp,
            Protocol::Upnp => self.upnp,
        }
    }

    /// The round with the slot of `p` replaced.
    pub open spec fn with(self, p: Protocol, slot: Slot) -> Round {
        match p {
            Protocol::Pcp => Round { pcp: slot, ..self },
            Protocol::Pmp => Round { pmp: slot, ..self },
            Protocol::Upnp => Round { upnp: slot, ..self },
        }
    }

    /// The round in which the first attempt of each member of `tried` is
    /// under way and the other protocols are left out.
    pub open spec fn begun(tried: ProtocolSet) -> Round {
        Round {
            pcp: if tried.pcp { Slot::Pending { attempt: 1 } } else { Slot::Skipped },
            pmp: if tried.pmp { Slot::Pending { attempt: 1 } } else { Slot::Skipped },
            upnp: if tried.upnp { Slot::Pending { attempt: 1 } } else { Slot::Skipped },
        }
    }

    /// Every slot fits a round that asks `gateway` to map `local_port`.
    pub open spec fn wf(self, gateway: GatewayAddress, local_port: u16) -> bool {
        &&& self.pcp.fits(Protocol::Pcp, gateway, local_port)
        &&& self.pmp.fits(Protocol::Pmp, gateway, local_port)
        &&& self.upnp.fits(Protocol::Upnp, gateway, local_port)
    }

    /// How many more answers the round can take.
    pub open spec fn attempts_left(self) -> nat {
        self.pcp.attempts_left() + self.pmp.attempts_left() + self.upnp.attempts_left()
    }

    /// At most one protocol takes part.
    pub open spec fn solo(self) -> bool {
        ||| self.pcp is Skipped && self.pmp is Skipped
        ||| self.pcp is Skipped && self.upnp is Skipped
        ||| self.pmp is Skipped && self.upnp is Skipped
    }

    /// Every protocol preferred over `p` is lost.
    pub open spec fn clear_before(self, p: Protocol) -> bool {
        match p {
            Protocol::Pcp => true,
            Protocol::Pmp => self.pcp.lost(),
            Protocol::Upnp => self.pcp.lost() && self.pmp.lost(),
        }
    }

    /// `p` has a mapping, and no protocol preferred over `p` can still yield
    /// one.
    pub open spec fn wins(self, p: Protocol) -> bool {
        self.slot(p) is Granted && self.clear_before(p)
    }

    /// What the round yields: the mapping of the protocol that wins; failing
    /// that, nothing yet while an answer is outstanding, and nothing at all
    /// once none is.
    pub open spec fn verdict(self) -> Verdict {
        if self.wins(Protocol::Pcp) {
            Verdict::Won(self.pcp->mapping)
        } else if self.wins(Protocol::Pmp) {
            Verdict::Won(self.pmp->mapping)
        } else if self.wins(Protocol::Upnp) {
            Verdict::Won(self.upnp->mapping)
        } else if self.pcp is Pending || self.pmp is Pending || self.upnp is Pending {
            Verdict::Undecided
        } else {
            Verdict::Lost
        }
    }

    /// `clear_before(p)` says of each protocol that is preferred over `p`
    /// that it is lost, and of no other.
    pub proof fn lemma_clear_before(self, p: Protocol)
        ensures
            self.clear_before(p) <==> forall|q: Protocol|
                q.outranks(p) ==> (#[trigger] self.slot(q)).lost(),
    {
        if self.clear_before(p) {
            assert forall|q: Protocol| q.outranks(p) implies (#[trigger] self.slot(q)).lost() by {}
        } else {
            assert(Protocol::Pcp.outranks(Protocol::Pmp));
            assert(Protocol::Pcp.outranks(Protocol::Upnp));
            assert(Protocol::Pmp.outranks(Protocol::Upnp));
            assert(!self.slot(Protocol::Pcp).lost() || !self.slot(Protocol::Pmp).lost());
        }
    }

    /// At most one protocol wins.
    pub proof fn lemma_winner_is_unique(self, p: Protocol, q: Protocol)
        requires
            self.wins(p),
            self.wins(q),
        ensures
            p == q,
    {
    }

    /// The mapping that a round yields is the one in the slot of the protocol
    /// that wins, which the result names.
    pub proof fn lemma_won_by(self) -> (p: Protocol)
        requires
            self.verdict() is Won,
        ensures
            self.wins(p),
            self.slot(p) == (Slot::Granted { mapping: self.verdict()->Won_0 }),
    {
        if self.wins(Protocol::Pcp) {
            Protocol::Pcp
        } else if self.wins(Protocol::Pmp) {
            Protocol::Pmp
        } else {
            Protocol::Upnp
        }
    }

    /// Starts a round that tries the members of `tried`.
    pub fn start(tried: ProtocolSet) -> (r: Round)
        ensures
            r == Round::begun(tried),
            forall|p: Protocol|
                #[trigger] r.slot(p) == (if tried.has(p) {
                    Slot::Pending { attempt: 1 }
                } else {
                    Slot::Skipped
                }),
    {
        Round {
            pcp: if tried.pcp {
                Slot::Pending { attempt: 1 }
            } else {
                Slot::Skipped
            },
            pmp: if tried.pmp {
                Slot::Pending { attempt: 1 }
            } else {
                Slot::Skipped
            },
            upnp: if tried.upnp {
                Slot::Pending { attempt: 1 }
            } else {
                Slot::Skipped
            },
        }
    }

    /// The slot of `p`.
    pub fn get(&self, p: Protocol) -> (s: Slot)
        ensures
            s == self.slot(p),
    {
        match p {
            Protocol::Pcp => self.pcp,
            Protocol::Pmp => self.pmp,
            Protocol::Upnp => self.upnp,
        }
    }

    /// Replaces the slot of `p`.
    pub fn put(&mut self, p: Protocol, slot: Slot)
        ensures
            *final(self) == old(self).with(p, slot),
            final(self).slot(p) == slot,
            forall|q: Protocol| q != p ==> final(self).slot(q) == old(self).slot(q),
    {
        match p {
            Protocol::Pcp => {
                self.pcp = slot;
            },
            Protocol::Pmp => {
                self.pmp = slot;
            },
            Protocol::Upnp => {
                self.upnp = slot;
            },
        }
    }

    /// What the round yields.
    pub fn decide(&self) -> (v: Verdict)
        ensures
            v == self.verdict(),
    {
        match self.pcp {
            Slot::Granted { mapping } => {
                return Verdict::Won(mapping);
            },
            Slot::Pending { .. } => {
                return Verdict::Undecided;
            },
            _ => {},
        }
        match self.pmp {
            Slot::Granted { mapping } => {
                return Verdict::Won(mapping);
            },
            Slot::Pending { .. } => {
                return Verdict::Undecided;
            },
            _ => {},
        }
        match self.upnp {
            Slot::Granted { mapping } => Verdict::Won(mapping),
            Slot::Pending { .. } => Verdict::Undecided,
            _ => Verdict::Lost,
        }
    }
}

} // verus!
