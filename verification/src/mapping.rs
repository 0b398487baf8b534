//! Addresses and the record of one granted port mapping.

use vstd::prelude::*;
use crate::protocol::Protocol;

verus! {

/// An IPv4 address and UDP port that the public Internet sees.  The address
/// is held as the 32-bit number that its four octets spell, first octet
/// highest.
#[derive(Clone, Copy, Debug, PartialEq, Eq, Hash, Structural)]
pub struct ExternalAddress {
    pub ip: u32,
    pub port: u16,
}

/// The IPv4 address of the local gateway, held like that of an
/// `ExternalAddress`.
#[derive(Clone, Copy, Debug, PartialEq, Eq, Hash, Structural)]
pub struct GatewayAddress {
    pub ip: u32,
}

/// A forwarding rule that `gateway` granted through `protocol`: what reaches
/// `external` is sent on to `local_port`, from `acquired_at` until
/// `expires_at`.
#[derive(Clone, Copy, Debug, PartialEq, Eq)]
pub struct Mapping {
    pub protocol: Protocol,
    pub gateway: GatewayAddress,
    pub external: ExternalAddress,
    pub local_port: u16,
    pub lease: u64,
    pub acquired_at: u64,
    pub expires_at: u64,
}

impl Mapping {
    /// The lease is not empty and ends where the record says it ends.
    pub open spec fn wf(self) -> bool {
        self.lease > 0 && self.expires_at == self.acquired_at + self.lease
    }

    /// The lease has not run out at `now`.
    pub open spec fn valid_at(self, now: u64) -> bool {
        now < self.expires_at
    }

    /// When to renew: half the lease after it was acquired.
    pub open spec fn renew_at(self) -> int {
        self.acquired_at + self.lease / 2
    }

    /// The record of a grant received at `now`, if the grant is usable: the
    /// lease must be longer than nothing and its end must be a time that can
    /// be written down.
    pub open spec fn granted(
        protocol: Protocol,
        gateway: GatewayAddress,
        external: ExternalAddress,
        local_port: u16,
        lease: u64,
        now: u64,
    ) -> Option<Mapping> {
        if lease > 0 && now + lease <= u64::MAX {
            Some(
                Mapping {
                    protocol,
                    gateway,
                    external,
                    local_port,
                    lease,
                    acquired_at: now,
                    expires_at: (now + lease) as u64,
                },
            )
        } else {
            None
        }
    }

    /// The record of a grant received at `now`, or `None` if the grant is
    /// unusable.
    pub fn new(
        protocol: Protocol,
        gateway: GatewayAddress,
        external: ExternalAddress,
        local_port: u16,
        lease: u64,
        now: u64,
    ) -> (m: Option<Mapping>)
        ensures
            m == Mapping::granted(protocol, gateway, external, local_port, lease, now),
            m matches Some(x) ==> x.wf(),
            m is Some <==> lease > 0 && now + lease <= u64::MAX,
    {
        if lease == 0 {
            return None;
        }
        match now.checked_add(lease) {
            Some(expires_at) => Some(
                Mapping {
                    protocol,
                    gateway,
                    external,
                    local_port,
                    lease,
                    acquired_at: now,
                    expires_at,
                },
            ),
            None => None,
        }
    }

    /// Whether the fields keep the record's invariant.
    pub fn is_well_formed(&self) -> (r: bool)
        ensures
            r == self.wf(),
    {
        self.lease > 0 && self.expires_at >= self.acquired_at && self.expires_at
            - self.acquired_at == self.lease
    }

    /// Whether the lease has not run out at `now`.
    pub fn is_valid_at(&self, now: u64) -> (r: bool)
        ensures
            r == self.valid_at(now),
    {
        now < self.expires_at
    }

    /// When to renew: half the lease after it was acquired, which is before
    /// it runs out.
    pub fn renewal_deadline(&self) -> (t: u64)
        requires
            self.wf(),
        ensures
            t == self.renew_at(),
            self.acquired_at <= t < self.expires_at,
    {
        self.acquired_at + self.lease / 2
    }
}

} // verus!
