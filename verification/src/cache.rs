//! The mapping cache: the one mapping that is current, the generation of the
//! network it belongs to, and what is known of the gateway's capabilities.

use vstd::prelude::*;
use crate::mapping::Mapping;
use crate::protocol::ProbeCapability;

verus! {

/// Why a mapping left the cache.
#[derive(Clone, Copy, Debug, PartialEq, Eq, Hash, Structural)]
pub enum ClearReason {
    /// Its lease ran out.
    Expired,
    /// The client was closed.
    Closed,
    /// The network changed.
    NetworkDown,
    /// The local port changed.
    PortChanged,
    /// The gateway no longer speaks the protocol that granted it.
    CapabilityLost,
}

/// What an observer is told when the mapping it may rely on changes.
#[derive(Clone, Copy, Debug, PartialEq, Eq)]
pub enum ChangeNotification {
    /// This mapping is now current.
    Mapped(Mapping),
    /// There is no mapping any more.
    Revoked(ClearReason),
}

impl ChangeNotification {
    /// The mapping that the notification carries.
    pub open spec fn carried(self) -> Option<Mapping> {
        match self {
            ChangeNotification::Mapped(m) => Some(m),
            ChangeNotification::Revoked(_) => None,
        }
    }

    /// The mapping that the notification carries; `None` for a revocation.
    pub fn mapping(&self) -> (m: Option<Mapping>)
        ensures
            m == self.carried(),
    {
        match self {
            ChangeNotification::Mapped(m) => Some(*m),
            ChangeNotification::Revoked(_) => None,
        }
    }
}

/// A cached mapping and the generation that its write was tagged with.
#[derive(Clone, Copy, Debug, PartialEq, Eq)]
pub struct Entry {
    pub mapping: Mapping,
    pub generation: u64,
}

/// The cache.
#[derive(Clone, Copy, Debug, PartialEq, Eq)]
pub struct MappingCache {
    pub entry: Option<Entry>,
    pub generation: u64,
    /// What is known of the gateway's support for each protocol.
    pub capability: ProbeCapability,
}

impl MappingCache {
    /// A stored mapping is well formed and was not written for an older
    /// generation than the cache's own.
    pub open spec fn wf(self) -> bool {
        self.entry matches Some(e) ==> e.mapping.wf() && e.generation >= self.generation
    }

    /// The cache of a new client.
    pub open spec fn empty() -> MappingCache {
        MappingCache { entry: None, generation: 0, capability: ProbeCapability::unknown() }
    }

    /// The mapping that observers have been told of.
    pub open spec fn stored(self) -> Option<Mapping> {
        match self.entry {
            Some(e) => Some(e.mapping),
            None => None,
        }
    }

    /// The mapping that a read at `now` returns: the stored one unless its
    /// lease has run out.
    pub open spec fn visible(self, now: u64) -> Option<Mapping> {
        match self.entry {
            Some(e) if e.mapping.valid_at(now) => Some(e.mapping),
            _ => None,
        }
    }

    /// The stored mapping's lease has run out at `now`.
    pub open spec fn stale(self, now: u64) -> bool {
        self.entry matches Some(e) && !e.mapping.valid_at(now)
    }

    /// The cache without its mapping.
    pub open spec fn cleared(self) -> MappingCache {
        MappingCache { entry: None, ..self }
    }

    /// The cache after a read at `now`, which drops a mapping that ran out.
    pub open spec fn swept(self, now: u64) -> MappingCache {
        if self.stale(now) {
            self.cleared()
        } else {
            self
        }
    }

    /// A write tagged `generation` is taken: it is not older than the cache.
    pub open spec fn accepts(self, generation: u64) -> bool {
        generation >= self.generation
    }

    /// The cache after a write of `mapping` tagged `generation`.
    pub open spec fn wrote(self, mapping: Mapping, generation: u64) -> MappingCache {
        if self.accepts(generation) {
            MappingCache { entry: Some(Entry { mapping, generation }), ..self }
        } else {
            self
        }
    }

    /// A write of `mapping` tagged `generation` changes what observers see:
    /// it is taken, and the external address is not the one stored.
    pub open spec fn announces(self, mapping: Mapping, generation: u64) -> bool {
        self.accepts(generation) && !(self.entry matches Some(e) && e.mapping.external
            == mapping.external)
    }

    /// The cache after a network change: one generation on, nothing stored,
    /// nothing known of the gateway.
    pub open spec fn invalidated(self) -> MappingCache {
        MappingCache {
            entry: None,
            generation: (self.generation + 1) as u64,
            capability: ProbeCapability::unknown(),
        }
    }

    /// What a removal for `reason` tells observers.
    pub open spec fn revocation(self, reason: ClearReason) -> Option<ChangeNotification> {
        if self.entry is Some {
            Some(ChangeNotification::Revoked(reason))
        } else {
            None
        }
    }

    /// An empty cache of generation 0.
    pub fn new() -> (c: MappingCache)
        ensures
            c == MappingCache::empty(),
            c.wf(),
    {
        MappingCache { entry: None, generation: 0, capability: ProbeCapability::new() }
    }

    /// The mapping that is current at `now`, without changing the cache.
    pub fn peek(&self, now: u64) -> (m: Option<Mapping>)
        ensures
            m == self.visible(now),
            m matches Some(x) ==> x.expires_at > now,
    {
        match self.entry {
            Some(e) => {
                if e.mapping.is_valid_at(now) {
                    Some(e.mapping)
                } else {
                    None
                }
            },
            None => None,
        }
    }

    /// The mapping that is current at `now`.  A stored mapping whose lease has
    /// run out is removed first, and the second component then holds the
    /// notification of that.
    pub fn current(&mut self, now: u64) -> (r: (Option<Mapping>, Option<ChangeNotification>))
        requires
            old(self).wf(),
        ensures
            final(self).wf(),
            *final(self) == old(self).swept(now),
            r.0 == old(self).visible(now),
            r.0 == final(self).stored(),
            r.0 matches Some(m) ==> m.expires_at > now,
            r.1 == if old(self).stale(now) {
                Some(ChangeNotification::Revoked(ClearReason::Expired))
            } else {
                None
            },
    {
        match self.entry {
            Some(e) => {
                if e.mapping.is_valid_at(now) {
                    (Some(e.mapping), None)
                } else {
                    self.entry = None;
                    (None, Some(ChangeNotification::Revoked(ClearReason::Expired)))
                }
            },
            None => (None, None),
        }
    }

    /// Stores `mapping` as written for `generation`.  A write for an older
    /// generation than the cache's own changes nothing.  The result is the
    /// notification that is due: one where the write is taken and the
    /// external address differs from the stored one, none otherwise.
    pub fn set(&mut self, mapping: Mapping, generation: u64) -> (n: Option<ChangeNotification>)
        requires
            old(self).wf(),
            mapping.wf(),
        ensures
            final(self).wf(),
            *final(self) == old(self).wrote(mapping, generation),
            n == if old(self).announces(mapping, generation) {
                Some(ChangeNotification::Mapped(mapping))
            } else {
                None
            },
    {
        if generation < self.generation {
            return None;
        }
        let same = match self.entry {
            Some(e) => e.mapping.external == mapping.external,
            None => false,
        };
        self.entry = Some(Entry { mapping, generation });
        if same {
            None
        } else {
            Some(ChangeNotification::Mapped(mapping))
        }
    }

    /// Removes the stored mapping.  The result is the notification that is
    /// due: one where a mapping was stored.
    pub fn clear(&mut self, reason: ClearReason) -> (n: Option<ChangeNotification>)
        requires
            old(self).wf(),
        ensures
            final(self).wf(),
            *final(self) == old(self).cleared(),
            n == old(self).revocation(reason),
    {
        let had = self.entry.is_some();
        self.entry = None;
        if had {
            Some(ChangeNotification::Revoked(reason))
        } else {
            None
        }
    }

    /// Moves to the next generation after a network change: the stored
    /// mapping goes, and so does what was known of the gateway.  The result
    /// is the notification that is due: one where a mapping was stored.
    pub fn invalidate(&mut self) -> (n: Option<ChangeNotification>)
        requires
            old(self).wf(),
            old(self).generation < u64::MAX,
        ensures
            final(self).wf(),
            *final(self) == old(self).invalidated(),
            final(self).generation == old(self).generation + 1,
            n == old(self).revocation(ClearReason::NetworkDown),
    {
        let had = self.entry.is_some();
        self.entry = None;
        self.capability = ProbeCapability::new();
        self.generation = self.generation + 1;
        if had {
            Some(ChangeNotification::Revoked(ClearReason::NetworkDown))
        } else {
            None
        }
    }
}

} // verus!
