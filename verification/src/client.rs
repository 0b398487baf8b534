//! The client: the port mapper behind the calls that a transport endpoint
//! makes, and those by which the background worker reports back.

use vstd::prelude::*;
use crate::mapper::{Command, Effects, Phase, PortMapper, ProbeError, Signal, Status};
use crate::mapping::{ExternalAddress, GatewayAddress, Mapping};
use crate::protocol::{ProbeCapability, ProbeResult, Protocol};
use crate::round::ProbeOutcome;

verus! {

/// A port mapping client.
///
/// No call blocks or does I/O.  A call that changes the state returns the
/// `Effects` that the caller has to carry out: a notification for the
/// observer, a command for the background worker.
#[derive(Clone, Copy, Debug, PartialEq, Eq)]
pub struct Client {
    mapper: PortMapper,
}

impl View for Client {
    type V = PortMapper;

    closed spec fn view(&self) -> PortMapper {
        self.mapper
    }
}

/// The external address of a mapping, if there is one.
pub open spec fn external_of(mapping: Option<Mapping>) -> Option<ExternalAddress> {
    match mapping {
        Some(m) => Some(m.external),
        None => None,
    }
}

impl Client {
    #[verifier::type_invariant]
    spec fn fits(self) -> bool {
        self.mapper.wf()
    }

    /// A client for the socket bound to `local_port`.  Nothing has been
    /// probed and nothing is scheduled.
    pub fn new(local_port: u16) -> (c: Client)
        ensures
            c@ == PortMapper::initial(local_port),
            c@.wf(),
    {
        Client { mapper: PortMapper::new(local_port) }
    }

    /// Updates the local port to which UDP traffic is to be mapped.
    ///
    /// The port that is already set changes nothing.  Another port drops the
    /// mapping held for the old one, which the observer is to be told, and
    /// has a new one sought.
    pub fn set_local_port(&mut self, local_port: u16) -> (effects: Effects)
        ensures
            final(self)@.wf(),
            final(self)@ == old(self)@.on_port(local_port).0,
            effects == old(self)@.on_port(local_port).1,
            local_port == old(self)@.local_port ==> final(self)@ == old(self)@ && effects
                == Effects::quiet(),
    {
        self.signal(Signal::LocalPort { port: local_port })
    }

    /// Returns the external address of the mapping that is current at `now`,
    /// if any.  Where the client is idle this starts the search for one; the
    /// effects say so.
    pub fn get_cached_mapping_or_start_creating_one(
        &mut self,
        now: u64,
    ) -> (r: (Option<ExternalAddress>, Effects))
        ensures
            final(self)@.wf(),
            final(self)@ == old(self)@.on_time(now, true).0,
            r.1 == old(self)@.on_time(now, true).1,
            r.0 == external_of(old(self)@.cache.visible(now)),
            r.0 == external_of(final(self)@.cache.stored()),
            r.0 is Some ==> (final(self)@.cache.stored() matches Some(m) && m.expires_at > now),
    {
        proof {
            use_type_invariant(&*self);
        }
        let held = self.mapper.current(now);
        let effects = self.signal(Signal::Kick { now });
        match held {
            Some(m) => (Some(m.external), effects),
            None => (None, effects),
        }
    }

    /// Whether a mapping is held whose lease has not run out at `now`.
    pub fn have_mapping(&self, now: u64) -> (b: bool)
        ensures
            self@.wf(),
            b == self@.cache.visible(now) is Some,
    {
        proof {
            use_type_invariant(&*self);
        }
        self.mapper.current(now).is_some()
    }

    /// Reports at `now` that the network has changed.  The mapping is gone at
    /// once, which the observer is to be told; the generation moves on, so
    /// that answers still under way are dropped when they come; probing is
    /// set to start again after the debounce.
    pub fn note_network_down(&mut self, now: u64) -> (effects: Effects)
        requires
            old(self)@.state is Closed || old(self)@.cache.generation < u64::MAX,
        ensures
            final(self)@.wf(),
            final(self)@ == old(self)@.on_network_down(now).0,
            effects == old(self)@.on_network_down(now).1,
            !(old(self)@.state is Closed) ==> final(self)@.cache.generation == old(
                self,
            )@.cache.generation + 1,
            forall|t: u64| final(self)@.cache.visible(t) is None,
    {
        self.signal(Signal::NetworkDown { now })
    }

    /// Closes the client.  The mapping held is dropped, which the observer is
    /// to be told, and is to be released at the gateway.  Every later call
    /// leaves the client as it is.
    pub fn close(&mut self) -> (effects: Effects)
        ensures
            final(self)@.wf(),
            final(self)@ == old(self)@.on_close().0,
            effects == old(self)@.on_close().1,
            final(self)@.state is Closed,
            final(self)@.cache.stored() is None,
    {
        self.signal(Signal::Close)
    }

    /// Records what a capability probe against `gateway` found at `now`, and
    /// returns it.  The record replaces what was known of every protocol; a
    /// protocol that it finds missing is not asked for `CAPABILITY_VALIDITY`
    /// time units.  Fails where the client is closed, and where no gateway
    /// is known.
    pub fn probe(
        &mut self,
        gateway: Option<GatewayAddress>,
        found: ProbeResult,
        now: u64,
    ) -> (r: Result<ProbeResult, ProbeError>)
        ensures
            final(self)@.wf(),
            r is Ok <==> old(self)@.records(gateway),
            r matches Ok(x) ==> x == found && final(self)@ == old(self)@.probed(found, now),
            r is Err ==> final(self)@ == old(self)@,
            r matches Err(e) ==> (e == ProbeError::Closed <==> old(self)@.state is Closed),
    {
        proof {
            use_type_invariant(&*self);
        }
        let mut mapper = self.mapper;
        let r = mapper.record_capability(gateway, found, now);
        self.mapper = mapper;
        r
    }

    /// Tells the client that the time is `now`: a wait that is over starts
    /// probing, a renewal that is due is started, a lease that has run out
    /// costs the mapping.
    pub fn tick(&mut self, now: u64) -> (effects: Effects)
        ensures
            final(self)@.wf(),
            final(self)@ == old(self)@.on_time(now, false).0,
            effects == old(self)@.on_time(now, false).1,
    {
        self.signal(Signal::Tick { now })
    }

    /// Answers `Command::LocateGateway`: at `now`, the gateway of the network
    /// of `generation` is `gateway`.
    pub fn gateway_located(
        &mut self,
        generation: u64,
        gateway: Option<GatewayAddress>,
        now: u64,
    ) -> (effects: Effects)
        ensures
            final(self)@.wf(),
            final(self)@ == old(self)@.on_gateway(generation, gateway, now).0,
            effects == old(self)@.on_gateway(generation, gateway, now).1,
    {
        self.signal(Signal::Gateway { generation, gateway, now })
    }

    /// Answers `Command::Probe`: an attempt through `protocol`, made for the
    /// round `serial` of `generation`, has ended in `outcome` at `now`.
    pub fn probe_completed(
        &mut self,
        generation: u64,
        serial: u64,
        protocol: Protocol,
        outcome: ProbeOutcome,
        now: u64,
    ) -> (effects: Effects)
        ensures
            final(self)@.wf(),
            final(self)@ == old(self)@.on_reply(generation, serial, protocol, outcome, now).0,
            effects == old(self)@.on_reply(generation, serial, protocol, outcome, now).1,
    {
        self.signal(Signal::Reply { generation, serial, protocol, outcome, now })
    }

    /// Whether carrying out `command` still serves the client as it is.  A
    /// command that a later call has overtaken is not wanted: the round that
    /// it belongs to was given up, or the wait that it asks for was replaced.
    pub fn wants(&self, command: &Command) -> (b: bool)
        ensures
            b == self@.wants(*command),
    {
        self.mapper.is_wanted(command)
    }

    /// Whether the end of an attempt through `protocol`, made for the round
    /// `serial` of `generation`, is awaited: whether that attempt is still
    /// worth making.
    pub fn awaits(&self, generation: u64, serial: u64, protocol: Protocol) -> (b: bool)
        ensures
            b == self@.awaits_reply(generation, serial, protocol),
    {
        self.mapper.awaits(generation, serial, protocol)
    }

    /// A copy of the client's state as it is.
    pub fn snapshot(&self) -> (m: PortMapper)
        ensures
            m == self@,
            m.wf(),
    {
        proof {
            use_type_invariant(&*self);
        }
        self.mapper
    }

    /// The generation of the network: how many changes have been reported.
    pub fn generation(&self) -> (g: u64)
        ensures
            g == self@.cache.generation,
    {
        self.mapper.cache.generation
    }

    /// The local port that is set.
    pub fn local_port(&self) -> (p: u16)
        ensures
            p == self@.local_port,
    {
        self.mapper.local_port
    }

    /// The coarse state of the background work.
    pub fn phase(&self) -> (p: Phase)
        ensures
            p == self@.phase(),
    {
        self.mapper.current_phase()
    }

    /// What to make of the client at `now`: whether a mapping is held and, if
    /// none is, whether one is being sought, was never asked for, or cannot
    /// be had.
    pub fn status(&self, now: u64) -> (s: Status)
        ensures
            s == self@.status(now),
    {
        self.mapper.current_status(now)
    }

    /// What is known of the gateway's support for each protocol, whatever
    /// its age.
    pub fn capability(&self) -> (c: ProbeCapability)
        ensures
            c == self@.cache.capability,
    {
        self.mapper.cache.capability
    }

    fn signal(&mut self, signal: Signal) -> (effects: Effects)
        requires
            old(self)@.admits(signal),
        ensures
            final(self)@.wf(),
            final(self)@ == old(self)@.next(signal).0,
            effects == old(self)@.next(signal).1,
    {
        proof {
            use_type_invariant(&*self);
        }
        let mut mapper = self.mapper;
        let effects = mapper.handle(signal);
        self.mapper = mapper;
        effects
    }
}

} // verus!
