//! The port mapper: the state of one client and the rule by which each signal
//! changes it.

use vstd::prelude::*;
use crate::cache::{ChangeNotification, ClearReason, MappingCache};
use crate::mapping::{GatewayAddress, Mapping};
use crate::protocol::{after_unsupported, ruled_out, worth_trying, ProbeCapability, ProbeResult};
use crate::protocol::{Protocol, ProtocolSet};
use crate::round::{settled, ProbeOutcome, Round, Slot, Verdict};
use crate::schedule::{backoff, later, ATTEMPT_TIMEOUT, DEBOUNCE, MAX_ROUNDS, REQUESTED_LEASE};

verus! {

/// Why nothing is under way and nothing is scheduled.
#[derive(Clone, Copy, Debug, PartialEq, Eq, Hash, Structural)]
pub enum IdleReason {
    /// Nobody has asked for a mapping yet.
    NeverProbed,
    /// No gateway could be found.
    NoGateway,
    /// Round after round failed until the retries were spent.
    Exhausted,
}

/// What the mapper is doing.
#[derive(Clone, Copy, Debug, PartialEq, Eq)]
pub enum State {
    /// Nothing is under way and nothing is scheduled.
    Idle { reason: IdleReason },
    /// Probing starts at `until`.
    Waiting { until: u64 },
    /// The caller has been asked for the gateway.
    Locating,
    /// Probes are out to `gateway`.  In a renewal only the protocol of the
    /// mapping held is asked.
    Probing { gateway: GatewayAddress, round: Round, renewal: bool },
    /// A mapping is held, to be renewed at `renew_at`.
    Mapped { renew_at: u64 },
    /// The client was closed.
    Closed,
}

/// The coarse state of the mapper.
#[derive(Clone, Copy, Debug, PartialEq, Eq, Hash, Structural)]
pub enum Phase {
    /// No mapping is being sought; a round may be scheduled.
    Idle,
    /// A mapping is being sought from every protocol worth trying.
    Probing,
    /// A mapping is held and its renewal is scheduled.
    Mapped,
    /// The mapping held is being renewed.
    Renewing,
    /// The client was closed.
    Closed,
}

/// What a caller can make of the mapper at some time.
#[derive(Clone, Copy, Debug, PartialEq, Eq, Hash, Structural)]
pub enum Status {
    /// Nobody has asked for a mapping yet.
    NeverProbed,
    /// A round is under way or scheduled.
    InProgress,
    /// A mapping is held and its lease has not run out.
    Mapped,
    /// No gateway could be found.
    NoGateway,
    /// Every round failed.
    Unavailable,
    /// The client was closed.
    Closed,
}

/// What can happen to the mapper.
#[derive(Clone, Copy, Debug, PartialEq, Eq)]
pub enum Signal {
    /// A caller asks for the mapping at `now`.
    Kick { now: u64 },
    /// The time is `now`.
    Tick { now: u64 },
    /// The local socket is bound to `port`.
    LocalPort { port: u16 },
    /// The network changed at `now`.
    NetworkDown { now: u64 },
    /// The client is closed.
    Close,
    /// The answer to `Command::LocateGateway`.
    Gateway { generation: u64, gateway: Option<GatewayAddress>, now: u64 },
    /// The end of one attempt that `Command::Probe` asked for, with the
    /// generation and the serial number of that command.
    Reply { generation: u64, serial: u64, protocol: Protocol, outcome: ProbeOutcome, now: u64 },
}

/// What the caller is to do next.
#[derive(Clone, Copy, Debug, PartialEq, Eq)]
pub enum Command {
    /// Nothing.
    Nothing,
    /// Find the default gateway and answer with `Signal::Gateway`.
    LocateGateway { generation: u64 },
    /// Ask `gateway`, through each member of `protocols` and in the order of
    /// preference, to map `local_port` for `lease`.  Wait no longer than
    /// `timeout` for the answer to an attempt, and report each attempt's end
    /// with `Signal::Reply`.  `serial` tells the round from those before it.
    Probe {
        generation: u64,
        serial: u64,
        gateway: GatewayAddress,
        local_port: u16,
        lease: u64,
        timeout: u64,
        protocols: ProtocolSet,
    },
    /// Send `Signal::Tick` at `deadline`.
    WaitUntil { deadline: u64 },
    /// Ask the gateway to delete `mapping`; no answer is awaited.
    Release { mapping: Mapping },
}

/// What one signal brings about besides the change of state.
#[derive(Clone, Copy, Debug, PartialEq, Eq)]
pub struct Effects {
    /// What the observer is to be told, if anything.
    pub notification: Option<ChangeNotification>,
    pub command: Command,
}

impl Effects {
    /// Nothing to tell and nothing to do.
    pub open spec fn quiet() -> Effects {
        Effects { notification: None, command: Command::Nothing }
    }
}

/// Why a capability probe was not recorded.
#[derive(Clone, Copy, Debug, PartialEq, Eq, Hash, Structural)]
pub enum ProbeError {
    /// No gateway is known.
    NoGateway,
    /// The client was closed.
    Closed,
}

/// The state of one client.
#[derive(Clone, Copy, Debug, PartialEq, Eq)]
pub struct PortMapper {
    pub state: State,
    pub cache: MappingCache,
    /// The port that the local socket is bound to.
    pub local_port: u16,
    /// How many rounds have failed in a row.
    pub failures: u32,
    /// The serial number of the round that was started last.
    pub serial: u64,
}

impl PortMapper {
    /// The mapper of a new client.
    pub open spec fn initial(local_port: u16) -> PortMapper {
        PortMapper {
            state: State::Idle { reason: IdleReason::NeverProbed },
            cache: MappingCache::empty(),
            local_port,
            failures: 0,
            serial: 0,
        }
    }

    /// The parts fit together: the cache is well formed; a stored mapping is
    /// one of the local port and of the present generation; while `Mapped` a
    /// mapping is stored and the renewal is set by it; a round under way
    /// fits the gateway and the port, and in a renewal one protocol at most
    /// takes part; a closed mapper stores nothing.
    pub open spec fn wf(self) -> bool {
        &&& self.cache.wf()
        &&& self.failures < MAX_ROUNDS
        &&& self.cache.entry matches Some(e) ==> {
            &&& e.mapping.local_port == self.local_port
            &&& e.generation == self.cache.generation
        }
        &&& match self.state {
            State::Mapped { renew_at } => self.cache.entry matches Some(e) && renew_at
                == e.mapping.renew_at(),
            State::Probing { gateway, round, renewal } => {
                &&& round.wf(gateway, self.local_port)
                &&& renewal ==> round.solo()
            },
            State::Closed => self.cache.entry is None,
            _ => true,
        }
    }

    /// The coarse state.
    pub open spec fn phase(self) -> Phase {
        match self.state {
            State::Idle { .. } | State::Waiting { .. } => Phase::Idle,
            State::Locating => Phase::Probing,
            State::Probing { renewal, .. } => if renewal {
                Phase::Renewing
            } else {
                Phase::Probing
            },
            State::Mapped { .. } => Phase::Mapped,
            State::Closed => Phase::Closed,
        }
    }

    /// What a caller can make of the mapper at `now`.
    pub open spec fn status(self, now: u64) -> Status {
        if self.state is Closed {
            Status::Closed
        } else if self.cache.visible(now) is Some {
            Status::Mapped
        } else {
            match self.state {
                State::Idle { reason: IdleReason::NeverProbed } => Status::NeverProbed,
                State::Idle { reason: IdleReason::NoGateway } => Status::NoGateway,
                State::Idle { reason: IdleReason::Exhausted } => Status::Unavailable,
                _ => Status::InProgress,
            }
        }
    }

    /// The command that asks for the gateway.
    pub open spec fn seek_gateway(self) -> Command {
        Command::LocateGateway { generation: self.cache.generation }
    }

    /// The serial number of the round after that of `serial`: the next
    /// number, and 0 after the last.
    pub open spec fn following(serial: u64) -> u64 {
        if serial == u64::MAX {
            0
        } else {
            (serial + 1) as u64
        }
    }

    /// The mapper with a round under way that `tried` take part in.  The
    /// round has a serial number of its own.
    pub open spec fn probing(
        self,
        gateway: GatewayAddress,
        tried: ProtocolSet,
        renewal: bool,
    ) -> PortMapper {
        PortMapper {
            state: State::Probing { gateway, round: Round::begun(tried), renewal },
            serial: PortMapper::following(self.serial),
            ..self
        }
    }

    /// The command that sends probes to `gateway` through `protocols`, for
    /// the round under way.
    pub open spec fn send_probes(self, gateway: GatewayAddress, protocols: ProtocolSet) -> Command {
        Command::Probe {
            generation: self.cache.generation,
            serial: self.serial,
            gateway,
            local_port: self.local_port,
            lease: REQUESTED_LEASE,
            timeout: ATTEMPT_TIMEOUT,
            protocols,
        }
    }

    /// The mapper and the effects once time has moved to `now`; `asked` says
    /// that a caller wants the mapping.
    ///
    /// A stored mapping whose lease has run out is dropped, and the observer
    /// is told.  While `Mapped`, the loss of the mapping starts a search for
    /// the gateway, and the renewal time starts a renewal; where the
    /// protocol that granted the mapping has since been ruled out, the
    /// mapping is kept until its lease runs out and the search starts in
    /// place of the renewal.  A wait that is
    /// over starts the search, and so does a caller's request while idle,
    /// unless the mapper is idle for want of a gateway: only a change of the
    /// network can bring one.
    pub open spec fn on_time(self, now: u64, asked: bool) -> (PortMapper, Effects) {
        let notification = if self.cache.stale(now) {
            Some(ChangeNotification::Revoked(ClearReason::Expired))
        } else {
            None
        };
        let swept = PortMapper { cache: self.cache.swept(now), ..self };
        let search = (
            PortMapper { state: State::Locating, ..swept },
            Effects { notification, command: self.seek_gateway() },
        );
        let stay = (swept, Effects { notification, command: Command::Nothing });
        match self.state {
            State::Closed => (self, Effects::quiet()),
            State::Mapped { renew_at } => match self.cache.visible(now) {
                None => search,
                Some(m) => if now < renew_at {
                    stay
                } else if ruled_out(self.cache.capability, m.protocol, now) {
                    search
                } else {
                    let asking = ProtocolSet::singleton(m.protocol);
                    let renewing = self.probing(m.gateway, asking, true);
                    (
                        renewing,
                        Effects {
                            notification: None,
                            command: renewing.send_probes(m.gateway, asking),
                        },
                    )
                },
            },
            State::Waiting { until } => if now >= until {
                search
            } else {
                stay
            },
            State::Idle { reason } => if asked && reason != IdleReason::NoGateway {
                search
            } else {
                stay
            },
            _ => stay,
        }
    }

    /// The mapper and the effects once the local port is `port`.
    ///
    /// The same port changes nothing.  Another port drops the stored mapping
    /// and tells the observer; unless the mapper was idle without a mapping,
    /// or is waiting for a round that is scheduled anyway, the search for the
    /// gateway starts afresh.
    pub open spec fn on_port(self, port: u16) -> (PortMapper, Effects) {
        if self.state is Closed || port == self.local_port {
            (self, Effects::quiet())
        } else {
            let notification = self.cache.revocation(ClearReason::PortChanged);
            let moved = PortMapper { cache: self.cache.cleared(), local_port: port, ..self };
            if self.state is Waiting || (self.state is Idle && self.cache.entry is None) {
                (moved, Effects { notification, command: Command::Nothing })
            } else {
                (
                    PortMapper { state: State::Locating, failures: 0, ..moved },
                    Effects { notification, command: self.seek_gateway() },
                )
            }
        }
    }

    /// The mapper and the effects once the network has changed at `now`: the
    /// cache moves to the next generation and loses what it held, the
    /// observer is told of a mapping lost, and probing is set to start
    /// `DEBOUNCE` later.
    pub open spec fn on_network_down(self, now: u64) -> (PortMapper, Effects) {
        if self.state is Closed {
            (self, Effects::quiet())
        } else {
            let until = later(now, DEBOUNCE);
            (
                PortMapper {
                    state: State::Waiting { until },
                    cache: self.cache.invalidated(),
                    failures: 0,
                    ..self
                },
                Effects {
                    notification: self.cache.revocation(ClearReason::NetworkDown),
                    command: Command::WaitUntil { deadline: until },
                },
            )
        }
    }

    /// The mapper and the effects once the client is closed: the stored
    /// mapping is dropped, the observer is told, and the gateway is to be
    /// asked to delete it.
    pub open spec fn on_close(self) -> (PortMapper, Effects) {
        if self.state is Closed {
            (self, Effects::quiet())
        } else {
            (
                PortMapper {
                    state: State::Closed,
                    cache: self.cache.cleared(),
                    failures: 0,
                    ..self
                },
                Effects {
                    notification: self.cache.revocation(ClearReason::Closed),
                    command: match self.cache.entry {
                        Some(e) => Command::Release { mapping: e.mapping },
                        None => Command::Nothing,
                    },
                },
            )
        }
    }

    /// The mapper and the command once a round has ended at `now` without a
    /// mapping: the next round is set to start after the backoff, unless this
    /// was the last of `MAX_ROUNDS` in a row.
    pub open spec fn round_failed(self, now: u64) -> (PortMapper, Command) {
        if self.failures + 1 >= MAX_ROUNDS {
            (
                PortMapper {
                    state: State::Idle { reason: IdleReason::Exhausted },
                    failures: 0,
                    ..self
                },
                Command::Nothing,
            )
        } else {
            let until = later(now, backoff(self.failures as nat) as u64);
            (
                PortMapper {
                    state: State::Waiting { until },
                    failures: (self.failures + 1) as u32,
                    ..self
                },
                Command::WaitUntil { deadline: until },
            )
        }
    }

    /// The caller's answer about the gateway is the one awaited.
    pub open spec fn awaits_gateway(self, generation: u64) -> bool {
        self.state is Locating && generation == self.cache.generation
    }

    /// The mapper and the effects once the caller has answered, at `now` and
    /// for `generation`, that the gateway is `gateway`.
    ///
    /// An answer that is not awaited changes nothing.  Without a gateway the
    /// mapper falls idle.  Otherwise a round starts with the protocols that
    /// no fresh finding rules out; where all are ruled out the round has
    /// failed at once.
    pub open spec fn on_gateway(
        self,
        generation: u64,
        gateway: Option<GatewayAddress>,
        now: u64,
    ) -> (PortMapper, Effects) {
        if !self.awaits_gateway(generation) {
            (self, Effects::quiet())
        } else {
            match gateway {
                None => (
                    PortMapper {
                        state: State::Idle { reason: IdleReason::NoGateway },
                        failures: 0,
                        ..self
                    },
                    Effects::quiet(),
                ),
                Some(g) => {
                    let tried = worth_trying(self.cache.capability, now);
                    if tried.none() {
                        let (after, command) = self.round_failed(now);
                        (after, Effects { notification: None, command })
                    } else {
                        let started = self.probing(g, tried, false);
                        (
                            started,
                            Effects { notification: None, command: started.send_probes(g, tried) },
                        )
                    }
                },
            }
        }
    }

    /// The end of an attempt is the one awaited: the round of this
    /// generation and serial number is under way, and the protocol's attempt
    /// is outstanding.
    pub open spec fn awaits_reply(self, generation: u64, serial: u64, protocol: Protocol) -> bool {
        &&& self.state matches State::Probing { round, .. }
        &&& round.slot(protocol) is Pending
        &&& generation == self.cache.generation
        &&& serial == self.serial
    }

    /// The slot of `protocol` once its outstanding attempt has ended in
    /// `outcome` at `now`: as the answer settles it, but that no attempt
    /// follows where the protocol has been ruled out in the meantime.
    pub open spec fn reply_slot(self, protocol: Protocol, outcome: ProbeOutcome, now: u64) -> Slot {
        let answered = settled(
            protocol,
            self.state->Probing_gateway,
            self.local_port,
            self.state->Probing_round.slot(protocol)->attempt,
            outcome,
            now,
        );
        if answered is Pending && ruled_out(self.cache.capability, protocol, now) {
            Slot::Unsupported
        } else {
            answered
        }
    }

    /// The round under way once the outstanding attempt of `protocol` has
    /// ended in `outcome` at `now`.
    pub open spec fn reply_round(self, protocol: Protocol, outcome: ProbeOutcome, now: u64) -> Round {
        self.state->Probing_round.with(protocol, self.reply_slot(protocol, outcome, now))
    }

    /// The mapper and the effects once an attempt through `protocol`, made
    /// for the round `serial` of `generation`, has ended in `outcome` at
    /// `now`.
    ///
    /// An end that is not awaited changes nothing.  Otherwise the protocol's
    /// slot is settled.  "Unsupported" is noted as a finding of `now`, and in
    /// a renewal it drops the stored mapping.  An unanswered attempt that
    /// may be repeated is sent again, unless the protocol has been ruled out
    /// in the meantime.  Else the round's verdict decides: a
    /// mapping won is stored and its renewal scheduled; a renewal lost starts
    /// the search for the gateway afresh; any other round lost has failed.
    pub open spec fn on_reply(
        self,
        generation: u64,
        serial: u64,
        protocol: Protocol,
        outcome: ProbeOutcome,
        now: u64,
    ) -> (PortMapper, Effects) {
        if !self.awaits_reply(generation, serial, protocol) {
            (self, Effects::quiet())
        } else {
            let gateway = self.state->Probing_gateway;
            let renewal = self.state->Probing_renewal;
            let slot = self.reply_slot(protocol, outcome, now);
            let round = self.reply_round(protocol, outcome, now);
            let dropped = renewal && outcome is Unsupported;
            let cache = MappingCache {
                capability: if outcome is Unsupported {
                    after_unsupported(self.cache.capability, protocol, now)
                } else {
                    self.cache.capability
                },
                entry: if dropped {
                    None
                } else {
                    self.cache.entry
                },
                ..self.cache
            };
            let notification = if dropped {
                self.cache.revocation(ClearReason::CapabilityLost)
            } else {
                None
            };
            let noted = PortMapper {
                state: State::Probing { gateway, round, renewal },
                cache,
                ..self
            };
            if slot is Pending {
                (
                    noted,
                    Effects {
                        notification,
                        command: self.send_probes(gateway, ProtocolSet::singleton(protocol)),
                    },
                )
            } else {
                match round.verdict() {
                    Verdict::Undecided => (
                        noted,
                        Effects { notification, command: Command::Nothing },
                    ),
                    Verdict::Won(m) => (
                        PortMapper {
                            state: State::Mapped { renew_at: m.renew_at() as u64 },
                            cache: cache.wrote(m, generation),
                            failures: 0,
                            ..self
                        },
                        Effects {
                            notification: if cache.announces(m, generation) {
                                Some(ChangeNotification::Mapped(m))
                            } else {
                                None
                            },
                            command: Command::WaitUntil { deadline: m.renew_at() as u64 },
                        },
                    ),
                    Verdict::Lost => if renewal {
                        (
                            PortMapper { state: State::Locating, ..noted },
                            Effects { notification, command: self.seek_gateway() },
                        )
                    } else {
                        let (after, command) = noted.round_failed(now);
                        (after, Effects { notification, command })
                    },
                }
            }
        }
    }

    /// The overflow that `signal` could cause cannot happen: a network change
    /// needs a generation to move to.
    pub open spec fn admits(self, signal: Signal) -> bool {
        signal is NetworkDown && !(self.state is Closed) ==> self.cache.generation < u64::MAX
    }

    /// The mapper and the effects once `signal` has been handled.
    pub open spec fn next(self, signal: Signal) -> (PortMapper, Effects) {
        match signal {
            Signal::Kick { now } => self.on_time(now, true),
            Signal::Tick { now } => self.on_time(now, false),
            Signal::LocalPort { port } => self.on_port(port),
            Signal::NetworkDown { now } => self.on_network_down(now),
            Signal::Close => self.on_close(),
            Signal::Gateway { generation, gateway, now } => self.on_gateway(
                generation,
                gateway,
                now,
            ),
            Signal::Reply { generation, serial, protocol, outcome, now } => self.on_reply(
                generation,
                serial,
                protocol,
                outcome,
                now,
            ),
        }
    }

    /// A capability probe against `gateway` can be recorded.
    pub open spec fn records(self, gateway: Option<GatewayAddress>) -> bool {
        !(self.state is Closed) && gateway is Some
    }

    /// The mapper once the capability probe that found `result` at `now` has
    /// been recorded: it replaces what was known of every protocol.
    pub open spec fn probed(self, result: ProbeResult, now: u64) -> PortMapper {
        PortMapper {
            cache: MappingCache {
                capability: ProbeCapability::taken(result, now),
                ..self.cache
            },
            ..self
        }
    }

    /// Carrying out `command` still serves the mapper as it is: the answer
    /// that the command leads to is awaited, or the wait that it asks for is
    /// the one that the mapper is in.
    pub open spec fn wants(self, command: Command) -> bool {
        match command {
            Command::Nothing => false,
            Command::LocateGateway { generation } => self.awaits_gateway(generation),
            Command::Probe { generation, serial, protocols, .. } => {
                ||| protocols.pcp && self.awaits_reply(generation, serial, Protocol::Pcp)
                ||| protocols.pmp && self.awaits_reply(generation, serial, Protocol::Pmp)
                ||| protocols.upnp && self.awaits_reply(generation, serial, Protocol::Upnp)
            },
            Command::WaitUntil { deadline } => match self.state {
                State::Waiting { until } => until == deadline,
                State::Mapped { renew_at } => renew_at == deadline,
                _ => false,
            },
            Command::Release { .. } => self.state is Closed,
        }
    }

    /// Handling a signal keeps the parts fitting together.
    pub proof fn lemma_next_keeps_wf(self, signal: Signal)
        requires
            self.wf(),
            self.admits(signal),
        ensures
            self.next(signal).0.wf(),
    {
        if let Signal::Reply { generation, serial, protocol, outcome, now } = signal {
            if self.awaits_reply(generation, serial, protocol) {
                let after = self.next(signal).0;
                if after.state is Mapped {
                    let round = self.reply_round(protocol, outcome, now);
                    let winner = round.lemma_won_by();
                }
            }
        }
    }
}

} // verus!
