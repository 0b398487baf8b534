//! The port mapper at work: the code that handles each signal, proved to
//! follow the rule.

use vstd::prelude::*;
use crate::cache::{ChangeNotification, ClearReason, MappingCache};
use crate::mapper::{Command, Effects, IdleReason, Phase, PortMapper, ProbeError, Signal, State};
use crate::mapper::Status;
use crate::mapping::{GatewayAddress, Mapping};
use crate::protocol::{candidates, learn_unsupported, ProbeCapability, ProbeResult};
use crate::protocol::{Protocol, ProtocolSet};
use crate::round::{settle, ProbeOutcome, Round, Slot, Verdict};
use crate::schedule::{backoff_delay, deadline_after, ATTEMPT_TIMEOUT, DEBOUNCE, MAX_ROUNDS};
use crate::schedule::REQUESTED_LEASE;

verus! {

impl PortMapper {
    /// The mapper of a new client whose socket is bound to `local_port`.
    pub fn new(local_port: u16) -> (m: PortMapper)
        ensures
            m == PortMapper::initial(local_port),
            m.wf(),
    {
        PortMapper {
            state: State::Idle { reason: IdleReason::NeverProbed },
            cache: MappingCache::new(),
            local_port,
            failures: 0,
            serial: 0,
        }
    }

    /// Handles `signal` and returns what the caller is to do about it.
    pub fn handle(&mut self, signal: Signal) -> (effects: Effects)
        requires
            old(self).wf(),
            old(self).admits(signal),
        ensures
            final(self).wf(),
            *final(self) == old(self).next(signal).0,
            effects == old(self).next(signal).1,
    {
        proof {
            self.lemma_next_keeps_wf(signal);
        }
        match signal {
            Signal::Kick { now } => self.advance(now, true),
            Signal::Tick { now } => self.advance(now, false),
            Signal::LocalPort { port } => self.rebind(port),
            Signal::NetworkDown { now } => self.network_changed(now),
            Signal::Close => self.shut(),
            Signal::Gateway { generation, gateway, now } => self.gateway_found(
                generation,
                gateway,
                now,
            ),
            Signal::Reply { generation, serial, protocol, outcome, now } => self.attempt_ended(
                generation,
                serial,
                protocol,
                outcome,
                now,
            ),
        }
    }

    /// The mapping that is current at `now`; the mapper is left as it is.
    pub fn current(&self, now: u64) -> (m: Option<Mapping>)
        ensures
            m == self.cache.visible(now),
            m matches Some(x) ==> x.expires_at > now,
    {
        self.cache.peek(now)
    }

    /// The coarse state.
    pub fn current_phase(&self) -> (p: Phase)
        ensures
            p == self.phase(),
    {
        match self.state {
            State::Idle { .. } => Phase::Idle,
            State::Waiting { .. } => Phase::Idle,
            State::Locating => Phase::Probing,
            State::Probing { renewal, .. } => {
                if renewal {
                    Phase::Renewing
                } else {
                    Phase::Probing
                }
            },
            State::Mapped { .. } => Phase::Mapped,
            State::Closed => Phase::Closed,
        }
    }

    /// What a caller can make of the mapper at `now`.
    pub fn current_status(&self, now: u64) -> (s: Status)
        ensures
            s == self.status(now),
    {
        match self.state {
            State::Closed => Status::Closed,
            _ => {
                if self.cache.peek(now).is_some() {
                    Status::Mapped
                } else {
                    match self.state {
                        State::Idle { reason: IdleReason::NeverProbed } => Status::NeverProbed,
                        State::Idle { reason: IdleReason::NoGateway } => Status::NoGateway,
                        State::Idle { reason: IdleReason::Exhausted } => Status::Unavailable,
                        _ => Status::InProgress,
                    }
                }
            },
        }
    }

    /// Records what a capability probe against `gateway` found at `now`, and
    /// returns it.  The record replaces what was known of every protocol.
    /// Nothing is recorded once the client is closed, nor where no gateway is
    /// known.
    pub fn record_capability(
        &mut self,
        gateway: Option<GatewayAddress>,
        result: ProbeResult,
        now: u64,
    ) -> (r: Result<ProbeResult, ProbeError>)
        requires
            old(self).wf(),
        ensures
            final(self).wf(),
            r is Ok <==> old(self).records(gateway),
            r matches Ok(found) ==> found == result && *final(self) == old(self).probed(
                result,
                now,
            ),
            r is Err ==> *final(self) == *old(self),
            r matches Err(e) ==> (e == ProbeError::Closed <==> old(self).state is Closed),
    {
        match self.state {
            State::Closed => {
                return Err(ProbeError::Closed);
            },
            _ => {},
        }
        if gateway.is_none() {
            return Err(ProbeError::NoGateway);
        }
        self.cache.capability = ProbeCapability::record(result, now);
        Ok(result)
    }

    /// Whether the end of an attempt through `protocol`, made for the round
    /// `serial` of `generation`, is awaited.
    pub fn awaits(&self, generation: u64, serial: u64, protocol: Protocol) -> (b: bool)
        ensures
            b == self.awaits_reply(generation, serial, protocol),
    {
        match self.state {
            State::Probing { round, .. } => {
                let pending = match round.get(protocol) {
                    Slot::Pending { .. } => true,
                    _ => false,
                };
                pending && generation == self.cache.generation && serial == self.serial
            },
            _ => false,
        }
    }

    /// Whether carrying out `command` still serves the mapper as it is.
    pub fn is_wanted(&self, command: &Command) -> (b: bool)
        ensures
            b == self.wants(*command),
    {
        match command {
            Command::Nothing => false,
            Command::LocateGateway { generation } => {
                match self.state {
                    State::Locating => *generation == self.cache.generation,
                    _ => false,
                }
            },
            Command::Probe { generation, serial, protocols, .. } => {
                (protocols.pcp && self.awaits(*generation, *serial, Protocol::Pcp)) || (
                protocols.pmp && self.awaits(*generation, *serial, Protocol::Pmp)) || (
                protocols.upnp && self.awaits(*generation, *serial, Protocol::Upnp))
            },
            Command::WaitUntil { deadline } => {
                match self.state {
                    State::Waiting { until } => until == *deadline,
                    State::Mapped { renew_at } => renew_at == *deadline,
                    _ => false,
                }
            },
            Command::Release { .. } => {
                match self.state {
                    State::Closed => true,
                    _ => false,
                }
            },
        }
    }

    /// The command that sends probes to `gateway` through `protocols`, for
    /// the round under way.
    fn probe_command(&self, gateway: GatewayAddress, protocols: ProtocolSet) -> (command: Command)
        ensures
            command == self.send_probes(gateway, protocols),
    {
        Command::Probe {
            generation: self.cache.generation,
            serial: self.serial,
            gateway,
            local_port: self.local_port,
            lease: REQUESTED_LEASE,
            timeout: ATTEMPT_TIMEOUT,
            protocols,
        }
    }

    /// Starts a round that `tried` take part in, under a serial number of its
    /// own.
    fn begin_round(&mut self, gateway: GatewayAddress, tried: ProtocolSet, renewal: bool) -> (command:
        Command)
        ensures
            *final(self) == old(self).probing(gateway, tried, renewal),
            command == final(self).send_probes(gateway, tried),
    {
        self.state = State::Probing { gateway, round: Round::start(tried), renewal };
        self.serial = if self.serial == u64::MAX {
            0
        } else {
            self.serial + 1
        };
        self.probe_command(gateway, tried)
    }

    /// Moves the time to `now`; `asked` says that a caller wants the mapping.
    fn advance(&mut self, now: u64, asked: bool) -> (effects: Effects)
        requires
            old(self).wf(),
        ensures
            *final(self) == old(self).on_time(now, asked).0,
            effects == old(self).on_time(now, asked).1,
    {
        let generation = self.cache.generation;
        let begin = match self.state {
            State::Closed => {
                return Effects { notification: None, command: Command::Nothing };
            },
            State::Mapped { renew_at } => {
                match self.cache.peek(now) {
                    Some(m) => {
                        if now >= renew_at {
                            if self.cache.capability.rules_out(m.protocol, now) {
                                self.state = State::Locating;
                                return Effects {
                                    notification: None,
                                    command: Command::LocateGateway { generation },
                                };
                            }
                            let asking = ProtocolSet::only(m.protocol);
                            let command = self.begin_round(m.gateway, asking, true);
                            return Effects { notification: None, command };
                        }
                        false
                    },
                    None => true,
                }
            },
            State::Waiting { until } => now >= until,
            State::Idle { reason } => {
                match reason {
                    IdleReason::NoGateway => false,
                    _ => asked,
                }
            },
            _ => false,
        };
        let (_, notification) = self.cache.current(now);
        if begin {
            self.state = State::Locating;
            Effects { notification, command: Command::LocateGateway { generation } }
        } else {
            Effects { notification, command: Command::Nothing }
        }
    }

    /// Sets the local port.
    fn rebind(&mut self, port: u16) -> (effects: Effects)
        requires
            old(self).wf(),
        ensures
            *final(self) == old(self).on_port(port).0,
            effects == old(self).on_port(port).1,
    {
        let restart = match self.state {
            State::Closed => {
                return Effects { notification: None, command: Command::Nothing };
            },
            State::Waiting { .. } => false,
            State::Idle { .. } => self.cache.entry.is_some(),
            _ => true,
        };
        if port == self.local_port {
            return Effects { notification: None, command: Command::Nothing };
        }
        let notification = self.cache.clear(ClearReason::PortChanged);
        self.local_port = port;
        if restart {
            self.state = State::Locating;
            self.failures = 0;
            Effects {
                notification,
                command: Command::LocateGateway { generation: self.cache.generation },
            }
        } else {
            Effects { notification, command: Command::Nothing }
        }
    }

    /// Takes in that the network has changed at `now`.
    fn network_changed(&mut self, now: u64) -> (effects: Effects)
        requires
            old(self).wf(),
            !(old(self).state is Closed) ==> old(self).cache.generation < u64::MAX,
        ensures
            *final(self) == old(self).on_network_down(now).0,
            effects == old(self).on_network_down(now).1,
    {
        match self.state {
            State::Closed => {
                return Effects { notification: None, command: Command::Nothing };
            },
            _ => {},
        }
        let notification = self.cache.invalidate();
        let until = deadline_after(now, DEBOUNCE);
        self.state = State::Waiting { until };
        self.failures = 0;
        Effects { notification, command: Command::WaitUntil { deadline: until } }
    }

    /// Closes the mapper.
    fn shut(&mut self) -> (effects: Effects)
        requires
            old(self).wf(),
        ensures
            *final(self) == old(self).on_close().0,
            effects == old(self).on_close().1,
    {
        match self.state {
            State::Closed => {
                return Effects { notification: None, command: Command::Nothing };
            },
            _ => {},
        }
        let command = match self.cache.entry {
            Some(e) => Command::Release { mapping: e.mapping },
            None => Command::Nothing,
        };
        let notification = self.cache.clear(ClearReason::Closed);
        self.state = State::Closed;
        self.failures = 0;
        Effects { notification, command }
    }

    /// Ends a round that yielded nothing: backs off, or gives up.
    fn fail_round(&mut self, now: u64) -> (command: Command)
        requires
            old(self).failures < MAX_ROUNDS,
        ensures
            *final(self) == old(self).round_failed(now).0,
            command == old(self).round_failed(now).1,
    {
        if self.failures + 1 >= MAX_ROUNDS {
            self.state = State::Idle { reason: IdleReason::Exhausted };
            self.failures = 0;
            Command::Nothing
        } else {
            let until = deadline_after(now, backoff_delay(self.failures));
            self.state = State::Waiting { until };
            self.failures = self.failures + 1;
            Command::WaitUntil { deadline: until }
        }
    }

    /// Takes in the caller's answer about the gateway.
    fn gateway_found(
        &mut self,
        generation: u64,
        gateway: Option<GatewayAddress>,
        now: u64,
    ) -> (effects: Effects)
        requires
            old(self).wf(),
        ensures
            *final(self) == old(self).on_gateway(generation, gateway, now).0,
            effects == old(self).on_gateway(generation, gateway, now).1,
    {
        match self.state {
            State::Locating => {},
            _ => {
                return Effects { notification: None, command: Command::Nothing };
            },
        }
        if generation != self.cache.generation {
            return Effects { notification: None, command: Command::Nothing };
        }
        match gateway {
            None => {
                self.state = State::Idle { reason: IdleReason::NoGateway };
                self.failures = 0;
                Effects { notification: None, command: Command::Nothing }
            },
            Some(g) => {
                let tried = candidates(&self.cache.capability, now);
                if tried.is_empty() {
                    let command = self.fail_round(now);
                    Effects { notification: None, command }
                } else {
                    let command = self.begin_round(g, tried, false);
                    Effects { notification: None, command }
                }
            },
        }
    }

    /// Takes in the end of one attempt.
    fn attempt_ended(
        &mut self,
        generation: u64,
        serial: u64,
        protocol: Protocol,
        outcome: ProbeOutcome,
        now: u64,
    ) -> (effects: Effects)
        requires
            old(self).wf(),
        ensures
            *final(self) == old(self).on_reply(generation, serial, protocol, outcome, now).0,
            effects == old(self).on_reply(generation, serial, protocol, outcome, now).1,
    {
        let quiet = Effects { notification: None, command: Command::Nothing };
        let (gateway, before, renewal) = match self.state {
            State::Probing { gateway, round, renewal } => (gateway, round, renewal),
            _ => {
                return quiet;
            },
        };
        let attempt = match before.get(protocol) {
            Slot::Pending { attempt } => attempt,
            _ => {
                return quiet;
            },
        };
        if generation != self.cache.generation || serial != self.serial {
            return quiet;
        }
        let unsupported = match outcome {
            ProbeOutcome::Unsupported => true,
            _ => false,
        };
        let answered = settle(protocol, gateway, self.local_port, attempt, outcome, now);
        let again = match answered {
            Slot::Pending { .. } => true,
            _ => false,
        };
        let slot = if again && self.cache.capability.rules_out(protocol, now) {
            Slot::Unsupported
        } else {
            answered
        };
        let mut round = before;
        round.put(protocol, slot);
        let mut notification: Option<ChangeNotification> = None;
        if unsupported {
            self.cache.capability = learn_unsupported(&self.cache.capability, protocol, now);
            if renewal {
                notification = self.cache.clear(ClearReason::CapabilityLost);
            }
        }
        self.state = State::Probing { gateway, round, renewal };
        match slot {
            Slot::Pending { .. } => {
                let command = self.probe_command(gateway, ProtocolSet::only(protocol));
                return Effects { notification, command };
            },
            _ => {},
        }
        match round.decide() {
            Verdict::Undecided => Effects { notification, command: Command::Nothing },
            Verdict::Won(m) => {
                proof {
                    let winner = round.lemma_won_by();
                }
                let renew_at = m.renewal_deadline();
                let told = self.cache.set(m, generation);
                self.state = State::Mapped { renew_at };
                self.failures = 0;
                Effects { notification: told, command: Command::WaitUntil { deadline: renew_at } }
            },
            Verdict::Lost => {
                if renewal {
                    self.state = State::Locating;
                    Effects { notification, command: Command::LocateGateway { generation } }
                } else {
                    let command = self.fail_round(now);
                    Effects { notification, command }
                }
            },
        }
    }
}

} // verus!
