//! What holds of the port mapper whatever is done to it.

use vstd::prelude::*;
use crate::cache::{ChangeNotification, ClearReason, MappingCache};
use crate::client::external_of;
use crate::mapper::{Command, Effects, PortMapper, Signal, State};
use crate::mapping::{GatewayAddress, Mapping};
use crate::protocol::{after_unsupported, ruled_out, Finding, ProbeCapability, ProbeResult};
use crate::protocol::{Protocol, ProtocolSet};
use crate::protocol::CAPABILITY_VALIDITY;
use crate::round::{ProbeOutcome, Round, Slot, Verdict};
use crate::schedule::MAX_ATTEMPTS;

verus! {

/// The mapper after `signals` have been handled in turn.
pub open spec fn run(start: PortMapper, signals: Seq<Signal>) -> PortMapper
    decreases signals.len(),
{
    if signals.len() == 0 {
        start
    } else {
        run(start, signals.drop_last()).next(signals.last()).0
    }
}

/// Each of `signals` can be handled when its turn comes.
pub open spec fn admissible(start: PortMapper, signals: Seq<Signal>) -> bool
    decreases signals.len(),
{
    signals.len() == 0 || {
        &&& admissible(start, signals.drop_last())
        &&& run(start, signals.drop_last()).admits(signals.last())
    }
}

/// One report of a network change for each of `times`.
pub open spec fn network_downs(times: Seq<u64>) -> Seq<Signal> {
    Seq::new(times.len(), |i: int| Signal::NetworkDown { now: times[i] })
}

/// Whatever signals are handled, the parts of the mapper keep fitting
/// together.
pub proof fn lemma_run_keeps_wf(start: PortMapper, signals: Seq<Signal>)
    requires
        start.wf(),
        admissible(start, signals),
    ensures
        run(start, signals).wf(),
    decreases signals.len(),
{
    if signals.len() > 0 {
        lemma_run_keeps_wf(start, signals.drop_last());
        run(start, signals.drop_last()).lemma_next_keeps_wf(signals.last());
    }
}

/// No signal takes the generation back, and a report of a network change to
/// a client that is not closed takes it on by one.
pub proof fn lemma_generation_moves_on(before: PortMapper, signal: Signal)
    requires
        before.wf(),
        before.admits(signal),
    ensures
        before.next(signal).0.cache.generation >= before.cache.generation,
        signal is NetworkDown && !(before.state is Closed) ==> before.next(
            signal,
        ).0.cache.generation == before.cache.generation + 1,
{
}

/// Whatever signals are handled, the generation never falls.
pub proof fn lemma_generation_never_falls(start: PortMapper, signals: Seq<Signal>)
    requires
        start.wf(),
        admissible(start, signals),
    ensures
        run(start, signals).cache.generation >= start.cache.generation,
    decreases signals.len(),
{
    if signals.len() > 0 {
        let earlier = signals.drop_last();
        lemma_generation_never_falls(start, earlier);
        lemma_run_keeps_wf(start, earlier);
        lemma_generation_moves_on(run(start, earlier), signals.last());
    }
}

/// Reports of network changes are counted: after one for each of `times`,
/// the generation of a client that is not closed has grown by their number.
pub proof fn lemma_network_downs_are_counted(start: PortMapper, times: Seq<u64>)
    requires
        start.wf(),
        !(start.state is Closed),
        start.cache.generation + times.len() <= u64::MAX,
    ensures
        admissible(start, network_downs(times)),
        !(run(start, network_downs(times)).state is Closed),
        run(start, network_downs(times)).cache.generation == start.cache.generation
            + times.len(),
    decreases times.len(),
{
    if times.len() > 0 {
        assert(network_downs(times).drop_last() =~= network_downs(times.drop_last()));
        lemma_network_downs_are_counted(start, times.drop_last());
        lemma_run_keeps_wf(start, network_downs(times.drop_last()));
    }
}

/// A write that is tagged with an older generation than the cache's own
/// leaves the cache as it is and tells the observer nothing.
pub proof fn lemma_stale_write_is_dropped(cache: MappingCache, mapping: Mapping, generation: u64)
    requires
        generation < cache.generation,
    ensures
        cache.wrote(mapping, generation) == cache,
        !cache.announces(mapping, generation),
{
}

/// An answer that was made for another generation than the present one, or
/// for another round than the one that was started last, changes nothing,
/// whatever it says.
pub proof fn lemma_stale_answer_is_dropped(before: PortMapper, signal: Signal)
    requires
        match signal {
            Signal::Reply { generation, serial, .. } => generation != before.cache.generation
                || serial != before.serial,
            Signal::Gateway { generation, .. } => generation != before.cache.generation,
            _ => false,
        },
    ensures
        before.next(signal) == (before, Effects::quiet()),
{
}

/// What a read returns has a lease that has not run out and was written for
/// the present generation; a mapping whose lease has run out is gone from
/// the cache once the read is done.
pub proof fn lemma_served_mapping_is_current(mapper: PortMapper, now: u64)
    requires
        mapper.wf(),
    ensures
        mapper.cache.visible(now) matches Some(m) ==> {
            &&& m.expires_at > now
            &&& mapper.cache.entry matches Some(e)
            &&& e.mapping == m
            &&& e.generation == mapper.cache.generation
        },
        mapper.cache.swept(now).stored() == mapper.cache.visible(now),
        mapper.next(Signal::Kick { now }).0.cache.stored() == mapper.cache.visible(now),
{
}

/// Whatever signals have been handled, a mapping that is served was written
/// for the generation that the network has by then.
pub proof fn lemma_served_mapping_is_never_stale(
    start: PortMapper,
    signals: Seq<Signal>,
    now: u64,
)
    requires
        start.wf(),
        admissible(start, signals),
        run(start, signals).cache.visible(now) is Some,
    ensures
        run(start, signals).cache.entry matches Some(e) && e.generation == run(
            start,
            signals,
        ).cache.generation && e.mapping.expires_at > now,
{
    lemma_run_keeps_wf(start, signals);
}

/// Setting the local port that is already set changes nothing: no probe is
/// started and the observer is told nothing.
pub proof fn lemma_same_port_changes_nothing(before: PortMapper)
    ensures
        before.next(Signal::LocalPort { port: before.local_port }) == (before, Effects::quiet()),
{
}

/// Setting another local port while a mapping is stored drops the mapping
/// and tells the observer so, once.  A new mapping is then being sought: the
/// caller is asked for the gateway, or the round that was scheduled stays
/// scheduled.
pub proof fn lemma_port_change_revokes(before: PortMapper, port: u16)
    requires
        before.wf(),
        before.cache.entry is Some,
        port != before.local_port,
    ensures
        ({
            let (after, effects) = before.next(Signal::LocalPort { port });
            &&& after.local_port == port
            &&& after.cache.entry is None
            &&& effects.notification == Some(ChangeNotification::Revoked(ClearReason::PortChanged))
            &&& if before.state is Waiting {
                after.state == before.state && effects.command == Command::Nothing
            } else {
                after.state is Locating && effects.command == (Command::LocateGateway {
                    generation: after.cache.generation,
                })
            }
        }),
{
}

/// The observer is told of every change of the stored external address, and
/// of nothing else: a signal comes with no notification exactly where it
/// leaves the stored external address as it was; a revocation comes where a
/// mapping was stored and none is any more; a mapping announced is the one
/// that is stored from then on.
pub proof fn lemma_notification_follows_store(before: PortMapper, signal: Signal)
    requires
        before.wf(),
        before.admits(signal),
    ensures
        ({
            let (after, effects) = before.next(signal);
            match effects.notification {
                None => external_of(after.cache.stored()) == external_of(before.cache.stored()),
                Some(ChangeNotification::Revoked(_)) => {
                    &&& before.cache.stored() is Some
                    &&& after.cache.stored() is None
                },
                Some(ChangeNotification::Mapped(m)) => {
                    &&& after.cache.stored() == Some(m)
                    &&& external_of(before.cache.stored()) != Some(m.external)
                },
            }
        }),
{
    match signal {
        Signal::Reply { generation, serial, protocol, outcome, now } => {
            if before.awaits_reply(generation, serial, protocol) {
                let renewal = before.state->Probing_renewal;
                let answered = before.reply_round(protocol, outcome, now);
                if renewal && outcome is Unsupported {
                    assert(answered.slot(protocol) is Unsupported);
                    assert forall|p: Protocol| !answered.wins(p) by {
                        assert(answered.slot(p).lost());
                    }
                }
            }
        },
        _ => {},
    }
}

/// A mapping that comes to be stored where none was is announced to the
/// observer.
pub proof fn lemma_new_mapping_is_announced(before: PortMapper, signal: Signal)
    requires
        before.wf(),
        before.admits(signal),
        before.cache.stored() is None,
        before.next(signal).0.cache.stored() is Some,
    ensures
        before.next(signal).1.notification == Some(
            ChangeNotification::Mapped(before.next(signal).0.cache.stored()->0),
        ),
{
    lemma_notification_follows_store(before, signal);
}

/// Every answer that a round awaits brings the round nearer its end: either
/// the round is over, or fewer answers can follow than before.  A round thus
/// takes no more than `MAX_ATTEMPTS` answers for each protocol.
pub proof fn lemma_answer_brings_round_on(
    before: PortMapper,
    generation: u64,
    serial: u64,
    protocol: Protocol,
    outcome: ProbeOutcome,
    now: u64,
)
    requires
        before.wf(),
        before.awaits_reply(generation, serial, protocol),
    ensures
        before.state->Probing_round.attempts_left() <= 3 * MAX_ATTEMPTS,
        before.next(Signal::Reply { generation, serial, protocol, outcome, now }).0.state
            matches State::Probing { round, .. } ==> round.attempts_left()
            < before.state->Probing_round.attempts_left(),
{
    let round = before.state->Probing_round;
    assert(round.slot(Protocol::Pcp).attempts_left() <= MAX_ATTEMPTS);
    assert(round.slot(Protocol::Pmp).attempts_left() <= MAX_ATTEMPTS);
    assert(round.slot(Protocol::Upnp).attempts_left() <= MAX_ATTEMPTS);
}

/// Where the most preferred protocol has a mapping, the round yields it,
/// whatever the others have.
pub proof fn lemma_preferred_grant_wins(round: Round)
    requires
        round.slot(Protocol::Pcp) is Granted,
    ensures
        round.verdict() == Verdict::Won(round.slot(Protocol::Pcp)->mapping),
{
}

/// The mapping that a round yields is that of one protocol, and every
/// protocol preferred over that one has been left out, has failed or has
/// refused: none of them has a mapping, and none is still outstanding.
pub proof fn lemma_winner_has_no_rival(round: Round, gateway: GatewayAddress, local_port: u16)
    requires
        round.wf(gateway, local_port),
        round.verdict() is Won,
    ensures
        ({
            let m = round.verdict()->Won_0;
            &&& round.slot(m.protocol) == (Slot::Granted { mapping: m })
            &&& forall|q: Protocol| q.outranks(m.protocol) ==> (#[trigger] round.slot(q)).lost()
        }),
{
    let p = round.lemma_won_by();
    round.lemma_clear_before(p);
}

/// While a protocol's answer is outstanding, no protocol that it is
/// preferred over decides the round.
pub proof fn lemma_outstanding_holds_back(round: Round, p: Protocol, q: Protocol)
    requires
        round.slot(p) is Pending,
        p.outranks(q),
    ensures
        !round.wins(q),
{
}

/// A round tries a protocol only together with every protocol preferred
/// over it that no fresh finding rules out.
pub proof fn lemma_round_tries_preferred(
    before: PortMapper,
    generation: u64,
    gateway: GatewayAddress,
    now: u64,
    p: Protocol,
    q: Protocol,
)
    requires
        before.next(Signal::Gateway { generation, gateway: Some(gateway), now }).1.command
            matches Command::Probe { protocols, .. } && protocols.has(q),
        p.outranks(q),
        !ruled_out(before.cache.capability, p, now),
    ensures
        before.next(Signal::Gateway { generation, gateway: Some(gateway), now }).1.command
            matches Command::Probe { protocols, .. } && protocols.has(p),
{
}

/// The renewal of a mapping is set no later than half its lease after it was
/// acquired, and so before the lease runs out.
pub proof fn lemma_renewal_is_timely(mapping: Mapping)
    requires
        mapping.wf(),
    ensures
        mapping.acquired_at <= mapping.renew_at() < mapping.expires_at,
        2 * (mapping.renew_at() - mapping.acquired_at) <= mapping.lease,
{
}

/// A signal that brings the mapper to `Mapped` leaves it with a mapping
/// stored and the renewal set by that mapping, before its lease runs out, and
/// tells the caller to come back at that time.
pub proof fn lemma_grant_schedules_renewal(before: PortMapper, signal: Signal)
    requires
        before.wf(),
        before.admits(signal),
        !(before.state is Mapped),
        before.next(signal).0.state is Mapped,
    ensures
        ({
            let (after, effects) = before.next(signal);
            &&& after.cache.stored() matches Some(m)
            &&& m.acquired_at <= m.renew_at() < m.expires_at
            &&& after.state == (State::Mapped { renew_at: m.renew_at() as u64 })
            &&& effects.command == (Command::WaitUntil { deadline: m.renew_at() as u64 })
        }),
{
    before.lemma_next_keeps_wf(signal);
}

/// Once the renewal of the mapping held is due and its lease has not run
/// out, the next tick starts the renewal: the protocol that granted the
/// mapping is asked again, and no other.  Where that protocol has been ruled
/// out, a round of the others is prepared in place of the renewal.
pub proof fn lemma_renewal_starts_when_due(before: PortMapper, now: u64)
    requires
        before.wf(),
        before.state matches State::Mapped { renew_at } && renew_at <= now,
        before.cache.visible(now) matches Some(m) && !ruled_out(
            before.cache.capability,
            m.protocol,
            now,
        ),
    ensures
        ({
            let (after, effects) = before.next(Signal::Tick { now });
            let m = before.cache.visible(now)->0;
            &&& after.state matches State::Probing { renewal, gateway, .. } && renewal && gateway
                == m.gateway
            &&& after.cache == before.cache
            &&& effects.notification is None
            &&& effects.command == after.send_probes(m.gateway, ProtocolSet::singleton(m.protocol))
        }),
{
}

/// An answer that leaves the stored external address as it was, as a renewal
/// by the same address does, is taken without a word to the observer.
pub proof fn lemma_same_address_is_not_announced(before: PortMapper, signal: Signal)
    requires
        before.wf(),
        before.admits(signal),
        external_of(before.next(signal).0.cache.stored()) == external_of(before.cache.stored()),
    ensures
        before.next(signal).1.notification is None,
{
    lemma_notification_follows_store(before, signal);
}

/// A protocol that has answered "unsupported" at `now` is ruled out from
/// then on for `CAPABILITY_VALIDITY` time units, whatever was known before.
pub proof fn lemma_unsupported_is_remembered(
    known: ProbeCapability,
    p: Protocol,
    now: u64,
    t: u64,
)
    requires
        now <= t,
        t - now < CAPABILITY_VALIDITY,
    ensures
        ruled_out(after_unsupported(known, p, now), p, t),
{
}

/// A protocol that a capability probe has found missing at `now` is ruled
/// out from then on for `CAPABILITY_VALIDITY` time units, and one that it has
/// found is not ruled out at all, whatever was known before.
pub proof fn lemma_capability_probe_is_believed(
    before: PortMapper,
    found: ProbeResult,
    p: Protocol,
    now: u64,
    t: u64,
)
    ensures
        ruled_out(before.probed(found, now).cache.capability, p, t) <==> !found.has(p) && now <= t
            && t - now < CAPABILITY_VALIDITY,
{
}

/// What one protocol answers changes nothing in what is believed of the
/// others, nor in how long it is believed.
pub proof fn lemma_other_findings_are_kept(
    known: ProbeCapability,
    p: Protocol,
    q: Protocol,
    now: u64,
    t: u64,
)
    requires
        q != p,
    ensures
        ruled_out(after_unsupported(known, p, now), q, t) == ruled_out(known, q, t),
{
}

/// A protocol is ruled out only on a finding of its own, and only while that
/// finding is younger than `CAPABILITY_VALIDITY`.
pub proof fn lemma_finding_runs_out(known: ProbeCapability, p: Protocol, t: u64)
    requires
        ruled_out(known, p, t),
    ensures
        known.of(p) matches Some(f) && !f.supported && f.learned_at <= t && t - f.learned_at
            < CAPABILITY_VALIDITY,
{
}

/// The time that `signal` bears, if it bears one.
pub open spec fn time_of(signal: Signal) -> Option<u64> {
    match signal {
        Signal::Kick { now } => Some(now),
        Signal::Tick { now } => Some(now),
        Signal::NetworkDown { now } => Some(now),
        Signal::Gateway { now, .. } => Some(now),
        Signal::Reply { now, .. } => Some(now),
        Signal::LocalPort { .. } => None,
        Signal::Close => None,
    }
}

/// The signals bear times that never fall, none before `from` and none after
/// `to`, and none of them reports a network change.
pub open spec fn calm(signals: Seq<Signal>, from: u64, to: u64) -> bool
    decreases signals.len(),
{
    signals.len() == 0 || {
        &&& !(signals.last() is NetworkDown)
        &&& match time_of(signals.last()) {
            Some(now) => from <= now <= to && calm(signals.drop_last(), from, now),
            None => calm(signals.drop_last(), from, to),
        }
    }
}

/// The answer "unsupported" to an attempt that was awaited rules the protocol
/// out for the `CAPABILITY_VALIDITY` time units that follow it.
pub proof fn lemma_unsupported_answer_rules_out(
    before: PortMapper,
    generation: u64,
    serial: u64,
    protocol: Protocol,
    now: u64,
    t: u64,
)
    requires
        before.awaits_reply(generation, serial, protocol),
        now <= t,
        t - now < CAPABILITY_VALIDITY,
    ensures
        ruled_out(
            before.next(
                Signal::Reply {
                    generation,
                    serial,
                    protocol,
                    outcome: ProbeOutcome::Unsupported,
                    now,
                },
            ).0.cache.capability,
            protocol,
            t,
        ),
{
}

/// A protocol that was found missing stays ruled out at `t` through every
/// signal that bears a time between that of the finding and `t`, but for the
/// report of a network change: nothing shortens the time for which a finding
/// is believed, and the finding stays one of no later time than the signal.
pub proof fn lemma_finding_outlasts_signal(before: PortMapper, signal: Signal, p: Protocol, t: u64)
    requires
        !(signal is NetworkDown),
        ruled_out(before.cache.capability, p, t),
        time_of(signal) matches Some(now) ==> before.cache.capability.of(p)->0.learned_at <= now
            <= t,
    ensures
        ruled_out(before.next(signal).0.cache.capability, p, t),
        ({
            let was = before.cache.capability.of(p)->0.learned_at;
            let is = before.next(signal).0.cache.capability.of(p)->0.learned_at;
            &&& was <= is
            &&& is == was || time_of(signal) == Some(is)
        }),
{
}

/// A protocol that was found missing at `learned` stays ruled out until
/// `CAPABILITY_VALIDITY` time units have passed, whatever signals come in
/// the meantime, as long as time does not run backwards and no network
/// change is reported.
pub proof fn lemma_finding_outlasts_run(
    start: PortMapper,
    signals: Seq<Signal>,
    p: Protocol,
    learned: u64,
    t: u64,
)
    requires
        start.cache.capability.of(p) == Some(Finding { supported: false, learned_at: learned }),
        calm(signals, learned, t),
        learned <= t,
        t - learned < CAPABILITY_VALIDITY,
    ensures
        ruled_out(run(start, signals).cache.capability, p, t),
        learned <= run(start, signals).cache.capability.of(p)->0.learned_at <= t,
    decreases signals.len(),
{
    if signals.len() > 0 {
        let earlier = signals.drop_last();
        let last = signals.last();
        match time_of(last) {
            Some(now) => {
                lemma_finding_outlasts_run(start, earlier, p, learned, now);
            },
            None => {
                lemma_finding_outlasts_run(start, earlier, p, learned, t);
            },
        }
        lemma_finding_outlasts_signal(run(start, earlier), last, p, t);
    }
}

/// A round that starts at `now` leaves out every protocol that is ruled out
/// at `now`: no probe is sent through it, and its slot is skipped.  Every
/// other protocol takes part.
pub proof fn lemma_ruled_out_is_not_asked(
    before: PortMapper,
    generation: u64,
    gateway: GatewayAddress,
    now: u64,
    p: Protocol,
)
    requires
        before.awaits_gateway(generation),
    ensures
        ({
            let (after, effects) = before.next(
                Signal::Gateway { generation, gateway: Some(gateway), now },
            );
            let out = ruled_out(before.cache.capability, p, now);
            &&& effects.command matches Command::Probe { protocols, .. } ==> (protocols.has(p)
                <==> !out)
            &&& after.state matches State::Probing { round, .. } ==> (round.slot(p) is Skipped
                <==> out)
            &&& out ==> ruled_out(after.cache.capability, p, now)
        }),
{
}

/// No probe is ever commanded through a protocol that is ruled out at the
/// time of the signal that brings the command: neither at the start of a
/// round, nor for a renewal, nor for the repeat of an unanswered attempt.
pub proof fn lemma_ruled_out_is_never_asked(before: PortMapper, signal: Signal, p: Protocol)
    requires
        before.wf(),
        before.admits(signal),
        before.next(signal).1.command matches Command::Probe { protocols, .. } && protocols.has(p),
    ensures
        time_of(signal) matches Some(now) && !ruled_out(before.cache.capability, p, now)
            && !ruled_out(before.next(signal).0.cache.capability, p, now),
{
}

/// A protocol that has answered "unsupported" is not asked again before
/// `CAPABILITY_VALIDITY` time units have passed since that answer, whatever
/// was known before it and whatever signals come in the meantime, as long as
/// time does not run backwards and no network change is reported: no command
/// that a signal of that time brings sends a probe through it.
pub proof fn lemma_unsupported_is_not_asked_again(
    before: PortMapper,
    generation: u64,
    serial: u64,
    p: Protocol,
    learned: u64,
    between: Seq<Signal>,
    last: Signal,
    now: u64,
)
    requires
        before.wf(),
        before.awaits_reply(generation, serial, p),
        learned <= now,
        now - learned < CAPABILITY_VALIDITY,
        calm(between, learned, now),
        time_of(last) == Some(now),
        ({
            let answered = before.next(
                Signal::Reply {
                    generation,
                    serial,
                    protocol: p,
                    outcome: ProbeOutcome::Unsupported,
                    now: learned,
                },
            ).0;
            &&& admissible(answered, between)
            &&& run(answered, between).admits(last)
        }),
    ensures
        ({
            let answered = before.next(
                Signal::Reply {
                    generation,
                    serial,
                    protocol: p,
                    outcome: ProbeOutcome::Unsupported,
                    now: learned,
                },
            ).0;
            let command = run(answered, between).next(last).1.command;
            !(command matches Command::Probe { protocols, .. } && protocols.has(p))
        }),
{
    let reply = Signal::Reply {
        generation,
        serial,
        protocol: p,
        outcome: ProbeOutcome::Unsupported,
        now: learned,
    };
    let answered = before.next(reply).0;
    before.lemma_next_keeps_wf(reply);
    lemma_run_keeps_wf(answered, between);
    lemma_finding_outlasts_run(answered, between, p, learned, now);
    let reached = run(answered, between);
    if reached.next(last).1.command matches Command::Probe { protocols, .. } && protocols.has(p) {
        lemma_ruled_out_is_never_asked(reached, last, p);
    }
}

/// The serial number changes only where a round starts, and then to a number
/// that the round before did not have: the answers to a round that was given
/// up are not taken for answers to the round that follows it.
pub proof fn lemma_round_start_takes_new_serial(before: PortMapper, signal: Signal)
    requires
        before.wf(),
        before.admits(signal),
    ensures
        ({
            let (after, effects) = before.next(signal);
            &&& after.serial == before.serial || {
                &&& after.serial != before.serial
                &&& after.serial == PortMapper::following(before.serial)
                &&& after.state is Probing
                &&& !(before.state is Probing)
            }
            &&& !(before.state is Probing) && after.state is Probing ==> after.serial
                != before.serial
            &&& effects.command matches Command::Probe { generation, serial, .. } ==> {
                &&& serial == after.serial
                &&& generation == after.cache.generation
            }
        }),
{
}

/// The command that a signal brings is wanted by the mapper as the signal
/// leaves it.
pub proof fn lemma_command_is_wanted(before: PortMapper, signal: Signal)
    requires
        before.wf(),
        before.admits(signal),
        before.next(signal).1.command != Command::Nothing,
    ensures
        before.next(signal).0.wants(before.next(signal).1.command),
{
    before.lemma_next_keeps_wf(signal);
    if let Signal::Reply { generation, serial, protocol, outcome, now } = signal {
        if before.awaits_reply(generation, serial, protocol) {
            if before.next(signal).0.state is Mapped {
                let winner = before.reply_round(protocol, outcome, now).lemma_won_by();
            }
        }
    }
}

/// Once the local port has changed, no probe that was commanded before is
/// wanted any more.  Once the network has changed, neither is any search for
/// the gateway, and once the client is closed, nothing is.
pub proof fn lemma_overtaken_command_is_not_wanted(
    before: PortMapper,
    signal: Signal,
    command: Command,
)
    requires
        before.wf(),
        before.admits(signal),
        !(before.state is Closed),
        before.wants(command),
        match signal {
            Signal::LocalPort { port } => port != before.local_port && command is Probe,
            Signal::NetworkDown { .. } => command is Probe || command is LocateGateway,
            Signal::Close => true,
            _ => false,
        },
    ensures
        !before.next(signal).0.wants(command),
{
}

/// A closed client stays closed and as it is, whatever is done to it.
pub proof fn lemma_closed_is_final(before: PortMapper, signal: Signal)
    requires
        before.wf(),
        before.state is Closed,
    ensures
        before.next(signal) == (before, Effects::quiet()),
{
}

} // verus!
