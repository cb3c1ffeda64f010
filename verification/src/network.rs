//! The network task: the watch for a visibility window, the framing of the
//! wire, the transmission of the downlink with its history of sent packets,
//! and the routing of what the ground sends.

use crate::buffer::{
    loss_notice, spec_emit_all, spec_pop, spec_push, spec_push_logs, BoundedBuffer, Output,
};
use crate::config::{
    INIT_HANDSHAKE_LIMIT_MS, MAX_FRAME_PAYLOAD, NETWORK_MS, PACKET_HISTORY_BUFFER_CAPACITY,
    VISIBILITY_WINDOW_LIMIT_MS,
};
use crate::state::{low_32, low_32_bits, wrapping_next_u32, SatelliteState, SyncState};
use crate::types::{
    Command, Event, EventData, EventID, Log, LogSource, Metrics, Priority, SatelliteMessage,
    TaskID, TelemetryPacket,
};
use vstd::prelude::*;

verus! {

/// The frame of a payload on the wire: the length of the payload in two
/// bytes, the high byte first, and then the payload.
pub open spec fn frame_of(payload: Seq<u8>) -> Seq<u8> {
    seq![(payload.len() / 256) as u8, (payload.len() % 256) as u8] + payload
}

/// The length that the two bytes in front of a frame announce.
pub open spec fn spec_frame_length(high: u8, low: u8) -> nat {
    (high * 256 + low) as nat
}

/// The payload of a whole frame; `None` for bytes that are no whole frame.
pub open spec fn spec_decode_frame(frame: Seq<u8>) -> Option<Seq<u8>> {
    if frame.len() >= 2 && frame.len() == 2 + spec_frame_length(frame[0], frame[1]) {
        Some(frame.skip(2))
    } else {
        None
    }
}

/// The frame of a payload of at most 65535 bytes; a longer payload has no
/// frame. The payload comes back out of its frame as it went in.
pub fn encode_frame(payload: &Vec<u8>) -> (frame: Option<Vec<u8>>)
    ensures
        payload@.len() <= MAX_FRAME_PAYLOAD ==> frame is Some && frame->0@ == frame_of(payload@),
        payload@.len() > MAX_FRAME_PAYLOAD ==> frame is None,
        frame matches Some(bytes) ==> spec_decode_frame(bytes@) == Some(payload@),
{
    let length: usize = payload.len();
    if length > MAX_FRAME_PAYLOAD {
        return None;
    }
    proof {
        lemma_frame_round_trip(payload@);
    }
    let mut frame: Vec<u8> = Vec::new();
    frame.push((length / 256) as u8);
    frame.push((length % 256) as u8);
    let mut at: usize = 0;
    while at < length
        invariant
            at <= length,
            length == payload@.len(),
            frame@ == seq![(length / 256) as u8, (length % 256) as u8] + payload@.take(at as int),
        decreases length - at,
    {
        frame.push(payload[at]);
        at = at + 1;
    }
    Some(frame)
}

/// The length of the payload that the two bytes in front of a frame
/// announce.
pub fn frame_length(high: u8, low: u8) -> (length: usize)
    ensures
        length == spec_frame_length(high, low),
        length <= MAX_FRAME_PAYLOAD,
{
    (high as usize) * 256 + (low as usize)
}

/// The payload of a whole frame; `None` for bytes that are no whole frame:
/// fewer than two bytes, or not as many behind them as the first two
/// announce.
pub fn decode_frame(frame: &Vec<u8>) -> (payload: Option<Vec<u8>>)
    ensures
        payload is Some <==> spec_decode_frame(frame@) is Some,
        payload matches Some(bytes) ==> Some(bytes@) == spec_decode_frame(frame@),
{
    if frame.len() < 2 {
        return None;
    }
    let length = frame_length(frame[0], frame[1]);
    if frame.len() - 2 != length {
        return None;
    }
    let mut payload: Vec<u8> = Vec::new();
    let mut at: usize = 0;
    while at < length
        invariant
            at <= length,
            length <= MAX_FRAME_PAYLOAD,
            frame@.len() == length + 2,
            payload@ == frame@.skip(2).take(at as int),
        decreases length - at,
    {
        payload.push(frame[at + 2]);
        assert(frame@.skip(2).take(at + 1) =~= frame@.skip(2).take(at as int).push(
            frame@[at + 2],
        ));
        at = at + 1;
    }
    Some(payload)
}

/// A payload that fits a frame comes back out of its frame as it went in.
pub proof fn lemma_frame_round_trip(payload: Seq<u8>)
    requires
        payload.len() <= MAX_FRAME_PAYLOAD,
    ensures
        spec_decode_frame(frame_of(payload)) == Some(payload),
        frame_of(payload).len() == payload.len() + 2,
{
    assert(frame_of(payload).skip(2) =~= payload);
}

/// What the network task keeps from turn to turn.
pub struct NetworkTask {
    /// Whether the satellite was visible at the last poll.
    pub was_visible: bool,
    /// The packets sent last, each at its sequence number modulo the number
    /// of slots.
    pub history: [Option<TelemetryPacket>; PACKET_HISTORY_BUFFER_CAPACITY],
}

/// What the network task does after a poll.
#[derive(Debug, PartialEq, Eq, Clone, Copy, Structural)]
pub enum LinkDirective {
    /// The task ends.
    Stop,
    /// A visibility window opened: the task tries to reach the ground
    /// station within `deadline_ms` milliseconds.
    Connect { deadline_ms: u64 },
    /// The task sleeps for `ms` milliseconds and polls again.
    Sleep { ms: u64 },
}

/// The slot of the history in which the packet of a sequence number stands.
pub open spec fn history_slot(sequence_no: u32) -> int {
    (sequence_no as int) % (PACKET_HISTORY_BUFFER_CAPACITY as int)
}

/// How long a packet waited in the queue, in the low 32 bits of the
/// milliseconds; zero for a packet that was created later than now.
pub open spec fn queue_latency(now: u64, creation_time: u64) -> u32 {
    if now >= creation_time {
        low_32_bits((now - creation_time) as u64)
    } else {
        0
    }
}

/// The distance between two latencies.
pub open spec fn queue_jitter(last_latency: u32, latency: u32) -> u32 {
    if last_latency >= latency {
        (last_latency - latency) as u32
    } else {
        (latency - last_latency) as u32
    }
}

/// The packet that tells the ground how the queue performed for `packet`.
pub open spec fn performance_packet(
    state: SatelliteState,
    metrics: Metrics,
    packet: TelemetryPacket,
    now: u64,
) -> TelemetryPacket {
    let latency = queue_latency(now, packet.creation_time);
    TelemetryPacket {
        priority: packet.priority,
        creation_time: state.spec_synchronized_timestamp(now),
        payload: SatelliteMessage::Telemetry {
            event: Event {
                task_id: TaskID::NetworkService,
                event_id: EventID::QueuePerformance,
                data: EventData::QueuePerformance {
                    latency_ms: latency,
                    jitter_ms: queue_jitter(metrics.last_latency_ms, latency),
                    buffer_fill_rate: state.buffer_fill_rate,
                },
                timestamp: now,
            },
        },
        sequence_no: state.packet_sequence_no,
    }
}

/// The packet as it goes out: stamped with the synchronised time and
/// numbered with the sequence number that is next.
pub open spec fn outgoing_packet(
    state: SatelliteState,
    packet: TelemetryPacket,
    now: u64,
) -> TelemetryPacket {
    TelemetryPacket {
        priority: packet.priority,
        creation_time: state.spec_synchronized_timestamp(now),
        payload: packet.payload,
        sequence_no: state.packet_sequence_no,
    }
}

/// The answer to a synchronisation request that arrived at `now`.
pub open spec fn sync_response(
    state: SatelliteState,
    request: TelemetryPacket,
    now: u64,
) -> TelemetryPacket {
    TelemetryPacket {
        priority: Priority::Critical,
        creation_time: state.spec_synchronized_timestamp(now),
        payload: SatelliteMessage::SyncResponse {
            ground_sent: request.creation_time,
            satellite_receive: now,
        },
        sequence_no: state.packet_sequence_no,
    }
}

/// The packet that tells the ground that a packet it asked for is too old.
pub open spec fn too_old_packet(
    state: SatelliteState,
    request: TelemetryPacket,
    now: u64,
) -> TelemetryPacket {
    TelemetryPacket {
        priority: request.priority,
        creation_time: state.spec_synchronized_timestamp(now),
        payload: SatelliteMessage::Telemetry {
            event: Event {
                task_id: TaskID::NetworkService,
                event_id: EventID::PacketTooOld,
                data: EventData::NoData,
                timestamp: now,
            },
        },
        sequence_no: state.packet_sequence_no,
    }
}

/// The copy of a sent packet that goes out again: critical, and created at
/// the arrival of the request.
pub open spec fn retransmitted_packet(sent: TelemetryPacket, now: u64) -> TelemetryPacket {
    TelemetryPacket {
        priority: Priority::Critical,
        creation_time: now,
        payload: sent.payload,
        sequence_no: sent.sequence_no,
    }
}

/// A record of the network task for the log.
pub open spec fn network_record(event_id: EventID, data: EventData, now: u64) -> Output {
    Output::Record {
        log: Log {
            source: LogSource::Network,
            event: Event { task_id: TaskID::NetworkService, event_id, data, timestamp: now },
        },
    }
}

/// The packet that the ground asks for is older than the history reaches.
pub open spec fn is_too_old(current_sequence_no: u32, sequence_no: u32) -> bool {
    current_sequence_no - sequence_no >= PACKET_HISTORY_BUFFER_CAPACITY
}

/// The kinds of packets from the ground that the network task answers
/// itself; all others go to the uplink.
pub open spec fn is_answered_by_network(packet: TelemetryPacket) -> bool {
    match packet.payload {
        SatelliteMessage::SyncRequest => true,
        SatelliteMessage::SyncResult { .. } => true,
        SatelliteMessage::Command { command: Command::RequestRetransmit { .. }, .. } => true,
        _ => false,
    }
}

/// What the network task hands over for a packet from the ground that it
/// answers itself.
///
/// A synchronisation request is answered with the time of its arrival, and
/// starts a synchronisation if none is under way. A synchronisation result
/// is recorded when it completes a calibration. A request for a packet that
/// is too old is answered as such, and a request for a packet that the
/// history holds with a copy of that packet.
pub open spec fn route_outputs(
    history: [Option<TelemetryPacket>; PACKET_HISTORY_BUFFER_CAPACITY],
    state: SatelliteState,
    packet: TelemetryPacket,
    now: u64,
) -> Seq<Output> {
    match packet.payload {
        SatelliteMessage::SyncRequest => {
            let response = seq![Output::Telemetry { packet: sync_response(state, packet, now) }];
            if state.clock_sync.is_calibrated {
                response.push(network_record(EventID::SyncStart, EventData::NoData, now))
            } else {
                response
            }
        },
        SatelliteMessage::SyncResult { offset } => {
            if state.clock_sync.spec_absorb(offset).number_of_sample % 10 == 0 {
                seq![network_record(EventID::SyncCompleted, EventData::TimeSync { offset }, now)]
            } else {
                Seq::empty()
            }
        },
        SatelliteMessage::Command { command: Command::RequestRetransmit { sequence_no }, .. } => {
            if is_too_old(state.packet_sequence_no, sequence_no) {
                seq![Output::Telemetry { packet: too_old_packet(state, packet, now) }]
            } else {
                match history[history_slot(sequence_no)] {
                    Some(sent) => seq![
                        Output::Telemetry { packet: retransmitted_packet(sent, now) },
                    ],
                    None => Seq::empty(),
                }
            }
        },
        _ => Seq::empty(),
    }
}

/// The state after the network task dealt with a packet from the ground.
///
/// A synchronisation request takes a sequence number and ends the
/// calibration; a synchronisation result is absorbed; a request for a packet
/// that is too old takes a sequence number. Nothing else changes the state.
pub open spec fn routed_state(state: SatelliteState, packet: TelemetryPacket) -> SatelliteState {
    match packet.payload {
        SatelliteMessage::SyncRequest => SatelliteState {
            packet_sequence_no: wrapping_next_u32(state.packet_sequence_no),
            clock_sync: SyncState { is_calibrated: false, ..state.clock_sync },
            ..state
        },
        SatelliteMessage::SyncResult { offset } => SatelliteState {
            clock_sync: state.clock_sync.spec_absorb(offset),
            ..state
        },
        SatelliteMessage::Command { command: Command::RequestRetransmit { sequence_no }, .. } => {
            if is_too_old(state.packet_sequence_no, sequence_no) {
                SatelliteState {
                    packet_sequence_no: wrapping_next_u32(state.packet_sequence_no),
                    ..state
                }
            } else {
                state
            }
        },
        _ => state,
    }
}

/// The packet from the ground as it goes to the uplink: created at its
/// arrival.
pub open spec fn arrived_packet(packet: TelemetryPacket, now: u64) -> TelemetryPacket {
    TelemetryPacket { creation_time: now, ..packet }
}

/// A packet from the ground can be routed at the uptime `now`.
pub open spec fn can_route(state: SatelliteState, packet: TelemetryPacket, now: u64) -> bool {
    &&& state.can_stamp(now)
    &&& packet.payload is SyncResult ==> state.clock_sync.number_of_sample < u32::MAX
}

/// Whether a packet from the ground can be routed at the uptime `now`.
pub fn route_fits(state: &SatelliteState, packet: &TelemetryPacket, now: u64) -> (fits: bool)
    ensures
        fits == can_route(*state, *packet, now),
{
    let absorbs = match packet.payload {
        SatelliteMessage::SyncResult { .. } => true,
        _ => false,
    };
    state.stamp_fits(now) && (!absorbs || state.clock_sync.number_of_sample < u32::MAX)
}

/// The state after a transmission: the next sequence number is taken.
pub open spec fn transmitted_state(state: SatelliteState) -> SatelliteState {
    SatelliteState { packet_sequence_no: wrapping_next_u32(state.packet_sequence_no), ..state }
}

/// The sequence numbers of transmitted packets grow: of two packets that
/// are transmitted one after the other, the second has the greater number,
/// as long as the counter has not reached the end of its 32 bits.
pub proof fn lemma_sequence_numbers_grow(
    state: SatelliteState,
    first: TelemetryPacket,
    second: TelemetryPacket,
    now: u64,
    later: u64,
)
    requires
        state.packet_sequence_no < u32::MAX,
    ensures
        outgoing_packet(state, first, now).sequence_no < outgoing_packet(
            transmitted_state(state),
            second,
            later,
        ).sequence_no,
{
}

/// Routing a packet from the ground never takes the counter of sequence
/// numbers back, as long as the counter does not wrap around: a packet that
/// is transmitted after the routing has a greater number than every packet
/// transmitted before it.
pub proof fn lemma_routing_keeps_sequence_numbers_growing(
    state: SatelliteState,
    first: TelemetryPacket,
    routed: TelemetryPacket,
    second: TelemetryPacket,
    now: u64,
    later: u64,
)
    requires
        state.packet_sequence_no < u32::MAX,
        routed_state(transmitted_state(state), routed).packet_sequence_no != 0,
    ensures
        routed_state(transmitted_state(state), routed).packet_sequence_no >= transmitted_state(
            state,
        ).packet_sequence_no,
        outgoing_packet(state, first, now).sequence_no < outgoing_packet(
            routed_state(transmitted_state(state), routed),
            second,
            later,
        ).sequence_no,
{
}

impl NetworkTask {
    /// A task that has seen no visibility window and sent no packet.
    pub fn new() -> (task: NetworkTask)
        ensures
            !task.was_visible,
            forall|i: int| 0 <= i < PACKET_HISTORY_BUFFER_CAPACITY ==> task.history[i] is None,
    {
        NetworkTask { was_visible: false, history: [None;PACKET_HISTORY_BUFFER_CAPACITY] }
    }

    /// The packet that was sent under `sequence_no`, or whatever packet took
    /// its slot since.
    pub fn recall(&self, sequence_no: u32) -> (sent: Option<TelemetryPacket>)
        ensures
            sent == self.history[history_slot(sequence_no)],
    {
        let slot: usize = (sequence_no as usize) % PACKET_HISTORY_BUFFER_CAPACITY;
        self.history[slot]
    }

    /// Polls for a visibility window.
    ///
    /// A task that finds the satellite stopped is told to stop. A satellite
    /// that is visible now and was not at the last poll opens a window: the
    /// task is told to connect, within the deadline of the handshake.
    /// Otherwise the task sleeps until the next poll. The poll remembers
    /// what it saw.
    pub fn poll(&mut self, state: &SatelliteState) -> (directive: LinkDirective)
        ensures
            final(self).history == old(self).history,
            final(self).was_visible == if state.is_running {
                state.is_visible
            } else {
                old(self).was_visible
            },
            directive == if !state.is_running {
                LinkDirective::Stop
            } else if state.is_visible && !old(self).was_visible {
                LinkDirective::Connect { deadline_ms: INIT_HANDSHAKE_LIMIT_MS }
            } else {
                LinkDirective::Sleep { ms: NETWORK_MS }
            },
    {
        if !state.is_running {
            return LinkDirective::Stop;
        }
        let rising = state.is_visible && !self.was_visible;
        self.was_visible = state.is_visible;
        if rising {
            LinkDirective::Connect { deadline_ms: INIT_HANDSHAKE_LIMIT_MS }
        } else {
            LinkDirective::Sleep { ms: NETWORK_MS }
        }
    }

    /// Takes the next packet of the downlink for transmission, at the
    /// uptime `now`.
    ///
    /// With an empty downlink nothing happens. Otherwise the packet at the
    /// front leaves the downlink, a report on how long it waited goes into
    /// the downlink in its class, the metrics of the downlink are set to the
    /// latency and jitter measured, and the packet comes back as it goes
    /// out: stamped with the synchronised time and numbered with the next
    /// sequence number, under which the history keeps it.
    pub fn transmit(
        &mut self,
        state: &mut SatelliteState,
        downlink: &mut BoundedBuffer,
        now: u64,
    ) -> (sent: (Option<TelemetryPacket>, Vec<Log>))
        requires
            old(state).can_stamp(now),
            old(downlink).wf(),
        ensures
            final(downlink).wf(),
            final(downlink).spec_capacity() == old(downlink).spec_capacity(),
            final(self).was_visible == old(self).was_visible,
            match spec_pop(old(downlink)@).1 {
                None => {
                    &&& sent.0 is None
                    &&& sent.1@ == Seq::<Log>::empty()
                    &&& *final(state) == *old(state)
                    &&& final(self).history == old(self).history
                    &&& final(downlink)@ == old(downlink)@
                    &&& final(downlink).spec_metrics() == old(downlink).spec_metrics()
                },
                Some(packet) => {
                    let report = performance_packet(
                        *old(state),
                        old(downlink).spec_metrics(),
                        packet,
                        now,
                    );
                    let latency = queue_latency(now, packet.creation_time);
                    &&& sent.0 == Some(outgoing_packet(*old(state), packet, now))
                    &&& *final(state) == transmitted_state(*old(state))
                    &&& final(self).history == vstd::array::spec_array_update(
                        old(self).history,
                        history_slot(old(state).packet_sequence_no),
                        sent.0,
                    )
                    &&& (final(downlink)@, sent.1@) == spec_emit_all(
                        spec_pop(old(downlink)@).0,
                        old(downlink).spec_capacity() as nat,
                        LogSource::Network,
                        seq![Output::Telemetry { packet: report }],
                        now,
                        old(state).spec_synchronized_timestamp(now),
                    )
                    &&& final(downlink).spec_metrics() == (Metrics {
                        last_latency_ms: latency,
                        jitter_ms: queue_jitter(
                            old(downlink).spec_metrics().last_latency_ms,
                            latency,
                        ),
                    })
                    &&& sent.0->0.sequence_no < u32::MAX ==> final(state).packet_sequence_no
                        > sent.0->0.sequence_no
                },
            },
    {
        match downlink.pop() {
            None => (None, Vec::new()),
            Some(packet) => {
                let stamp = state.get_synchronized_timestamp(now);
                let latency: u32 = if now >= packet.creation_time {
                    low_32(now - packet.creation_time)
                } else {
                    0
                };
                let last = downlink.metrics().last_latency_ms;
                let jitter: u32 = if last >= latency {
                    last - latency
                } else {
                    latency - last
                };
                let mut outbox: Vec<Output> = Vec::new();
                outbox.push(
                    Output::Telemetry {
                        packet: TelemetryPacket {
                            priority: packet.priority,
                            creation_time: stamp,
                            payload: SatelliteMessage::Telemetry {
                                event: Event {
                                    task_id: TaskID::NetworkService,
                                    event_id: EventID::QueuePerformance,
                                    data: EventData::QueuePerformance {
                                        latency_ms: latency,
                                        jitter_ms: jitter,
                                        buffer_fill_rate: state.buffer_fill_rate,
                                    },
                                    timestamp: now,
                                },
                            },
                            sequence_no: state.packet_sequence_no,
                        },
                    },
                );
                assert(outbox@ =~= seq![
                    Output::Telemetry {
                        packet: performance_packet(
                            *old(state),
                            old(downlink).spec_metrics(),
                            packet,
                            now,
                        ),
                    },
                ]);
                let logs = downlink.emit_all(LogSource::Network, &outbox, now, stamp);
                downlink.set_metrics(Metrics { last_latency_ms: latency, jitter_ms: jitter });
                let number = state.take_sequence_no();
                let outgoing = TelemetryPacket {
                    priority: packet.priority,
                    creation_time: stamp,
                    payload: packet.payload,
                    sequence_no: number,
                };
                let slot: usize = (number as usize) % PACKET_HISTORY_BUFFER_CAPACITY;
                self.history[slot] = Some(outgoing);
                assert(self.history =~= vstd::array::spec_array_update(
                    old(self).history,
                    history_slot(number),
                    Some(outgoing),
                ));
                (Some(outgoing), logs)
            },
        }
    }

    /// Routes one packet that arrived from the ground at the uptime `now`.
    ///
    /// A synchronisation request, a synchronisation result and a request
    /// for retransmission are answered here, as `route_outputs` and
    /// `routed_state` say; the uplink stays as it is. Every other packet
    /// goes to the uplink, created at its arrival and pushed with loss
    /// feedback; the state stays as it is.
    pub fn route(
        &self,
        state: &mut SatelliteState,
        downlink: &mut BoundedBuffer,
        uplink: &mut BoundedBuffer,
        packet: TelemetryPacket,
        now: u64,
    ) -> (logs: Vec<Log>)
        requires
            can_route(*old(state), packet, now),
            old(downlink).wf(),
            old(uplink).wf(),
        ensures
            final(downlink).wf(),
            final(uplink).wf(),
            final(downlink).spec_capacity() == old(downlink).spec_capacity(),
            final(downlink).spec_metrics() == old(downlink).spec_metrics(),
            final(uplink).spec_capacity() == old(uplink).spec_capacity(),
            final(uplink).spec_metrics() == old(uplink).spec_metrics(),
            *final(state) == routed_state(*old(state), packet),
            is_answered_by_network(packet) ==> {
                &&& final(uplink)@ == old(uplink)@
                &&& (final(downlink)@, logs@) == spec_emit_all(
                    old(downlink)@,
                    old(downlink).spec_capacity() as nat,
                    LogSource::Network,
                    route_outputs(self.history, *old(state), packet, now),
                    now,
                    old(state).spec_synchronized_timestamp(now),
                )
            },
            !is_answered_by_network(packet) ==> {
                let arrived = arrived_packet(packet, now);
                let pushed = spec_push(old(uplink)@, old(uplink).spec_capacity() as nat, arrived);
                &&& final(uplink)@ == pushed.0
                &&& logs@ == spec_push_logs(
                    old(uplink)@,
                    old(uplink).spec_capacity() as nat,
                    LogSource::Network,
                    arrived,
                    now,
                )
                &&& final(downlink)@ == match pushed.1 {
                    Some(dropped) => spec_push(
                        old(downlink)@,
                        old(downlink).spec_capacity() as nat,
                        loss_notice(dropped, now, old(state).spec_synchronized_timestamp(now)),
                    ).0,
                    None => old(downlink)@,
                }
            },
    {
        let stamp = state.get_synchronized_timestamp(now);
        let mut outbox: Vec<Output> = Vec::new();
        match packet.payload {
            SatelliteMessage::SyncRequest => {
                let number = state.take_sequence_no();
                outbox.push(
                    Output::Telemetry {
                        packet: TelemetryPacket {
                            priority: Priority::Critical,
                            creation_time: stamp,
                            payload: SatelliteMessage::SyncResponse {
                                ground_sent: packet.creation_time,
                                satellite_receive: now,
                            },
                            sequence_no: number,
                        },
                    },
                );
                if state.clock_sync.is_calibrated {
                    outbox.push(network_log(EventID::SyncStart, EventData::NoData, now));
                    state.clock_sync.is_calibrated = false;
                }
            },
            SatelliteMessage::SyncResult { offset } => {
                if state.clock_sync.absorb(offset) {
                    outbox.push(
                        network_log(EventID::SyncCompleted, EventData::TimeSync { offset }, now),
                    );
                }
            },
            SatelliteMessage::Command { command: Command::RequestRetransmit { sequence_no }, .. } => {
                let current = state.packet_sequence_no;
                if current >= sequence_no && current - sequence_no
                    >= PACKET_HISTORY_BUFFER_CAPACITY as u32 {
                    let number = state.take_sequence_no();
                    outbox.push(
                        Output::Telemetry {
                            packet: TelemetryPacket {
                                priority: packet.priority,
                                creation_time: stamp,
                                payload: SatelliteMessage::Telemetry {
                                    event: Event {
                                        task_id: TaskID::NetworkService,
                                        event_id: EventID::PacketTooOld,
                                        data: EventData::NoData,
                                        timestamp: now,
                                    },
                                },
                                sequence_no: number,
                            },
                        },
                    );
                } else {
                    match self.recall(sequence_no) {
                        Some(sent) => {
                            outbox.push(
                                Output::Telemetry {
                                    packet: TelemetryPacket {
                                        priority: Priority::Critical,
                                        creation_time: now,
                                        payload: sent.payload,
                                        sequence_no: sent.sequence_no,
                                    },
                                },
                            );
                        },
                        None => {},
                    }
                }
            },
            _ => {
                let arrived = TelemetryPacket {
                    priority: packet.priority,
                    creation_time: now,
                    payload: packet.payload,
                    sequence_no: packet.sequence_no,
                };
                return uplink.push_and_log(LogSource::Network, arrived, now, stamp, downlink);
            },
        }
        downlink.emit_all(LogSource::Network, &outbox, now, stamp)
    }
}

/// A record of the network task for the log.
fn network_log(event_id: EventID, data: EventData, now: u64) -> (output: Output)
    ensures
        output == network_record(event_id, data, now),
{
    Output::Record {
        log: Log {
            source: LogSource::Network,
            event: Event { task_id: TaskID::NetworkService, event_id, data, timestamp: now },
        },
    }
}

/// The session with the ground goes on: the visibility window that opened
/// at the uptime `pass_start` has not run out at the uptime `now`.
pub open spec fn spec_session_open(pass_start: u64, now: u64) -> bool {
    now - pass_start < VISIBILITY_WINDOW_LIMIT_MS
}

/// Whether the session with the ground goes on.
pub fn session_open(pass_start: u64, now: u64) -> (open: bool)
    ensures
        open == spec_session_open(pass_start, now),
{
    now < pass_start || now - pass_start < VISIBILITY_WINDOW_LIMIT_MS
}

/// Reports a visibility window in which the ground station was not reached.
pub fn connection_missed(state: &SatelliteState, downlink: &mut BoundedBuffer, now: u64) -> (logs:
    Vec<Log>)
    requires
        state.can_stamp(now),
        old(downlink).wf(),
    ensures
        final(downlink).wf(),
        final(downlink).spec_capacity() == old(downlink).spec_capacity(),
        final(downlink).spec_metrics() == old(downlink).spec_metrics(),
        (final(downlink)@, logs@) == spec_emit_all(
            old(downlink)@,
            old(downlink).spec_capacity() as nat,
            LogSource::Network,
            seq![
                Output::spec_critical(
                    state.spec_synchronized_timestamp(now),
                    TaskID::NetworkService,
                    EventID::MissedCommunication,
                    EventData::NoData,
                    now,
                ),
            ],
            now,
            state.spec_synchronized_timestamp(now),
        ),
{
    let stamp = state.get_synchronized_timestamp(now);
    let mut outbox: Vec<Output> = Vec::new();
    outbox.push(
        Output::critical(
            stamp,
            TaskID::NetworkService,
            EventID::MissedCommunication,
            EventData::NoData,
            now,
        ),
    );
    assert(outbox@ =~= seq![
        Output::spec_critical(
            stamp,
            TaskID::NetworkService,
            EventID::MissedCommunication,
            EventData::NoData,
            now,
        ),
    ]);
    downlink.emit_all(LogSource::Network, &outbox, now, stamp)
}

} // verus!
