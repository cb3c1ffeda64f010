use satellite_core::buffer::BoundedBuffer;
use satellite_core::network::{
    connection_missed, decode_frame, encode_frame, frame_length, session_open, LinkDirective,
    NetworkTask,
};
use satellite_core::state::SatelliteState;
use satellite_core::types::{
    Command, Event, EventData, EventID, Log, LogSource, Metrics, Priority, SatelliteMessage,
    SubsystemID, TaskID, TelemetryPacket,
};

fn reading(priority: Priority, creation_time: u64, value: u32) -> TelemetryPacket {
    TelemetryPacket {
        priority,
        creation_time,
        payload: SatelliteMessage::Telemetry {
            event: Event {
                task_id: TaskID::ThermalSensor,
                event_id: EventID::TaskCompletion,
                data: EventData::Hardware { value },
                timestamp: creation_time,
            },
        },
        sequence_no: 0,
    }
}

fn from_ground(priority: Priority, creation_time: u64, payload: SatelliteMessage) -> TelemetryPacket {
    TelemetryPacket { priority, creation_time, payload, sequence_no: 77 }
}

fn network_log(event_id: EventID, data: EventData, timestamp: u64) -> Log {
    Log {
        source: LogSource::Network,
        event: Event { task_id: TaskID::NetworkService, event_id, data, timestamp },
    }
}

fn drain(buffer: &mut BoundedBuffer) -> Vec<TelemetryPacket> {
    let mut out = Vec::new();
    while let Some(p) = buffer.pop() {
        out.push(p);
    }
    out
}

#[test]
fn a_frame_is_the_length_in_two_bytes_and_the_payload() {
    assert_eq!(encode_frame(&vec![1, 2, 3]), Some(vec![0, 3, 1, 2, 3]));
    assert_eq!(encode_frame(&vec![]), Some(vec![0, 0]));
    let long = vec![9u8; 300];
    let frame = encode_frame(&long).unwrap();
    assert_eq!(&frame[..2], &[1, 44]);
    assert_eq!(&frame[2..], &long[..]);
}

#[test]
fn the_longest_payload_has_a_frame_and_a_longer_one_has_none() {
    let frame = encode_frame(&vec![0u8; 65535]).unwrap();
    assert_eq!(frame.len(), 65537);
    assert_eq!(&frame[..2], &[255, 255]);
    assert_eq!(encode_frame(&vec![0u8; 65536]), None);
}

#[test]
fn frame_length_reads_the_high_byte_first() {
    assert_eq!(frame_length(0, 0), 0);
    assert_eq!(frame_length(0, 3), 3);
    assert_eq!(frame_length(1, 44), 300);
    assert_eq!(frame_length(255, 255), 65535);
}

#[test]
fn decode_frame_gives_the_payload_of_a_whole_frame() {
    assert_eq!(decode_frame(&vec![0, 3, 1, 2, 3]), Some(vec![1, 2, 3]));
    assert_eq!(decode_frame(&vec![0, 0]), Some(vec![]));
    assert_eq!(decode_frame(&vec![]), None);
    assert_eq!(decode_frame(&vec![0]), None);
    assert_eq!(decode_frame(&vec![0, 3, 1, 2]), None);
    assert_eq!(decode_frame(&vec![0, 3, 1, 2, 3, 4]), None);
}

#[test]
fn a_payload_comes_back_out_of_its_frame() {
    for len in [0usize, 1, 255, 256, 257, 1000, 65535] {
        let payload: Vec<u8> = (0..len).map(|i| (i % 251) as u8).collect();
        let frame = encode_frame(&payload).unwrap();
        assert_eq!(frame_length(frame[0], frame[1]), len);
        assert_eq!(decode_frame(&frame), Some(payload));
    }
}

#[test]
fn poll_connects_on_the_rising_edge_of_the_visibility() {
    let mut state = SatelliteState::new(0);
    let mut task = NetworkTask::new();
    assert!(!task.was_visible);
    assert_eq!(task.poll(&state), LinkDirective::Sleep { ms: 2 });
    state.is_visible = true;
    assert_eq!(task.poll(&state), LinkDirective::Connect { deadline_ms: 5 });
    assert!(task.was_visible);
    assert_eq!(task.poll(&state), LinkDirective::Sleep { ms: 2 });
    state.is_visible = false;
    assert_eq!(task.poll(&state), LinkDirective::Sleep { ms: 2 });
    assert!(!task.was_visible);
    state.is_visible = true;
    assert_eq!(task.poll(&state), LinkDirective::Connect { deadline_ms: 5 });
    state.is_running = false;
    assert_eq!(task.poll(&state), LinkDirective::Stop);
}

#[test]
fn a_session_lasts_as_long_as_the_visibility_window() {
    assert!(session_open(100, 100));
    assert!(session_open(100, 129));
    assert!(!session_open(100, 130));
    assert!(!session_open(100, 5000));
    assert!(session_open(100, 99));
}

#[test]
fn a_missed_connection_is_reported() {
    let mut state = SatelliteState::new(0);
    state.clock_sync.average_offset_ms = 4;
    let mut downlink = BoundedBuffer::new(4);
    let logs = connection_missed(&state, &mut downlink, 50);
    assert!(logs.is_empty());
    assert_eq!(
        drain(&mut downlink),
        vec![TelemetryPacket {
            priority: Priority::Critical,
            creation_time: 54,
            payload: SatelliteMessage::Telemetry {
                event: Event {
                    task_id: TaskID::NetworkService,
                    event_id: EventID::MissedCommunication,
                    data: EventData::NoData,
                    timestamp: 50,
                },
            },
            sequence_no: 0,
        }]
    );
}

#[test]
fn transmit_of_an_empty_downlink_does_nothing() {
    let mut state = SatelliteState::new(0);
    let before = state;
    let mut downlink = BoundedBuffer::new(4);
    let mut task = NetworkTask::new();
    let (sent, logs) = task.transmit(&mut state, &mut downlink, 10);
    assert_eq!(sent, None);
    assert!(logs.is_empty());
    assert_eq!(state, before);
    assert_eq!(task.recall(0), None);
}

#[test]
fn transmit_numbers_stamps_and_measures() {
    let mut state = SatelliteState::new(0);
    state.clock_sync.average_offset_ms = 5;
    state.buffer_fill_rate = 42;
    state.packet_sequence_no = 7;
    let mut downlink = BoundedBuffer::new(4);
    downlink.push(reading(Priority::Normal, 90, 2600));
    let mut task = NetworkTask::new();
    let (sent, logs) = task.transmit(&mut state, &mut downlink, 100);
    assert!(logs.is_empty());
    let outgoing = TelemetryPacket {
        priority: Priority::Normal,
        creation_time: 105,
        payload: reading(Priority::Normal, 90, 2600).payload,
        sequence_no: 7,
    };
    assert_eq!(sent, Some(outgoing));
    assert_eq!(state.packet_sequence_no, 8);
    assert_eq!(task.recall(7), Some(outgoing));
    assert_eq!(task.recall(107), Some(outgoing));
    assert_eq!(task.recall(8), None);
    assert_eq!(downlink.metrics(), Metrics { last_latency_ms: 10, jitter_ms: 10 });
    assert_eq!(
        drain(&mut downlink),
        vec![TelemetryPacket {
            priority: Priority::Normal,
            creation_time: 105,
            payload: SatelliteMessage::Telemetry {
                event: Event {
                    task_id: TaskID::NetworkService,
                    event_id: EventID::QueuePerformance,
                    data: EventData::QueuePerformance {
                        latency_ms: 10,
                        jitter_ms: 10,
                        buffer_fill_rate: 42,
                    },
                    timestamp: 100,
                },
            },
            sequence_no: 7,
        }]
    );
}

#[test]
fn jitter_is_the_distance_between_two_latencies() {
    let mut state = SatelliteState::new(0);
    let mut downlink = BoundedBuffer::new(8);
    let mut task = NetworkTask::new();
    downlink.set_metrics(Metrics { last_latency_ms: 30, jitter_ms: 0 });
    downlink.push(reading(Priority::Critical, 90, 1));
    task.transmit(&mut state, &mut downlink, 100);
    assert_eq!(downlink.metrics(), Metrics { last_latency_ms: 10, jitter_ms: 20 });
    downlink.push(reading(Priority::Critical, 50, 1));
    task.transmit(&mut state, &mut downlink, 100);
    assert_eq!(downlink.metrics(), Metrics { last_latency_ms: 50, jitter_ms: 40 });
}

#[test]
fn the_latency_of_a_packet_from_the_future_is_zero() {
    let mut state = SatelliteState::new(0);
    let mut downlink = BoundedBuffer::new(8);
    let mut task = NetworkTask::new();
    downlink.set_metrics(Metrics { last_latency_ms: 3, jitter_ms: 0 });
    downlink.push(reading(Priority::Critical, 500, 1));
    task.transmit(&mut state, &mut downlink, 100);
    assert_eq!(downlink.metrics(), Metrics { last_latency_ms: 0, jitter_ms: 3 });
}

#[test]
fn sequence_numbers_of_transmitted_packets_grow_strictly() {
    let mut state = SatelliteState::new(0);
    let mut downlink = BoundedBuffer::new(16);
    let mut uplink = BoundedBuffer::new(16);
    let mut task = NetworkTask::new();
    for t in 0..6 {
        downlink.push(reading(Priority::Normal, t, t as u32));
    }
    let mut numbers = Vec::new();
    for round in 0..12u64 {
        let (sent, _) = task.transmit(&mut state, &mut downlink, 100 + round);
        numbers.push(sent.unwrap().sequence_no);
        if round % 3 == 0 {
            let request = from_ground(Priority::Normal, 1, SatelliteMessage::SyncRequest);
            task.route(&mut state, &mut downlink, &mut uplink, request, 100 + round);
        }
    }
    for pair in numbers.windows(2) {
        assert!(pair[0] < pair[1]);
    }
    assert_eq!(numbers[0], 0);
}

#[test]
fn retransmit_from_history() {
    let mut state = SatelliteState::new(0);
    let mut downlink = BoundedBuffer::new(32);
    let mut uplink = BoundedBuffer::new(8);
    let mut task = NetworkTask::new();
    for t in 0..5 {
        downlink.push(reading(Priority::Normal, t, 1000 + t as u32));
    }
    let mut sent = Vec::new();
    for round in 0..5u64 {
        sent.push(task.transmit(&mut state, &mut downlink, 50 + round).0.unwrap());
    }
    let numbers: Vec<u32> = sent.iter().map(|p| p.sequence_no).collect();
    assert_eq!(numbers, vec![0, 1, 2, 3, 4]);
    drain(&mut downlink);
    let request = from_ground(
        Priority::Low,
        9,
        SatelliteMessage::Command {
            command: Command::RequestRetransmit { sequence_no: 2 },
            sent_at: 9,
        },
    );
    let logs = task.route(&mut state, &mut downlink, &mut uplink, request, 60);
    assert!(logs.is_empty());
    assert_eq!(uplink.len(), 0);
    assert_eq!(state.packet_sequence_no, 5);
    let history_2 = task.recall(2).unwrap();
    assert_eq!(history_2, sent[2]);
    assert_eq!(
        drain(&mut downlink),
        vec![TelemetryPacket {
            priority: Priority::Critical,
            creation_time: 60,
            payload: history_2.payload,
            sequence_no: 2,
        }]
    );
    assert_eq!(history_2.payload, reading(Priority::Normal, 2, 1002).payload);
}

#[test]
fn retransmit_too_old() {
    let mut state = SatelliteState::new(0);
    state.packet_sequence_no = 250;
    state.clock_sync.average_offset_ms = 1;
    let mut downlink = BoundedBuffer::new(8);
    let mut uplink = BoundedBuffer::new(8);
    let task = NetworkTask::new();
    let request = from_ground(
        Priority::Normal,
        9,
        SatelliteMessage::Command {
            command: Command::RequestRetransmit { sequence_no: 100 },
            sent_at: 9,
        },
    );
    task.route(&mut state, &mut downlink, &mut uplink, request, 60);
    assert_eq!(state.packet_sequence_no, 251);
    assert_eq!(
        drain(&mut downlink),
        vec![TelemetryPacket {
            priority: Priority::Normal,
            creation_time: 61,
            payload: SatelliteMessage::Telemetry {
                event: Event {
                    task_id: TaskID::NetworkService,
                    event_id: EventID::PacketTooOld,
                    data: EventData::NoData,
                    timestamp: 60,
                },
            },
            sequence_no: 250,
        }]
    );
}

#[test]
fn a_gap_of_the_history_capacity_is_too_old_and_one_less_is_not() {
    let mut state = SatelliteState::new(0);
    state.packet_sequence_no = 250;
    let mut downlink = BoundedBuffer::new(8);
    let mut uplink = BoundedBuffer::new(8);
    let task = NetworkTask::new();
    let ask = |sequence_no: u32| {
        from_ground(
            Priority::Normal,
            9,
            SatelliteMessage::Command {
                command: Command::RequestRetransmit { sequence_no },
                sent_at: 9,
            },
        )
    };
    task.route(&mut state, &mut downlink, &mut uplink, ask(150), 60);
    assert_eq!(downlink.len(), 1);
    assert_eq!(state.packet_sequence_no, 251);
    // A gap of 99: the slot is looked up, and it is empty.
    task.route(&mut state, &mut downlink, &mut uplink, ask(152), 60);
    assert_eq!(downlink.len(), 1);
    assert_eq!(state.packet_sequence_no, 251);
    // A number that was not handed out yet: the slot is looked up as well.
    task.route(&mut state, &mut downlink, &mut uplink, ask(4000), 60);
    assert_eq!(downlink.len(), 1);
    assert_eq!(state.packet_sequence_no, 251);
}

#[test]
fn a_sync_request_is_answered_and_starts_a_synchronisation() {
    let mut state = SatelliteState::new(0);
    state.clock_sync.average_offset_ms = 3;
    state.packet_sequence_no = 11;
    let mut downlink = BoundedBuffer::new(8);
    let mut uplink = BoundedBuffer::new(8);
    let task = NetworkTask::new();
    let request = from_ground(Priority::Low, 1234, SatelliteMessage::SyncRequest);
    let logs = task.route(&mut state, &mut downlink, &mut uplink, request, 70);
    assert_eq!(logs, vec![network_log(EventID::SyncStart, EventData::NoData, 70)]);
    assert!(!state.clock_sync.is_calibrated);
    assert_eq!(state.packet_sequence_no, 12);
    assert_eq!(uplink.len(), 0);
    assert_eq!(
        drain(&mut downlink),
        vec![TelemetryPacket {
            priority: Priority::Critical,
            creation_time: 73,
            payload: SatelliteMessage::SyncResponse { ground_sent: 1234, satellite_receive: 70 },
            sequence_no: 11,
        }]
    );
    // A second request finds the synchronisation under way.
    let logs = task.route(&mut state, &mut downlink, &mut uplink, request, 71);
    assert!(logs.is_empty());
    assert_eq!(downlink.len(), 1);
}

#[test]
fn sync_results_are_absorbed_and_the_tenth_completes_the_calibration() {
    let mut state = SatelliteState::new(0);
    state.clock_sync.is_calibrated = false;
    let mut downlink = BoundedBuffer::new(8);
    let mut uplink = BoundedBuffer::new(8);
    let task = NetworkTask::new();
    for sample in 1..=10u64 {
        let result = from_ground(
            Priority::Normal,
            0,
            SatelliteMessage::SyncResult { offset: 10 * sample },
        );
        let logs = task.route(&mut state, &mut downlink, &mut uplink, result, 80 + sample);
        assert_eq!(state.clock_sync.number_of_sample as u64, sample);
        if sample < 10 {
            assert!(logs.is_empty());
            assert!(!state.clock_sync.is_calibrated);
        } else {
            assert_eq!(
                logs,
                vec![network_log(EventID::SyncCompleted, EventData::TimeSync { offset: 100 }, 90)]
            );
            assert!(state.clock_sync.is_calibrated);
        }
    }
    assert_eq!(state.clock_sync.total_offset_ms, 550);
    assert_eq!(state.clock_sync.average_offset_ms, 55);
    assert_eq!(state.get_synchronized_timestamp(1000), 1055);
    assert_eq!(downlink.len(), 0);
    assert_eq!(uplink.len(), 0);
}

#[test]
fn other_commands_go_to_the_uplink_created_at_their_arrival() {
    let mut state = SatelliteState::new(0);
    let before = state;
    let mut downlink = BoundedBuffer::new(8);
    let mut uplink = BoundedBuffer::new(8);
    let task = NetworkTask::new();
    let command = from_ground(
        Priority::Normal,
        5555,
        SatelliteMessage::Command {
            command: Command::ClearSubsystemFault { subsystem_id: SubsystemID::Power },
            sent_at: 5550,
        },
    );
    let logs = task.route(&mut state, &mut downlink, &mut uplink, command, 90);
    assert!(logs.is_empty());
    assert_eq!(state, before);
    assert_eq!(downlink.len(), 0);
    assert_eq!(drain(&mut uplink), vec![TelemetryPacket { creation_time: 90, ..command }]);
}

#[test]
fn telemetry_from_the_ground_goes_to_the_uplink() {
    let mut state = SatelliteState::new(0);
    let mut downlink = BoundedBuffer::new(8);
    let mut uplink = BoundedBuffer::new(8);
    let task = NetworkTask::new();
    let packet = TelemetryPacket { sequence_no: 5, ..reading(Priority::Low, 1, 2) };
    task.route(&mut state, &mut downlink, &mut uplink, packet, 91);
    assert_eq!(drain(&mut uplink), vec![TelemetryPacket { creation_time: 91, ..packet }]);
}

#[test]
fn a_full_uplink_reports_the_loss_to_the_downlink() {
    let mut state = SatelliteState::new(0);
    state.clock_sync.average_offset_ms = 2;
    let mut downlink = BoundedBuffer::new(8);
    let mut uplink = BoundedBuffer::new(1);
    let task = NetworkTask::new();
    let command = |mode: u8| {
        from_ground(
            Priority::Normal,
            0,
            SatelliteMessage::Command { command: Command::SetPowerMode { mode }, sent_at: 0 },
        )
    };
    task.route(&mut state, &mut downlink, &mut uplink, command(1), 90);
    let logs = task.route(&mut state, &mut downlink, &mut uplink, command(2), 95);
    let loss = |timestamp: u64| Event {
        task_id: TaskID::NetworkService,
        event_id: EventID::DataLoss,
        data: EventData::NoData,
        timestamp,
    };
    assert_eq!(logs, vec![Log { source: LogSource::Network, event: loss(95) }]);
    assert_eq!(drain(&mut uplink), vec![TelemetryPacket { creation_time: 90, ..command(1) }]);
    assert_eq!(
        drain(&mut downlink),
        vec![TelemetryPacket {
            priority: Priority::Critical,
            creation_time: 95,
            payload: SatelliteMessage::Telemetry { event: loss(97) },
            sequence_no: 0,
        }]
    );
}

#[test]
fn the_history_keeps_the_last_hundred_packets() {
    let mut state = SatelliteState::new(0);
    let mut downlink = BoundedBuffer::new(4);
    let mut task = NetworkTask::new();
    downlink.push(reading(Priority::Low, 0, 0));
    for round in 0..130u64 {
        let (sent, _) = task.transmit(&mut state, &mut downlink, round);
        assert_eq!(sent.unwrap().sequence_no as u64, round);
    }
    assert_eq!(task.recall(129).unwrap().sequence_no, 129);
    assert_eq!(task.recall(100).unwrap().sequence_no, 100);
    // The slot of the packet 29 was taken by the packet 129.
    assert_eq!(task.recall(29).unwrap().sequence_no, 129);
    assert_eq!(task.recall(30).unwrap().sequence_no, 30);
}

#[test]
fn route_fits_tells_when_a_packet_can_be_routed() {
    let mut state = SatelliteState::new(0);
    let request = from_ground(Priority::Low, 0, SatelliteMessage::SyncRequest);
    let result = from_ground(Priority::Low, 0, SatelliteMessage::SyncResult { offset: 1 });
    assert!(satellite_core::network::route_fits(&state, &request, 100));
    assert!(satellite_core::network::route_fits(&state, &result, 100));
    state.clock_sync.number_of_sample = u32::MAX;
    assert!(satellite_core::network::route_fits(&state, &request, 100));
    assert!(!satellite_core::network::route_fits(&state, &result, 100));
    state.clock_sync.number_of_sample = 0;
    state.clock_sync.average_offset_ms = u64::MAX;
    assert!(!satellite_core::network::route_fits(&state, &request, 1));
    assert!(satellite_core::network::route_fits(&state, &request, 0));
}

#[test]
fn a_new_network_task_remembers_nothing() {
    let task = NetworkTask::new();
    assert!(!task.was_visible);
    for sequence_no in [0u32, 1, 99, 100, 4_000_000_000] {
        assert_eq!(task.recall(sequence_no), None);
    }
    assert_eq!(task.history.len(), 100);
}
