use satellite_core::buffer::BoundedBuffer;
use satellite_core::monitor::{
    check_stale, measure_fill, monitor_step, monitor_utilization, utilization_fits,
};
use satellite_core::state::SatelliteState;
use satellite_core::task::Directive;
use satellite_core::types::{
    Event, EventData, EventID, Log, LogSource, Metrics, Priority, SatelliteMessage, SubsystemID,
    TaskID, TelemetryPacket,
};

fn critical(creation_time: u64, task_id: TaskID, event_id: EventID, data: EventData, timestamp: u64) -> TelemetryPacket {
    TelemetryPacket {
        priority: Priority::Critical,
        creation_time,
        payload: SatelliteMessage::Telemetry { event: Event { task_id, event_id, data, timestamp } },
        sequence_no: 0,
    }
}

fn filler(creation_time: u64) -> TelemetryPacket {
    critical(creation_time, TaskID::ThermalSensor, EventID::TaskCompletion, EventData::NoData, 0)
}

fn drain(buffer: &mut BoundedBuffer) -> Vec<TelemetryPacket> {
    let mut out = Vec::new();
    while let Some(p) = buffer.pop() {
        out.push(p);
    }
    out
}

fn fresh_state(now: u64) -> SatelliteState {
    let mut state = SatelliteState::new(0);
    for sensor in state.sensors.iter_mut() {
        sensor.heartbeat = now;
    }
    state
}

fn event_ids(packets: &[TelemetryPacket]) -> Vec<EventID> {
    packets
        .iter()
        .map(|p| match p.payload {
            SatelliteMessage::Telemetry { event } => event.event_id,
            _ => panic!("telemetry was expected"),
        })
        .collect()
}

#[test]
fn a_healthy_system_is_left_alone() {
    let mut state = fresh_state(1000);
    let before = state;
    let mut downlink = BoundedBuffer::new(10);
    let turn = monitor_step(&mut state, &mut downlink, 1000);
    assert_eq!(turn.directive, Directive::Sleep { ms: 5 });
    assert!(turn.logs.is_empty());
    assert_eq!(state, before);
    assert_eq!(downlink.len(), 0);
}

#[test]
fn heartbeat_fault_escalation() {
    let now = 1000;
    let mut state = fresh_state(now);
    assert_eq!(state.sensors[0].period, 5);
    state.sensors[0].heartbeat = 0;
    state.sensors[0].fault = Some(EventID::TaskFault);
    state.sensors[0].fault_timestamp = now - 200;
    let mut downlink = BoundedBuffer::new(10);
    let turn = monitor_step(&mut state, &mut downlink, now);
    assert!(!state.is_running);
    let fault = Event {
        task_id: TaskID::ThermalSensor,
        event_id: EventID::TaskFault,
        data: EventData::NoData,
        timestamp: now,
    };
    assert_eq!(turn.logs, vec![Log { source: LogSource::HealthMonitor, event: fault }]);
    assert_eq!(
        drain(&mut downlink),
        vec![
            critical(now, TaskID::ThermalSensor, EventID::TaskFault, EventData::NoData, now),
            critical(
                now,
                TaskID::ThermalSensor,
                EventID::MissionAbort,
                EventData::FaultRecovery { recovery_time: 200 },
                now
            ),
        ]
    );
    // The fault is reported once.
    assert_eq!(state.sensors[0].fault, None);
    assert_eq!(state.sensors[0].fault_timestamp, 0);
    // The next tick finds the satellite stopped.
    let turn = monitor_step(&mut state, &mut downlink, now + 5);
    assert_eq!(turn.directive, Directive::Stop);
    assert_eq!(downlink.len(), 0);
}

#[test]
fn a_stale_sensor_without_expired_fault_is_reported_and_the_mission_goes_on() {
    let now = 1000;
    let mut state = fresh_state(now);
    state.sensors[2].heartbeat = now - 61;
    state.sensors[2].fault = Some(EventID::TaskFault);
    state.sensors[2].fault_timestamp = now - 100;
    let mut downlink = BoundedBuffer::new(10);
    let turn = monitor_step(&mut state, &mut downlink, now);
    assert!(state.is_running);
    assert_eq!(turn.logs.len(), 1);
    assert_eq!(event_ids(&drain(&mut downlink)), vec![EventID::TaskFault]);
    assert_eq!(state.sensors[2].fault, None);
    assert_eq!(state.sensors[2].fault_timestamp, 0);
}

#[test]
fn the_liveness_limit_is_three_periods_and_six_when_degraded() {
    let state = SatelliteState::new(0);
    let mut pitch = state.sensors[1];
    pitch.heartbeat = 1000;
    assert!(!check_stale(&pitch, false, 1030));
    assert!(check_stale(&pitch, false, 1031));
    assert!(!check_stale(&pitch, true, 1060));
    assert!(check_stale(&pitch, true, 1061));
    let mut thermal = state.sensors[0];
    thermal.heartbeat = 1000;
    assert!(!check_stale(&thermal, true, 1015));
    assert!(check_stale(&thermal, true, 1016));
    assert!(!check_stale(&thermal, false, 999));
    thermal.period = u64::MAX;
    thermal.heartbeat = 0;
    assert!(!check_stale(&thermal, false, u64::MAX));
}

#[test]
fn a_subsystem_fault_is_reported_and_cleared_while_the_interlock_stays() {
    let now = 500;
    let mut state = fresh_state(now);
    state.subsystem_health[1].fault = true;
    state.subsystem_health[1].fault_interlock = true;
    state.subsystem_health[1].fault_timestamp = now - 100;
    let mut downlink = BoundedBuffer::new(10);
    monitor_step(&mut state, &mut downlink, now);
    assert!(state.is_running);
    assert!(!state.subsystem_health[1].fault);
    assert_eq!(state.subsystem_health[1].fault_timestamp, 0);
    assert!(state.subsystem_health[1].fault_interlock);
    assert_eq!(
        drain(&mut downlink),
        vec![critical(
            now,
            TaskID::GlobalSystem,
            EventID::SubsystemFault,
            EventData::SubsystemFault { subsystem_id: SubsystemID::Power },
            now
        )]
    );
}

#[test]
fn a_subsystem_fault_that_has_expired_aborts_the_mission() {
    let now = 500;
    let mut state = fresh_state(now);
    state.subsystem_health[0].fault = true;
    state.subsystem_health[0].fault_timestamp = now - 101;
    let mut downlink = BoundedBuffer::new(10);
    monitor_step(&mut state, &mut downlink, now);
    assert!(!state.is_running);
    assert_eq!(
        drain(&mut downlink),
        vec![
            critical(
                now,
                TaskID::GlobalSystem,
                EventID::SubsystemFault,
                EventData::SubsystemFault { subsystem_id: SubsystemID::Antenna },
                now
            ),
            critical(
                now,
                TaskID::GlobalSystem,
                EventID::MissionAbort,
                EventData::FaultRecovery { recovery_time: 101 },
                now
            ),
        ]
    );
}

#[test]
fn a_subsystem_fault_without_timestamp_is_not_reported() {
    let mut state = fresh_state(500);
    state.subsystem_health[0].fault = true;
    let before = state;
    let mut downlink = BoundedBuffer::new(10);
    monitor_step(&mut state, &mut downlink, 500);
    assert_eq!(state, before);
    assert_eq!(downlink.len(), 0);
}

#[test]
fn degraded_mode_oscillation() {
    let now = 2000;
    let mut state = fresh_state(now);
    let mut downlink = BoundedBuffer::new(100);
    downlink.set_metrics(Metrics { last_latency_ms: 11, jitter_ms: 4 });
    for t in 0..79 {
        downlink.push(filler(t));
    }
    // 79 %: the mode stays normal and no event is handed over.
    monitor_step(&mut state, &mut downlink, now);
    assert!(!state.degraded_mode);
    assert_eq!(state.buffer_fill_rate, 79);
    assert_eq!(downlink.len(), 79);
    // 80 %: the monitor turns the mode degraded and says so.
    downlink.push(filler(79));
    monitor_step(&mut state, &mut downlink, now);
    assert!(state.degraded_mode);
    assert_eq!(state.buffer_fill_rate, 80);
    assert_eq!(downlink.len(), 81);
    // While the mode stays degraded no event is handed over.
    monitor_step(&mut state, &mut downlink, now);
    assert!(state.degraded_mode);
    assert_eq!(state.buffer_fill_rate, 81);
    assert_eq!(downlink.len(), 81);
    // Drained to 79 %: the monitor turns the mode normal and says so.
    downlink.pop();
    downlink.pop();
    monitor_step(&mut state, &mut downlink, now);
    assert!(!state.degraded_mode);
    assert_eq!(state.buffer_fill_rate, 79);
    assert_eq!(downlink.len(), 80);
    let events: Vec<TelemetryPacket> = drain(&mut downlink)
        .into_iter()
        .filter(|p| *p != filler(p.creation_time))
        .collect();
    assert_eq!(
        events,
        vec![
            critical(
                now,
                TaskID::NetworkService,
                EventID::DegradedMode,
                EventData::QueuePerformance { latency_ms: 11, jitter_ms: 4, buffer_fill_rate: 80 },
                now
            ),
            critical(
                now,
                TaskID::NetworkService,
                EventID::NormalMode,
                EventData::QueuePerformance { latency_ms: 11, jitter_ms: 4, buffer_fill_rate: 79 },
                now
            ),
        ]
    );
}

#[test]
fn the_fill_counts_what_the_monitor_itself_handed_over() {
    let now = 300;
    let mut state = fresh_state(now);
    state.sensors[1].heartbeat = 0;
    let mut downlink = BoundedBuffer::new(5);
    for t in 0..3 {
        downlink.push(filler(t));
    }
    // Three of five are resident; the task fault makes it four: 80 %.
    monitor_step(&mut state, &mut downlink, now);
    assert_eq!(state.buffer_fill_rate, 80);
    assert!(state.degraded_mode);
    assert_eq!(downlink.len(), 5);
}

#[test]
fn measure_fill_is_the_whole_percentage() {
    let mut queue = BoundedBuffer::new(3);
    assert_eq!(measure_fill(&queue), 0);
    queue.push(filler(1));
    assert_eq!(measure_fill(&queue), 33);
    queue.push(filler(2));
    assert_eq!(measure_fill(&queue), 66);
    queue.push(filler(3));
    assert_eq!(measure_fill(&queue), 100);
    assert_eq!(measure_fill(&BoundedBuffer::new(0)), 0);
}

#[test]
fn a_stopped_satellite_stops_the_monitor() {
    let mut state = SatelliteState::new(0);
    state.is_running = false;
    let before = state;
    let mut downlink = BoundedBuffer::new(4);
    let turn = monitor_step(&mut state, &mut downlink, 1000);
    assert_eq!(turn.directive, Directive::Stop);
    assert!(turn.logs.is_empty());
    assert_eq!(state, before);
    assert_eq!(downlink.len(), 0);
}

#[test]
fn utilization_is_the_busy_time_per_core() {
    let mut state = SatelliteState::new(0);
    state.cpu_active_ms = 800;
    state.clock_sync.average_offset_ms = 6;
    let mut downlink = BoundedBuffer::new(4);
    assert!(utilization_fits(&state, 1000, 1004));
    let logs = monitor_utilization(&mut state, &mut downlink, 1000, 1004);
    assert!(logs.is_empty());
    assert_eq!(state.cpu_active_ms, 804);
    assert_eq!(
        drain(&mut downlink),
        vec![critical(
            1010,
            TaskID::GlobalSystem,
            EventID::ResourceUtilization,
            EventData::SystemStats { active_ms: 100, inactive_ms: 904 },
            1000
        )]
    );
}

#[test]
fn utilization_at_boot_is_zero() {
    let mut state = SatelliteState::new(0);
    state.cpu_active_ms = 0;
    let mut downlink = BoundedBuffer::new(4);
    monitor_utilization(&mut state, &mut downlink, 0, 0);
    assert_eq!(
        drain(&mut downlink),
        vec![critical(
            0,
            TaskID::GlobalSystem,
            EventID::ResourceUtilization,
            EventData::SystemStats { active_ms: 0, inactive_ms: 0 },
            0
        )]
    );
}

#[test]
fn utilization_does_not_fit_when_the_busy_time_exceeds_the_uptime() {
    let mut state = SatelliteState::new(0);
    state.cpu_active_ms = 8 * 50 + 8;
    assert!(!utilization_fits(&state, 50, 50));
    state.cpu_active_ms = 8 * 50 + 7;
    assert!(utilization_fits(&state, 50, 50));
    state.clock_sync.average_offset_ms = u64::MAX;
    assert!(!utilization_fits(&state, 50, 50));
}
