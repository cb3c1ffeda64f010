//! The cycle of the health monitor: liveness of the sensor tasks, subsystem
//! faults, the switch between normal and degraded mode, and the accounting
//! of busy time.

use crate::buffer::{lemma_emit_all_concat, spec_emit_all, BoundedBuffer, Output};
use crate::config::{
    DEGRADED_TO_NORMAL_THRESHOLD, MAX_SENSORS, MAX_SUBSYSTEM, MONITOR_MS,
    NORMAL_TO_DEGRADED_THRESHOLD, NUMBER_OF_CORES,
};
use crate::sensors::{fault_expired, has_fault_expired};
use crate::state::{
    low_32, low_32_bits, wrapping_sum_u64, SatelliteState, SensorState, SubsystemState,
};
use crate::task::{Directive, Turn};
use crate::types::{
    Event, EventData, EventID, Log, LogSource, Metrics, Priority, TaskID, TelemetryPacket,
};
use vstd::prelude::*;

verus! {

/// How long the heartbeat of a sensor may be old: three periods, and six
/// while the system is degraded and the sensor is not critical.
pub open spec fn liveness_limit(sensor: SensorState, degraded: bool) -> int {
    if degraded && sensor.priority != Priority::Critical {
        sensor.period * 6
    } else {
        sensor.period * 3
    }
}

/// The heartbeat of the sensor is older than its liveness limit.
pub open spec fn is_stale(sensor: SensorState, degraded: bool, now: u64) -> bool {
    now - sensor.heartbeat > liveness_limit(sensor, degraded)
}

/// Whether the heartbeat of the sensor is older than its liveness limit.
pub fn check_stale(sensor: &SensorState, degraded: bool, now: u64) -> (stale: bool)
    ensures
        stale == is_stale(*sensor, degraded, now),
{
    if now <= sensor.heartbeat {
        return false;
    }
    let age: u128 = (now - sensor.heartbeat) as u128;
    let factor: u128 = if degraded && sensor.priority != Priority::Critical {
        6
    } else {
        3
    };
    let limit: u128 = (sensor.period as u128) * factor;
    age > limit
}

/// What the monitor hands over for one sensor: nothing while the heartbeat is
/// fresh; for a stale one a task fault for the log and one for the ground,
/// followed by a mission abort with the age of the fault when the fault has
/// expired.
pub open spec fn sensor_watch_outputs(
    sensor: SensorState,
    degraded: bool,
    now: u64,
    stamp: u64,
) -> Seq<Output> {
    if !is_stale(sensor, degraded, now) {
        Seq::empty()
    } else {
        let alert = seq![
            Output::Record {
                log: Log {
                    source: LogSource::HealthMonitor,
                    event: Event {
                        task_id: sensor.task_id,
                        event_id: EventID::TaskFault,
                        data: EventData::NoData,
                        timestamp: now,
                    },
                },
            },
            Output::spec_critical(
                stamp,
                sensor.task_id,
                EventID::TaskFault,
                EventData::NoData,
                now,
            ),
        ];
        if fault_expired(sensor.fault_timestamp, now) {
            alert.push(
                Output::spec_critical(
                    stamp,
                    sensor.task_id,
                    EventID::MissionAbort,
                    EventData::FaultRecovery {
                        recovery_time: low_32_bits((now - sensor.fault_timestamp) as u64),
                    },
                    now,
                ),
            )
        } else {
            alert
        }
    }
}

/// The record of a sensor after the monitor looked at it: a stale sensor has
/// its fault cleared, so that the fault is reported once.
pub open spec fn watched_sensor(sensor: SensorState, degraded: bool, now: u64) -> SensorState {
    if is_stale(sensor, degraded, now) {
        SensorState { fault: None, fault_timestamp: 0, ..sensor }
    } else {
        sensor
    }
}

/// The monitor aborts the mission for this sensor: it is stale and its fault
/// has expired.
pub open spec fn sensor_aborts(sensor: SensorState, degraded: bool, now: u64) -> bool {
    is_stale(sensor, degraded, now) && fault_expired(sensor.fault_timestamp, now)
}

/// The subsystem has a fault to report.
pub open spec fn has_standing_fault(subsystem: SubsystemState) -> bool {
    subsystem.fault && subsystem.fault_timestamp != 0
}

/// The monitor aborts the mission for this subsystem: its fault has expired.
pub open spec fn subsystem_aborts(subsystem: SubsystemState, now: u64) -> bool {
    has_standing_fault(subsystem) && fault_expired(subsystem.fault_timestamp, now)
}

/// What the monitor hands over for one subsystem: for a standing fault a
/// subsystem fault, followed by a mission abort with the age of the fault
/// when the fault has expired.
pub open spec fn subsystem_watch_outputs(
    subsystem: SubsystemState,
    now: u64,
    stamp: u64,
) -> Seq<Output> {
    if !has_standing_fault(subsystem) {
        Seq::empty()
    } else {
        let alert = seq![
            Output::spec_critical(
                stamp,
                TaskID::GlobalSystem,
                EventID::SubsystemFault,
                EventData::SubsystemFault { subsystem_id: subsystem.id },
                now,
            ),
        ];
        if fault_expired(subsystem.fault_timestamp, now) {
            alert.push(
                Output::spec_critical(
                    stamp,
                    TaskID::GlobalSystem,
                    EventID::MissionAbort,
                    EventData::FaultRecovery {
                        recovery_time: low_32_bits((now - subsystem.fault_timestamp) as u64),
                    },
                    now,
                ),
            )
        } else {
            alert
        }
    }
}

/// The record of a subsystem after the monitor looked at it: a standing
/// fault is cleared, while the interlock stays as it is.
pub open spec fn watched_subsystem(subsystem: SubsystemState) -> SubsystemState {
    if has_standing_fault(subsystem) {
        SubsystemState { fault: false, fault_timestamp: 0, ..subsystem }
    } else {
        subsystem
    }
}

/// What the monitor hands over for the first `count` sensors, in their order.
pub open spec fn liveness_outputs(
    state: SatelliteState,
    now: u64,
    stamp: u64,
    count: int,
) -> Seq<Output>
    decreases count,
{
    if count <= 0 {
        Seq::empty()
    } else {
        liveness_outputs(state, now, stamp, count - 1) + sensor_watch_outputs(
            state.sensors[count - 1],
            state.degraded_mode,
            now,
            stamp,
        )
    }
}

/// What the monitor hands over for the first `count` subsystems, in their
/// order.
pub open spec fn subsystem_outputs(
    state: SatelliteState,
    now: u64,
    stamp: u64,
    count: int,
) -> Seq<Output>
    decreases count,
{
    if count <= 0 {
        Seq::empty()
    } else {
        subsystem_outputs(state, now, stamp, count - 1) + subsystem_watch_outputs(
            state.subsystem_health[count - 1],
            now,
            stamp,
        )
    }
}

/// What the monitor hands over for the health of the system: for all
/// sensors first, then for all subsystems.
pub open spec fn health_outputs(state: SatelliteState, now: u64, stamp: u64) -> Seq<Output> {
    liveness_outputs(state, now, stamp, MAX_SENSORS as int) + subsystem_outputs(
        state,
        now,
        stamp,
        MAX_SUBSYSTEM as int,
    )
}

/// The monitor finds no reason to abort the mission among the first
/// `sensors` sensors and the first `subsystems` subsystems.
pub open spec fn no_abort_among(
    state: SatelliteState,
    now: u64,
    sensors: int,
    subsystems: int,
) -> bool {
    &&& forall|i: int|
        0 <= i < sensors ==> !sensor_aborts(#[trigger] state.sensors[i], state.degraded_mode, now)
    &&& forall|i: int|
        0 <= i < subsystems ==> !subsystem_aborts(#[trigger] state.subsystem_health[i], now)
}

/// How full a queue is, in whole percent; a queue without capacity counts
/// as empty.
pub open spec fn fill_percent(len: nat, capacity: nat) -> nat {
    if capacity == 0 {
        0
    } else {
        100 * len / capacity
    }
}

/// The mode after the monitor measured the fill of the downlink: normal mode
/// turns degraded at the upper threshold, degraded mode turns normal under
/// the lower one, and otherwise the mode stays.
pub open spec fn next_mode(degraded: bool, fill: nat) -> bool {
    if fill >= NORMAL_TO_DEGRADED_THRESHOLD && !degraded {
        true
    } else if fill < DEGRADED_TO_NORMAL_THRESHOLD && degraded {
        false
    } else {
        degraded
    }
}

/// What the monitor hands over for the mode: the new mode with the metrics
/// of the queue when the mode changes, and nothing when it stays.
pub open spec fn mode_outputs(
    degraded: bool,
    fill: nat,
    metrics: Metrics,
    now: u64,
    stamp: u64,
) -> Seq<Output> {
    if next_mode(degraded, fill) == degraded {
        Seq::empty()
    } else {
        seq![
            Output::spec_critical(
                stamp,
                TaskID::NetworkService,
                if degraded {
                    EventID::NormalMode
                } else {
                    EventID::DegradedMode
                },
                EventData::QueuePerformance {
                    latency_ms: metrics.last_latency_ms,
                    jitter_ms: metrics.jitter_ms,
                    buffer_fill_rate: fill as u32,
                },
                now,
            ),
        ]
    }
}

/// Everything that one cycle of the monitor hands over: the outputs for the
/// health of the system, and then the output for the mode, which goes by the
/// fill of the downlink after the outputs for the health went into it.
pub open spec fn monitor_outputs(
    state: SatelliteState,
    queue: Seq<TelemetryPacket>,
    capacity: nat,
    metrics: Metrics,
    now: u64,
) -> Seq<Output> {
    let stamp = state.spec_synchronized_timestamp(now);
    let health = health_outputs(state, now, stamp);
    let filled = spec_emit_all(queue, capacity, LogSource::HealthMonitor, health, now, stamp).0;
    health + mode_outputs(
        state.degraded_mode,
        fill_percent(filled.len(), capacity),
        metrics,
        now,
        stamp,
    )
}

/// The fill that one cycle of the monitor measures.
pub open spec fn monitor_fill(
    state: SatelliteState,
    queue: Seq<TelemetryPacket>,
    capacity: nat,
    now: u64,
) -> nat {
    let stamp = state.spec_synchronized_timestamp(now);
    let health = health_outputs(state, now, stamp);
    let filled = spec_emit_all(queue, capacity, LogSource::HealthMonitor, health, now, stamp).0;
    fill_percent(filled.len(), capacity)
}

/// The monitor hands over a change of mode exactly when the mode changes:
/// while the mode stays from one cycle to the next, no event tells of it.
pub proof fn lemma_mode_event_iff_mode_changes(
    degraded: bool,
    fill: nat,
    metrics: Metrics,
    now: u64,
    stamp: u64,
)
    ensures
        mode_outputs(degraded, fill, metrics, now, stamp).len() == 0 <==> next_mode(
            degraded,
            fill,
        ) == degraded,
        mode_outputs(degraded, fill, metrics, now, stamp).len() <= 1,
{
}

/// The busy time per core: the uptime times the share of the busy time in
/// the time that all cores had, in whole milliseconds.
pub open spec fn effective_active_ms(uptime: u64, cpu_active_ms: u64) -> int {
    let possible = if uptime * NUMBER_OF_CORES < 1 {
        1
    } else {
        uptime * NUMBER_OF_CORES
    };
    (uptime * cpu_active_ms) / possible
}

/// Once the satellite is up, the busy time per core is the busy time divided
/// by the number of cores.
pub proof fn lemma_effective_active(uptime: u64, cpu_active_ms: u64)
    ensures
        uptime == 0 ==> effective_active_ms(uptime, cpu_active_ms) == 0,
        uptime > 0 ==> effective_active_ms(uptime, cpu_active_ms) == cpu_active_ms
            / NUMBER_OF_CORES,
        0 <= effective_active_ms(uptime, cpu_active_ms) <= cpu_active_ms,
{
    let u = uptime as int;
    let c = cpu_active_ms as int;
    if uptime == 0 {
        assert(u * c == 0) by (nonlinear_arith)
            requires
                u == 0,
        ;
    } else {
        assert(u * c == c * u && u * 8 == uptime * NUMBER_OF_CORES) by (nonlinear_arith)
            requires
                u == uptime,
                c == cpu_active_ms,
        ;
        vstd::arithmetic::div_mod::lemma_div_denominator(c * u, u, 8);
        vstd::arithmetic::div_mod::lemma_div_multiples_vanish(c, u);
    }
}

/// Takes one cycle of the health monitor at the uptime `now`.
///
/// A monitor that finds the satellite stopped is told to stop, and nothing
/// changes. Otherwise every stale sensor and every standing subsystem fault
/// is reported and cleared, a fault that has expired aborts the mission, the
/// fill of the downlink is measured and stored, and the mode is switched
/// when the fill crossed its threshold. The outputs are handed over to the
/// downlink one by one, and the monitor sleeps for its period.
pub fn monitor_step(state: &mut SatelliteState, downlink: &mut BoundedBuffer, now: u64) -> (turn:
    Turn)
    requires
        old(state).can_stamp(now),
        old(downlink).wf(),
    ensures
        final(downlink).wf(),
        final(downlink).spec_capacity() == old(downlink).spec_capacity(),
        final(downlink).spec_metrics() == old(downlink).spec_metrics(),
        final(state).same_configuration(*old(state)),
        !old(state).is_running ==> {
            &&& turn.directive == Directive::Stop
            &&& turn.logs@ == Seq::<Log>::empty()
            &&& *final(state) == *old(state)
            &&& final(downlink)@ == old(downlink)@
        },
        old(state).is_running ==> {
            &&& turn.directive == Directive::Sleep { ms: MONITOR_MS }
            &&& (final(downlink)@, turn.logs@) == spec_emit_all(
                old(downlink)@,
                old(downlink).spec_capacity() as nat,
                LogSource::HealthMonitor,
                monitor_outputs(
                    *old(state),
                    old(downlink)@,
                    old(downlink).spec_capacity() as nat,
                    old(downlink).spec_metrics(),
                    now,
                ),
                now,
                old(state).spec_synchronized_timestamp(now),
            )
            &&& final(state).is_running == no_abort_among(
                *old(state),
                now,
                MAX_SENSORS as int,
                MAX_SUBSYSTEM as int,
            )
            &&& forall|i: int|
                0 <= i < MAX_SENSORS ==> final(state).sensors[i] == watched_sensor(
                    #[trigger] old(state).sensors[i],
                    old(state).degraded_mode,
                    now,
                )
            &&& forall|i: int|
                0 <= i < MAX_SUBSYSTEM ==> final(state).subsystem_health[i] == watched_subsystem(
                    #[trigger] old(state).subsystem_health[i],
                )
            &&& final(state).buffer_fill_rate == monitor_fill(
                *old(state),
                old(downlink)@,
                old(downlink).spec_capacity() as nat,
                now,
            )
            &&& final(state).degraded_mode == next_mode(
                old(state).degraded_mode,
                final(state).buffer_fill_rate as nat,
            )
            &&& final(state).is_visible == old(state).is_visible
            &&& final(state).clock_sync == old(state).clock_sync
            &&& final(state).boot_time == old(state).boot_time
            &&& final(state).cpu_active_ms == old(state).cpu_active_ms
            &&& final(state).packet_sequence_no == old(state).packet_sequence_no
        },
{
    if !state.is_running {
        return Turn { directive: Directive::Stop, logs: Vec::new() };
    }
    let stamp = state.get_synchronized_timestamp(now);
    let degraded = state.degraded_mode;
    let mut outbox: Vec<Output> = Vec::new();
    let mut i: usize = 0;
    while i < MAX_SENSORS
        invariant
            i <= MAX_SENSORS,
            outbox@ == liveness_outputs(*old(state), now, stamp, i as int),
            state.is_running == no_abort_among(*old(state), now, i as int, 0),
            forall|k: int|
                0 <= k < i ==> state.sensors[k] == watched_sensor(
                    #[trigger] old(state).sensors[k],
                    degraded,
                    now,
                ),
            forall|k: int| i <= k < MAX_SENSORS ==> state.sensors[k] == old(state).sensors[k],
            degraded == old(state).degraded_mode,
            *state == (SatelliteState {
                is_running: state.is_running,
                sensors: state.sensors,
                ..*old(state)
            }),
        decreases MAX_SENSORS - i,
    {
        let sensor = state.sensors[i];
        if check_stale(&sensor, degraded, now) {
            outbox.push(
                Output::Record {
                    log: Log {
                        source: LogSource::HealthMonitor,
                        event: Event {
                            task_id: sensor.task_id,
                            event_id: EventID::TaskFault,
                            data: EventData::NoData,
                            timestamp: now,
                        },
                    },
                },
            );
            outbox.push(
                Output::critical(
                    stamp,
                    sensor.task_id,
                    EventID::TaskFault,
                    EventData::NoData,
                    now,
                ),
            );
            if has_fault_expired(sensor.fault_timestamp, now) {
                outbox.push(
                    Output::critical(
                        stamp,
                        sensor.task_id,
                        EventID::MissionAbort,
                        EventData::FaultRecovery {
                            recovery_time: low_32(now - sensor.fault_timestamp),
                        },
                        now,
                    ),
                );
                state.is_running = false;
            }
            state.sensors[i].fault = None;
            state.sensors[i].fault_timestamp = 0;
        }
        i = i + 1;
    }
    let ghost liveness = outbox@;
    let mut j: usize = 0;
    while j < MAX_SUBSYSTEM
        invariant
            j <= MAX_SUBSYSTEM,
            outbox@ == liveness + subsystem_outputs(*old(state), now, stamp, j as int),
            state.is_running == no_abort_among(*old(state), now, MAX_SENSORS as int, j as int),
            forall|k: int|
                0 <= k < j ==> state.subsystem_health[k] == watched_subsystem(
                    #[trigger] old(state).subsystem_health[k],
                ),
            forall|k: int|
                j <= k < MAX_SUBSYSTEM ==> state.subsystem_health[k] == old(
                    state,
                ).subsystem_health[k],
            forall|k: int|
                0 <= k < MAX_SENSORS ==> state.sensors[k] == watched_sensor(
                    #[trigger] old(state).sensors[k],
                    degraded,
                    now,
                ),
            degraded == old(state).degraded_mode,
            *state == (SatelliteState {
                is_running: state.is_running,
                sensors: state.sensors,
                subsystem_health: state.subsystem_health,
                ..*old(state)
            }),
        decreases MAX_SUBSYSTEM - j,
    {
        let subsystem = state.subsystem_health[j];
        if subsystem.fault && subsystem.fault_timestamp != 0 {
            outbox.push(
                Output::critical(
                    stamp,
                    TaskID::GlobalSystem,
                    EventID::SubsystemFault,
                    EventData::SubsystemFault { subsystem_id: subsystem.id },
                    now,
                ),
            );
            if has_fault_expired(subsystem.fault_timestamp, now) {
                outbox.push(
                    Output::critical(
                        stamp,
                        TaskID::GlobalSystem,
                        EventID::MissionAbort,
                        EventData::FaultRecovery {
                            recovery_time: low_32(now - subsystem.fault_timestamp),
                        },
                        now,
                    ),
                );
                state.is_running = false;
            }
            state.subsystem_health[j].fault = false;
            state.subsystem_health[j].fault_timestamp = 0;
        }
        assert(outbox@ =~= liveness + (subsystem_outputs(*old(state), now, stamp, j as int)
            + subsystem_watch_outputs(subsystem, now, stamp)));
        j = j + 1;
    }
    let ghost health = outbox@;
    let mut logs = downlink.emit_all(LogSource::HealthMonitor, &outbox, now, stamp);
    let fill: u32 = measure_fill(downlink);
    state.buffer_fill_rate = fill;
    let metrics = downlink.metrics();
    let mut notice: Vec<Output> = Vec::new();
    if fill >= NORMAL_TO_DEGRADED_THRESHOLD && !degraded {
        state.degraded_mode = true;
        notice.push(
            Output::critical(
                stamp,
                TaskID::NetworkService,
                EventID::DegradedMode,
                EventData::QueuePerformance {
                    latency_ms: metrics.last_latency_ms,
                    jitter_ms: metrics.jitter_ms,
                    buffer_fill_rate: fill,
                },
                now,
            ),
        );
    } else if fill < DEGRADED_TO_NORMAL_THRESHOLD && degraded {
        state.degraded_mode = false;
        notice.push(
            Output::critical(
                stamp,
                TaskID::NetworkService,
                EventID::NormalMode,
                EventData::QueuePerformance {
                    latency_ms: metrics.last_latency_ms,
                    jitter_ms: metrics.jitter_ms,
                    buffer_fill_rate: fill,
                },
                now,
            ),
        );
    }
    proof {
        lemma_emit_all_concat(
            old(downlink)@,
            old(downlink).spec_capacity() as nat,
            LogSource::HealthMonitor,
            health,
            notice@,
            now,
            stamp,
        );
    }
    let mut more = downlink.emit_all(LogSource::HealthMonitor, &notice, now, stamp);
    logs.append(&mut more);
    Turn { directive: Directive::Sleep { ms: MONITOR_MS }, logs }
}

/// The fill of a queue in whole percent.
pub fn measure_fill(queue: &BoundedBuffer) -> (fill: u32)
    requires
        queue.wf(),
    ensures
        fill == fill_percent(queue@.len(), queue.spec_capacity() as nat),
        fill <= 100,
{
    let capacity = queue.capacity();
    if capacity == 0 {
        return 0;
    }
    let len = queue.len();
    let scaled: u128 = 100u128 * (len as u128);
    let fill: u128 = scaled / (capacity as u128);
    assert(fill <= 100) by (nonlinear_arith)
        requires
            fill == (100 * len) / (capacity as int),
            0 <= len <= capacity,
            capacity > 0,
    ;
    fill as u32
}

/// The utilisation can be reported: the synchronised timestamp fits, and
/// the busy time per core is no longer than the uptime.
pub open spec fn can_report_utilization(state: SatelliteState, started: u64, now: u64) -> bool {
    &&& state.can_stamp(now)
    &&& effective_active_ms(
        now,
        wrapping_sum_u64(state.cpu_active_ms, elapsed_between(started, now)),
    ) <= now
}

/// The time from `started` to `now`; zero when `now` is the earlier one.
pub open spec fn elapsed_between(started: u64, now: u64) -> u64 {
    if now >= started {
        (now - started) as u64
    } else {
        0
    }
}

/// Whether the utilisation can be reported.
pub fn utilization_fits(state: &SatelliteState, started: u64, now: u64) -> (fits: bool)
    ensures
        fits == can_report_utilization(*state, started, now),
{
    let elapsed: u64 = if now >= started {
        now - started
    } else {
        0
    };
    let busy = state.cpu_active_ms.wrapping_add(elapsed);
    state.stamp_fits(now) && active_share(now, busy) <= now
}

/// The busy time per core.
fn active_share(uptime: u64, cpu_active_ms: u64) -> (active: u64)
    ensures
        active == effective_active_ms(uptime, cpu_active_ms),
{
    proof {
        lemma_effective_active(uptime, cpu_active_ms);
    }
    if uptime == 0 {
        0
    } else {
        cpu_active_ms / NUMBER_OF_CORES
    }
}

/// Closes a cycle of the monitor that began at the uptime `started`: the
/// time that the cycle took is added to the busy time of the system, and the
/// utilisation is handed over to the downlink: the busy time per core, and
/// the rest of the uptime as idle time.
pub fn monitor_utilization(
    state: &mut SatelliteState,
    downlink: &mut BoundedBuffer,
    started: u64,
    now: u64,
) -> (logs: Vec<Log>)
    requires
        can_report_utilization(*old(state), started, now),
        old(downlink).wf(),
    ensures
        final(downlink).wf(),
        final(downlink).spec_capacity() == old(downlink).spec_capacity(),
        final(downlink).spec_metrics() == old(downlink).spec_metrics(),
        *final(state) == (SatelliteState {
            cpu_active_ms: wrapping_sum_u64(
                old(state).cpu_active_ms,
                elapsed_between(started, now),
            ),
            ..*old(state)
        }),
        (final(downlink)@, logs@) == spec_emit_all(
            old(downlink)@,
            old(downlink).spec_capacity() as nat,
            LogSource::HealthMonitor,
            seq![
                Output::spec_critical(
                    old(state).spec_synchronized_timestamp(now),
                    TaskID::GlobalSystem,
                    EventID::ResourceUtilization,
                    EventData::SystemStats {
                        active_ms: effective_active_ms(now, final(state).cpu_active_ms) as u64,
                        inactive_ms: (now - effective_active_ms(
                            now,
                            final(state).cpu_active_ms,
                        )) as u64,
                    },
                    started,
                ),
            ],
            now,
            old(state).spec_synchronized_timestamp(now),
        ),
{
    let elapsed: u64 = if now >= started {
        now - started
    } else {
        0
    };
    state.account_active(elapsed);
    let stamp = state.get_synchronized_timestamp(now);
    let active = active_share(now, state.cpu_active_ms);
    let mut outbox: Vec<Output> = Vec::new();
    outbox.push(
        Output::critical(
            stamp,
            TaskID::GlobalSystem,
            EventID::ResourceUtilization,
            EventData::SystemStats { active_ms: active, inactive_ms: now - active },
            started,
        ),
    );
    assert(outbox@ =~= seq![
        Output::spec_critical(
            stamp,
            TaskID::GlobalSystem,
            EventID::ResourceUtilization,
            EventData::SystemStats { active_ms: active, inactive_ms: (now - active) as u64 },
            started,
        ),
    ]);
    downlink.emit_all(LogSource::HealthMonitor, &outbox, now, stamp)
}

} // verus!
