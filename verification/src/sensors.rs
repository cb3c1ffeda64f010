//! The cycle of a sensor task.
//!
//! A cycle has four turns, and the caller sleeps between them as each turn
//! tells it to: the entry reads the injected fault, the sample checks the
//! schedule and the value, the report writes the heartbeat and the reading,
//! and the settle accounts for the time and moves the schedule on.

use crate::buffer::{spec_emit_all, BoundedBuffer, Output};
use crate::config::{FAULT_RECOVERY_MS, MAX_SENSORS, SENSOR_DELAY_MS, SENSOR_FAULT_MS};
use crate::state::{low_32, low_32_bits, wrapping_sum_u64, SatelliteState, SensorState};
use crate::task::{Directive, Turn};
use crate::types::{EventData, EventID, Log, LogSource, Priority};
use vstd::prelude::*;

verus! {

/// The turn that a sensor task takes next.
#[derive(Debug, PartialEq, Eq, Clone, Copy, Structural)]
pub enum SensorPhase {
    Entry,
    Sample,
    Report,
    Settle,
}

/// What a sensor task keeps from turn to turn.
#[derive(Debug, PartialEq, Eq, Clone, Copy)]
pub struct SensorTask {
    /// The sensor that the task reads.
    pub sensor_index: usize,
    /// Uptime at which the next cycle is due.
    pub next_wake: u64,
    pub phase: SensorPhase,
    /// The injected fault that the entry of this cycle read.
    pub observed_fault: Option<EventID>,
    /// The value that the sample of this cycle read.
    pub sampled_value: u32,
    /// Uptime at which the report of this cycle ended.
    pub rested_since: u64,
}

/// What one turn of a sensor task comes to.
pub struct SensorOutcome {
    pub task: SensorTask,
    pub state: SatelliteState,
    /// What the turn hands over to the log and to the downlink, in order.
    pub outputs: Seq<Output>,
    pub directive: Directive,
}

/// A fault that was stamped at `fault_timestamp` has stood for longer than
/// the system waits for a recovery.
pub open spec fn fault_expired(fault_timestamp: u64, now: u64) -> bool {
    fault_timestamp != 0 && now - fault_timestamp > FAULT_RECOVERY_MS
}

/// Whether a fault that was stamped at `fault_timestamp` has stood for
/// longer than the system waits for a recovery.
pub fn has_fault_expired(fault_timestamp: u64, now: u64) -> (expired: bool)
    ensures
        expired == fault_expired(fault_timestamp, now),
{
    fault_timestamp != 0 && now > fault_timestamp && now - fault_timestamp > FAULT_RECOVERY_MS
}

/// The entry: a task that finds the satellite stopped ends; an injected task
/// fault stalls the task, which stays at the entry; any other fault is kept
/// for the rest of the cycle, and an injected start delay is slept through.
pub open spec fn spec_enter(task: SensorTask, state: SatelliteState) -> SensorOutcome {
    let fault = state.sensors[task.sensor_index as int].fault;
    if !state.is_running {
        SensorOutcome { task, state, outputs: Seq::empty(), directive: Directive::Stop }
    } else if fault == Some(EventID::TaskFault) {
        SensorOutcome {
            task,
            state,
            outputs: Seq::empty(),
            directive: Directive::Sleep { ms: SENSOR_FAULT_MS },
        }
    } else {
        SensorOutcome {
            task: SensorTask { phase: SensorPhase::Sample, observed_fault: fault, ..task },
            state,
            outputs: Seq::empty(),
            directive: Directive::Sleep {
                ms: if fault == Some(EventID::StartDelay) {
                    SENSOR_DELAY_MS
                } else {
                    0
                },
            },
        }
    }
}

/// What the sample hands over: a start delay with its drift when the cycle
/// begins late, and for a value outside the healthy window a data
/// corruption, followed by a mission abort when the fault has expired.
pub open spec fn sample_outputs(
    task: SensorTask,
    sensor: SensorState,
    now: u64,
    stamp: u64,
) -> Seq<Output> {
    let late = if now > task.next_wake {
        seq![
            Output::spec_critical(
                stamp,
                sensor.task_id,
                EventID::StartDelay,
                EventData::SchedulingDrift { drift_ms: low_32_bits((now - task.next_wake) as u64) },
                now,
            ),
        ]
    } else {
        Seq::empty()
    };
    let corrupted = if sensor.spec_has_valid_value() {
        Seq::empty()
    } else {
        seq![
            Output::spec_critical(
                stamp,
                sensor.task_id,
                EventID::DataCorruption,
                EventData::Hardware { value: sensor.value },
                now,
            ),
        ]
    };
    let aborted = if !sensor.spec_has_valid_value() && fault_expired(sensor.fault_timestamp, now) {
        seq![
            Output::spec_critical(
                stamp,
                sensor.task_id,
                EventID::MissionAbort,
                EventData::NoData,
                now,
            ),
        ]
    } else {
        Seq::empty()
    };
    late + corrupted + aborted
}

/// The sample: a late cycle is reported and the schedule reset to now; a
/// value outside the healthy window is reported, the sensor is reset to the
/// middle of its window and its fault is cleared, and a fault that has
/// expired aborts the mission. An injected completion delay is slept through.
pub open spec fn spec_sample(task: SensorTask, state: SatelliteState, now: u64) -> SensorOutcome {
    let index = task.sensor_index as int;
    let sensor = state.sensors[index];
    let stamp = state.spec_synchronized_timestamp(now);
    let valid = sensor.spec_has_valid_value();
    SensorOutcome {
        task: SensorTask {
            phase: SensorPhase::Report,
            next_wake: if now > task.next_wake {
                now
            } else {
                task.next_wake
            },
            sampled_value: sensor.value,
            ..task
        },
        state: if valid {
            state
        } else {
            SatelliteState {
                is_running: state.is_running && !fault_expired(sensor.fault_timestamp, now),
                ..state.with_sensor(
                    index,
                    SensorState {
                        value: sensor.spec_midpoint(),
                        fault: None,
                        fault_timestamp: 0,
                        ..sensor
                    },
                )
            }
        },
        outputs: sample_outputs(task, sensor, now, stamp),
        directive: Directive::Sleep {
            ms: if task.observed_fault == Some(EventID::CompletionDelay) {
                SENSOR_DELAY_MS
            } else {
                0
            },
        },
    }
}

/// The uptime at which the task wakes after the report: the next cycle is
/// put off by one more period while the system is degraded and the sensor is
/// not critical.
pub open spec fn report_wake(task: SensorTask, sensor: SensorState, degraded: bool) -> int {
    if degraded && sensor.priority != Priority::Critical {
        task.next_wake + sensor.period
    } else {
        task.next_wake as int
    }
}

/// The report: the heartbeat is written, the value that the sample read is
/// handed over in the class of the sensor, and the task sleeps until its next
/// cycle is due; when that time has come already, a completion delay with
/// its drift is handed over and the schedule reset to now.
pub open spec fn spec_report(task: SensorTask, state: SatelliteState, now: u64) -> SensorOutcome {
    let index = task.sensor_index as int;
    let sensor = state.sensors[index];
    let stamp = state.spec_synchronized_timestamp(now);
    let wake = report_wake(task, sensor, state.degraded_mode);
    let reading = Output::spec_telemetry(
        sensor.priority,
        stamp,
        sensor.task_id,
        EventID::TaskCompletion,
        EventData::Hardware { value: task.sampled_value },
        now,
    );
    SensorOutcome {
        task: SensorTask {
            phase: SensorPhase::Settle,
            next_wake: if wake > now {
                wake as u64
            } else {
                now
            },
            rested_since: now,
            ..task
        },
        state: state.with_sensor(index, SensorState { heartbeat: now, ..sensor }),
        outputs: if wake > now {
            seq![reading]
        } else {
            seq![
                reading,
                Output::spec_critical(
                    stamp,
                    sensor.task_id,
                    EventID::CompletionDelay,
                    EventData::SchedulingDrift { drift_ms: low_32_bits((now - wake) as u64) },
                    now,
                ),
            ]
        },
        directive: Directive::Sleep {
            ms: if wake > now {
                (wake - now) as u64
            } else {
                0
            },
        },
    }
}

/// The settle: the time since the report is added to the busy time of the
/// system, and the schedule moves on by one period.
pub open spec fn spec_settle(task: SensorTask, state: SatelliteState, now: u64) -> SensorOutcome {
    let sensor = state.sensors[task.sensor_index as int];
    let elapsed = if now >= task.rested_since {
        (now - task.rested_since) as u64
    } else {
        0
    };
    SensorOutcome {
        task: SensorTask {
            phase: SensorPhase::Entry,
            next_wake: (task.next_wake + sensor.period) as u64,
            ..task
        },
        state: SatelliteState {
            cpu_active_ms: wrapping_sum_u64(state.cpu_active_ms, elapsed),
            ..state
        },
        outputs: Seq::empty(),
        directive: Directive::Sleep { ms: 0 },
    }
}

/// What the next turn of a sensor task comes to at the uptime `now`.
pub open spec fn spec_sensor_step(task: SensorTask, state: SatelliteState, now: u64) -> SensorOutcome {
    match task.phase {
        SensorPhase::Entry => spec_enter(task, state),
        SensorPhase::Sample => spec_sample(task, state, now),
        SensorPhase::Report => spec_report(task, state, now),
        SensorPhase::Settle => spec_settle(task, state, now),
    }
}

/// A turn of a sensor task never sets a stopped satellite running again,
/// and a task that finds the satellite stopped at the entry of its cycle is
/// told to stop.
pub proof fn lemma_sensor_step_respects_stop(task: SensorTask, state: SatelliteState, now: u64)
    requires
        !state.is_running,
    ensures
        !spec_sensor_step(task, state, now).state.is_running,
        task.phase == SensorPhase::Entry ==> spec_sensor_step(task, state, now).directive
            == Directive::Stop,
{
}

/// A turn of a sensor task never asks for a longer sleep than the stall of
/// an injected task fault or, where that is longer, the time until one
/// period after the cycle is due.
pub proof fn lemma_sensor_sleep_is_bounded(task: SensorTask, state: SatelliteState, now: u64)
    ensures
        spec_sensor_step(task, state, now).directive matches Directive::Sleep { ms } ==> ms
            <= SENSOR_FAULT_MS || ms <= task.next_wake + state.sensors[task.sensor_index
            as int].period - now,
{
}

impl SensorTask {
    /// The next turn can be taken at the uptime `now`: the task reads a
    /// sensor that exists, and the times that the turn computes fit 64 bits.
    pub open spec fn can_step(self, state: SatelliteState, now: u64) -> bool {
        &&& self.sensor_index < MAX_SENSORS
        &&& match self.phase {
            SensorPhase::Entry => true,
            SensorPhase::Sample => state.can_stamp(now),
            SensorPhase::Report => state.can_stamp(now) && report_wake(
                self,
                state.sensors[self.sensor_index as int],
                state.degraded_mode,
            ) <= u64::MAX,
            SensorPhase::Settle => self.next_wake + state.sensors[self.sensor_index as int].period
                <= u64::MAX,
        }
    }

    /// The task of the sensor at `sensor_index`, started at the uptime `now`:
    /// its first cycle is due one period later.
    pub fn new(state: &SatelliteState, sensor_index: usize, now: u64) -> (task: SensorTask)
        requires
            sensor_index < MAX_SENSORS,
            now + state.sensors[sensor_index as int].period <= u64::MAX,
        ensures
            task == (SensorTask {
                sensor_index,
                next_wake: (now + state.sensors[sensor_index as int].period) as u64,
                phase: SensorPhase::Entry,
                observed_fault: None,
                sampled_value: 0,
                rested_since: now,
            }),
    {
        SensorTask {
            sensor_index,
            next_wake: now + state.sensors[sensor_index].period,
            phase: SensorPhase::Entry,
            observed_fault: None,
            sampled_value: 0,
            rested_since: now,
        }
    }

    /// Whether the next turn can be taken at the uptime `now`.
    pub fn fits(&self, state: &SatelliteState, now: u64) -> (fits: bool)
        ensures
            fits == self.can_step(*state, now),
    {
        if self.sensor_index >= MAX_SENSORS {
            return false;
        }
        let sensor = &state.sensors[self.sensor_index];
        match self.phase {
            SensorPhase::Entry => true,
            SensorPhase::Sample => state.stamp_fits(now),
            SensorPhase::Report => {
                let put_off = state.degraded_mode && sensor.priority != Priority::Critical;
                state.stamp_fits(now) && (!put_off || sensor.period <= u64::MAX - self.next_wake)
            },
            SensorPhase::Settle => sensor.period <= u64::MAX - self.next_wake,
        }
    }
}

/// Takes the next turn of a sensor task at the uptime `now`.
///
/// The task and the state become what `spec_sensor_step` says, the outputs of
/// the turn are handed over to the downlink one by one, and the turn tells
/// how long the caller sleeps before the next one. At the entry a task that
/// finds the satellite stopped is told to stop, and nothing changes.
pub fn sensor_step(
    task: &mut SensorTask,
    state: &mut SatelliteState,
    downlink: &mut BoundedBuffer,
    now: u64,
) -> (turn: Turn)
    requires
        old(task).can_step(*old(state), now),
        old(downlink).wf(),
    ensures
        *final(task) == spec_sensor_step(*old(task), *old(state), now).task,
        *final(state) == spec_sensor_step(*old(task), *old(state), now).state,
        turn.directive == spec_sensor_step(*old(task), *old(state), now).directive,
        final(downlink).wf(),
        final(downlink).spec_capacity() == old(downlink).spec_capacity(),
        final(downlink).spec_metrics() == old(downlink).spec_metrics(),
        (final(downlink)@, turn.logs@) == spec_emit_all(
            old(downlink)@,
            old(downlink).spec_capacity() as nat,
            LogSource::Sensor,
            spec_sensor_step(*old(task), *old(state), now).outputs,
            now,
            old(state).spec_synchronized_timestamp(now),
        ),
        !old(state).is_running ==> !final(state).is_running,
        old(task).phase == SensorPhase::Entry && !old(state).is_running ==> turn.directive
            == Directive::Stop,
        final(state).same_configuration(*old(state)),
        final(task).sensor_index == old(task).sensor_index,
{
    match task.phase {
        SensorPhase::Entry => enter(task, state),
        SensorPhase::Sample => sample(task, state, downlink, now),
        SensorPhase::Report => report(task, state, downlink, now),
        SensorPhase::Settle => settle(task, state, now),
    }
}

/// The entry of a cycle.
fn enter(task: &mut SensorTask, state: &SatelliteState) -> (turn: Turn)
    requires
        old(task).sensor_index < MAX_SENSORS,
    ensures
        *final(task) == spec_enter(*old(task), *state).task,
        turn.directive == spec_enter(*old(task), *state).directive,
        turn.logs@ == Seq::<Log>::empty(),
{
    let fault = state.sensors[task.sensor_index].fault;
    if !state.is_running {
        return Turn { directive: Directive::Stop, logs: Vec::new() };
    }
    let stalled = match fault {
        Some(EventID::TaskFault) => true,
        _ => false,
    };
    if stalled {
        return Turn { directive: Directive::Sleep { ms: SENSOR_FAULT_MS }, logs: Vec::new() };
    }
    let delayed = match fault {
        Some(EventID::StartDelay) => true,
        _ => false,
    };
    task.phase = SensorPhase::Sample;
    task.observed_fault = fault;
    Turn {
        directive: Directive::Sleep {
            ms: if delayed {
                SENSOR_DELAY_MS
            } else {
                0
            },
        },
        logs: Vec::new(),
    }
}

/// The sample of a cycle.
fn sample(
    task: &mut SensorTask,
    state: &mut SatelliteState,
    downlink: &mut BoundedBuffer,
    now: u64,
) -> (turn: Turn)
    requires
        old(task).sensor_index < MAX_SENSORS,
        old(state).can_stamp(now),
        old(downlink).wf(),
    ensures
        *final(task) == spec_sample(*old(task), *old(state), now).task,
        *final(state) == spec_sample(*old(task), *old(state), now).state,
        turn.directive == spec_sample(*old(task), *old(state), now).directive,
        final(downlink).wf(),
        final(downlink).spec_capacity() == old(downlink).spec_capacity(),
        final(downlink).spec_metrics() == old(downlink).spec_metrics(),
        (final(downlink)@, turn.logs@) == spec_emit_all(
            old(downlink)@,
            old(downlink).spec_capacity() as nat,
            LogSource::Sensor,
            spec_sample(*old(task), *old(state), now).outputs,
            now,
            old(state).spec_synchronized_timestamp(now),
        ),
{
    let index = task.sensor_index;
    let sensor = state.sensors[index];
    let stamp = state.get_synchronized_timestamp(now);
    let mut outbox: Vec<Output> = Vec::new();
    if now > task.next_wake {
        outbox.push(
            Output::critical(
                stamp,
                sensor.task_id,
                EventID::StartDelay,
                EventData::SchedulingDrift { drift_ms: low_32(now - task.next_wake) },
                now,
            ),
        );
        task.next_wake = now;
    }
    task.sampled_value = sensor.value;
    task.phase = SensorPhase::Report;
    if !sensor.has_valid_value() {
        outbox.push(
            Output::critical(
                stamp,
                sensor.task_id,
                EventID::DataCorruption,
                EventData::Hardware { value: sensor.value },
                now,
            ),
        );
        if has_fault_expired(sensor.fault_timestamp, now) {
            outbox.push(
                Output::critical(
                    stamp,
                    sensor.task_id,
                    EventID::MissionAbort,
                    EventData::NoData,
                    now,
                ),
            );
            state.is_running = false;
        }
        state.sensors[index].value = sensor.midpoint();
        state.sensors[index].fault = None;
        state.sensors[index].fault_timestamp = 0;
        assert(state.sensors =~= vstd::array::spec_array_update(
            old(state).sensors,
            index as int,
            SensorState {
                value: sensor.spec_midpoint(),
                fault: None,
                fault_timestamp: 0,
                ..sensor
            },
        ));
    }
    assert(outbox@ =~= sample_outputs(*old(task), sensor, now, stamp));
    let delayed = match task.observed_fault {
        Some(EventID::CompletionDelay) => true,
        _ => false,
    };
    let logs = downlink.emit_all(LogSource::Sensor, &outbox, now, stamp);
    Turn {
        directive: Directive::Sleep {
            ms: if delayed {
                SENSOR_DELAY_MS
            } else {
                0
            },
        },
        logs,
    }
}

/// The report of a cycle.
fn report(
    task: &mut SensorTask,
    state: &mut SatelliteState,
    downlink: &mut BoundedBuffer,
    now: u64,
) -> (turn: Turn)
    requires
        old(task).sensor_index < MAX_SENSORS,
        old(state).can_stamp(now),
        report_wake(
            *old(task),
            old(state).sensors[old(task).sensor_index as int],
            old(state).degraded_mode,
        ) <= u64::MAX,
        old(downlink).wf(),
    ensures
        *final(task) == spec_report(*old(task), *old(state), now).task,
        *final(state) == spec_report(*old(task), *old(state), now).state,
        turn.directive == spec_report(*old(task), *old(state), now).directive,
        final(downlink).wf(),
        final(downlink).spec_capacity() == old(downlink).spec_capacity(),
        final(downlink).spec_metrics() == old(downlink).spec_metrics(),
        (final(downlink)@, turn.logs@) == spec_emit_all(
            old(downlink)@,
            old(downlink).spec_capacity() as nat,
            LogSource::Sensor,
            spec_report(*old(task), *old(state), now).outputs,
            now,
            old(state).spec_synchronized_timestamp(now),
        ),
{
    let index = task.sensor_index;
    let sensor = state.sensors[index];
    let stamp = state.get_synchronized_timestamp(now);
    state.sensors[index].heartbeat = now;
    assert(state.sensors =~= vstd::array::spec_array_update(
        old(state).sensors,
        index as int,
        SensorState { heartbeat: now, ..sensor },
    ));
    let mut outbox: Vec<Output> = Vec::new();
    outbox.push(
        Output::telemetry(
            sensor.priority,
            stamp,
            sensor.task_id,
            EventID::TaskCompletion,
            EventData::Hardware { value: task.sampled_value },
            now,
        ),
    );
    let put_off = state.degraded_mode && sensor.priority != Priority::Critical;
    let wake: u64 = if put_off {
        task.next_wake + sensor.period
    } else {
        task.next_wake
    };
    let sleep_ms: u64 = if wake > now {
        task.next_wake = wake;
        wake - now
    } else {
        outbox.push(
            Output::critical(
                stamp,
                sensor.task_id,
                EventID::CompletionDelay,
                EventData::SchedulingDrift { drift_ms: low_32(now - wake) },
                now,
            ),
        );
        task.next_wake = now;
        0
    };
    task.rested_since = now;
    task.phase = SensorPhase::Settle;
    assert(outbox@ =~= spec_report(*old(task), *old(state), now).outputs);
    let logs = downlink.emit_all(LogSource::Sensor, &outbox, now, stamp);
    Turn { directive: Directive::Sleep { ms: sleep_ms }, logs }
}

/// The settle of a cycle.
fn settle(task: &mut SensorTask, state: &mut SatelliteState, now: u64) -> (turn: Turn)
    requires
        old(task).sensor_index < MAX_SENSORS,
        old(task).next_wake + old(state).sensors[old(task).sensor_index as int].period
            <= u64::MAX,
    ensures
        *final(task) == spec_settle(*old(task), *old(state), now).task,
        *final(state) == spec_settle(*old(task), *old(state), now).state,
        turn.directive == spec_settle(*old(task), *old(state), now).directive,
        turn.logs@ == Seq::<Log>::empty(),
{
    let elapsed: u64 = if now >= task.rested_since {
        now - task.rested_since
    } else {
        0
    };
    state.account_active(elapsed);
    task.next_wake = task.next_wake + state.sensors[task.sensor_index].period;
    task.phase = SensorPhase::Entry;
    Turn { directive: Directive::Sleep { ms: 0 }, logs: Vec::new() }
}

} // verus!
