//! The state that all tasks share: flags, clock synchronisation, sensor and
//! subsystem records and the counters of the whole system.
//!
//! Times are unsigned milliseconds. The counters that every task adds to
//! (`cpu_active_ms`, `packet_sequence_no`, the accumulated clock offset) wrap
//! around at the width of their type.

use crate::config::{MAX_SENSORS, MAX_SUBSYSTEM, TICK_RATE};
use crate::types::{EventID, Priority, SubsystemID, TaskID};
use vstd::prelude::*;

verus! {

/// The sum of two 64-bit counters, wrapped around at 2^64.
pub open spec fn wrapping_sum_u64(a: u64, b: u64) -> u64 {
    if a + b > u64::MAX {
        (a + b - 0x1_0000_0000_0000_0000) as u64
    } else {
        (a + b) as u64
    }
}

/// The sum of two 32-bit numbers, wrapped around at 2^32.
pub open spec fn wrapping_sum_u32(a: u32, b: u32) -> u32 {
    if a + b > u32::MAX {
        (a + b - 0x1_0000_0000) as u32
    } else {
        (a + b) as u32
    }
}

/// The difference of two 32-bit numbers, wrapped around at 2^32.
pub open spec fn wrapping_difference_u32(a: u32, b: u32) -> u32 {
    if a < b {
        (a - b + 0x1_0000_0000) as u32
    } else {
        (a - b) as u32
    }
}

/// The successor of a 32-bit counter, wrapped around at 2^32.
pub open spec fn wrapping_next_u32(a: u32) -> u32 {
    if a == u32::MAX {
        0
    } else {
        (a + 1) as u32
    }
}

/// The low 32 bits of a 64-bit number: what is left of a time span when it
/// is stored in a 32-bit field.
pub open spec fn low_32_bits(x: u64) -> u32 {
    (x % 0x1_0000_0000) as u32
}

/// The low 32 bits of a 64-bit number.
pub fn low_32(x: u64) -> (low: u32)
    ensures
        low == low_32_bits(x),
        x <= u32::MAX ==> low == x,
{
    (x % 0x1_0000_0000) as u32
}

/// Health record of one subsystem.
///
/// Once `fault_interlock` is set, no command that needs the subsystem runs
/// until a command to clear the fault has opened the interlock again.
#[derive(Debug, PartialEq, Eq, Clone, Copy)]
pub struct SubsystemState {
    pub id: SubsystemID,
    pub value: u32,
    pub fault: bool,
    pub fault_interlock: bool,
    /// Uptime at which the fault was injected; 0 while no fault stands.
    pub fault_timestamp: u64,
}

/// Record of one sensor: its configuration, which never changes, and its
/// latest value, heartbeat and injected fault.
#[derive(Debug, PartialEq, Eq, Clone, Copy)]
pub struct SensorState {
    pub priority: Priority,
    pub task_id: TaskID,
    /// Period of the sensor task, in milliseconds.
    pub period: u64,
    pub min_data: u32,
    pub max_data: u32,
    pub value: u32,
    /// Uptime at which the sensor task last completed a cycle.
    pub heartbeat: u64,
    /// The fault that was injected and not yet handled.
    pub fault: Option<EventID>,
    /// Uptime at which the fault was injected; 0 while no fault stands.
    pub fault_timestamp: u64,
}

impl SensorState {
    /// The two records are records of one sensor: what is fixed when the
    /// satellite boots is the same in both.
    pub open spec fn same_configuration(self, other: SensorState) -> bool {
        &&& self.priority == other.priority
        &&& self.task_id == other.task_id
        &&& self.period == other.period
        &&& self.min_data == other.min_data
        &&& self.max_data == other.max_data
    }

    /// The value lies in the healthy window of the sensor.
    pub open spec fn spec_has_valid_value(self) -> bool {
        self.min_data <= self.value <= self.max_data
    }

    /// The value in the middle of the healthy window.
    pub open spec fn spec_midpoint(self) -> u32 {
        ((self.min_data + self.max_data) / 2) as u32
    }

    /// Whether the value lies in the healthy window of the sensor.
    pub fn has_valid_value(&self) -> (valid: bool)
        ensures
            valid == self.spec_has_valid_value(),
    {
        self.min_data <= self.value && self.value <= self.max_data
    }

    /// The value in the middle of the healthy window, to which a corrupted
    /// sensor is reset.
    pub fn midpoint(&self) -> (middle: u32)
        ensures
            middle == self.spec_midpoint(),
            middle == (self.min_data + self.max_data) / 2,
    {
        let sum: u64 = self.min_data as u64 + self.max_data as u64;
        (sum / 2) as u32
    }
}

/// Accumulators of the clock synchronisation with the ground.
#[derive(Debug, PartialEq, Eq, Clone, Copy)]
pub struct SyncState {
    pub total_offset_ms: u64,
    pub average_offset_ms: u64,
    pub number_of_sample: u32,
    pub is_calibrated: bool,
}

impl SyncState {
    /// The accumulators after one more offset was absorbed.
    pub open spec fn spec_absorb(self, offset: u64) -> SyncState {
        let total = wrapping_sum_u64(self.total_offset_ms, offset);
        let samples = (self.number_of_sample + 1) as u32;
        SyncState {
            total_offset_ms: total,
            average_offset_ms: total / (samples as u64),
            number_of_sample: samples,
            is_calibrated: self.is_calibrated || samples % 10 == 0,
        }
    }

    /// Absorbs the offset of one synchronisation exchange: adds it to the
    /// total, counts it, and sets the average to the total divided by the
    /// count. Every tenth sample completes a calibration, which the result
    /// tells.
    pub fn absorb(&mut self, offset: u64) -> (completed: bool)
        requires
            old(self).number_of_sample < u32::MAX,
        ensures
            *final(self) == old(self).spec_absorb(offset),
            completed == (final(self).number_of_sample % 10 == 0),
            final(self).average_offset_ms * final(self).number_of_sample
                <= final(self).total_offset_ms,
            final(self).total_offset_ms
                < final(self).average_offset_ms * final(self).number_of_sample
                + final(self).number_of_sample,
    {
        let total: u64 = self.total_offset_ms.wrapping_add(offset);
        let samples: u32 = self.number_of_sample + 1;
        let average: u64 = total / (samples as u64);
        proof {
            lemma_average_times_samples(total, samples);
        }
        let completed: bool = samples % 10 == 0;
        self.total_offset_ms = total;
        self.number_of_sample = samples;
        self.average_offset_ms = average;
        if completed {
            self.is_calibrated = true;
        }
        completed
    }
}

/// The whole-number average of a total over its samples, times the number
/// of samples, falls short of the total by less than one sample.
pub proof fn lemma_average_times_samples(total: u64, samples: u32)
    requires
        samples > 0,
    ensures
        (total / (samples as u64)) * samples <= total,
        total < (total / (samples as u64)) * samples + samples,
{
    let d = samples as int;
    let t = total as int;
    vstd::arithmetic::div_mod::lemma_fundamental_div_mod(t, d);
    vstd::arithmetic::div_mod::lemma_mod_bound(t, d);
    assert(d * (t / d) == (t / d) * d) by (nonlinear_arith);
}

/// After every absorbed offset the average times the number of samples is
/// the total, up to the remainder of the whole-number division.
pub proof fn lemma_absorb_keeps_average(sync: SyncState, offset: u64)
    requires
        sync.number_of_sample < u32::MAX,
    ensures
        sync.spec_absorb(offset).average_offset_ms * sync.spec_absorb(offset).number_of_sample
            <= sync.spec_absorb(offset).total_offset_ms,
        sync.spec_absorb(offset).total_offset_ms < sync.spec_absorb(offset).average_offset_ms
            * sync.spec_absorb(offset).number_of_sample + sync.spec_absorb(
            offset,
        ).number_of_sample,
{
    let after = sync.spec_absorb(offset);
    lemma_average_times_samples(after.total_offset_ms, after.number_of_sample);
}

/// The state of the whole satellite.
#[derive(Debug, PartialEq, Eq, Clone, Copy)]
pub struct SatelliteState {
    /// Cleared once, by a mission abort, and never set again.
    pub is_running: bool,
    pub is_visible: bool,
    pub degraded_mode: bool,
    pub clock_sync: SyncState,
    /// Reading of the monotonic clock at which the satellite booted.
    pub boot_time: u64,
    pub sensors: [SensorState; MAX_SENSORS],
    pub subsystem_health: [SubsystemState; MAX_SUBSYSTEM],
    /// Busy time of all tasks together.
    pub cpu_active_ms: u64,
    /// Fill of the downlink in percent, as the health monitor last measured it.
    pub buffer_fill_rate: u32,
    /// The number that the next transmitted packet gets.
    pub packet_sequence_no: u32,
}

/// The sensor that stands at `index` when the satellite boots.
pub open spec fn initial_sensor(index: int) -> SensorState {
    if index == 0 {
        SensorState {
            priority: Priority::Critical,
            task_id: TaskID::ThermalSensor,
            period: 5,
            min_data: 2500,
            max_data: 5000,
            value: 2500,
            heartbeat: 0,
            fault: None,
            fault_timestamp: 0,
        }
    } else if index == 1 {
        SensorState {
            priority: Priority::Normal,
            task_id: TaskID::PitchAndYawSensor,
            period: 10,
            min_data: 0,
            max_data: 36000,
            value: 18000,
            heartbeat: 0,
            fault: None,
            fault_timestamp: 0,
        }
    } else {
        SensorState {
            priority: Priority::Low,
            task_id: TaskID::MoistureSensor,
            period: 20,
            min_data: 2500,
            max_data: 5000,
            value: 4500,
            heartbeat: 0,
            fault: None,
            fault_timestamp: 0,
        }
    }
}

/// The subsystem that stands at `index` when the satellite boots.
pub open spec fn initial_subsystem(index: int) -> SubsystemState {
    SubsystemState {
        id: if index == 0 {
            SubsystemID::Antenna
        } else {
            SubsystemID::Power
        },
        value: 0,
        fault: false,
        fault_interlock: false,
        fault_timestamp: 0,
    }
}

impl SatelliteState {
    /// The two states are states of one satellite: the configuration of
    /// every sensor, the kind of every subsystem and the boot time are the
    /// same in both.
    pub open spec fn same_configuration(self, other: SatelliteState) -> bool {
        &&& self.boot_time == other.boot_time
        &&& forall|i: int|
            0 <= i < MAX_SENSORS ==> (#[trigger] self.sensors[i]).same_configuration(
                other.sensors[i],
            )
        &&& forall|i: int|
            0 <= i < MAX_SUBSYSTEM ==> (#[trigger] self.subsystem_health[i]).id
                == other.subsystem_health[i].id
    }

    /// The state with the record of the sensor at `index` replaced.
    pub open spec fn with_sensor(self, index: int, sensor: SensorState) -> SatelliteState {
        SatelliteState {
            sensors: vstd::array::spec_array_update(self.sensors, index, sensor),
            ..self
        }
    }

    /// The state with the record of the subsystem at `index` replaced.
    pub open spec fn with_subsystem(self, index: int, subsystem: SubsystemState) -> SatelliteState {
        SatelliteState {
            subsystem_health: vstd::array::spec_array_update(
                self.subsystem_health,
                index,
                subsystem,
            ),
            ..self
        }
    }

    /// Milliseconds since boot at the clock reading `clock_ms`; zero for a
    /// reading from before the boot.
    pub open spec fn spec_uptime_ms(self, clock_ms: u64) -> u64 {
        if clock_ms >= self.boot_time {
            (clock_ms - self.boot_time) as u64
        } else {
            0
        }
    }

    /// The synchronised timestamp fits the clock: adding the average offset
    /// to the uptime does not leave 64 bits.
    pub open spec fn can_stamp(self, uptime_ms: u64) -> bool {
        uptime_ms + self.clock_sync.average_offset_ms <= u64::MAX
    }

    /// The uptime on the clock of the ground: the uptime plus the average
    /// offset that the synchronisation found.
    pub open spec fn spec_synchronized_timestamp(self, uptime_ms: u64) -> u64 {
        (uptime_ms + self.clock_sync.average_offset_ms) as u64
    }

    /// The state of a satellite that boots at the clock reading `boot_time`:
    /// running, invisible, in normal mode, calibrated with no sample taken,
    /// three healthy sensors, two healthy subsystems, all counters at zero.
    pub fn new(boot_time: u64) -> (state: SatelliteState)
        ensures
            state.is_running,
            !state.is_visible,
            !state.degraded_mode,
            state.clock_sync == (SyncState {
                total_offset_ms: 0,
                average_offset_ms: 0,
                number_of_sample: 0,
                is_calibrated: true,
            }),
            state.boot_time == boot_time,
            forall|i: int| 0 <= i < MAX_SENSORS ==> state.sensors[i] == initial_sensor(i),
            state.sensors[0] == initial_sensor(0),
            state.sensors[1] == initial_sensor(1),
            state.sensors[2] == initial_sensor(2),
            forall|i: int|
                0 <= i < MAX_SUBSYSTEM ==> state.subsystem_health[i] == initial_subsystem(i),
            state.subsystem_health[0] == initial_subsystem(0),
            state.subsystem_health[1] == initial_subsystem(1),
            state.cpu_active_ms == 0,
            state.buffer_fill_rate == 0,
            state.packet_sequence_no == 0,
    {
        SatelliteState {
            is_running: true,
            is_visible: false,
            degraded_mode: false,
            clock_sync: SyncState {
                total_offset_ms: 0,
                average_offset_ms: 0,
                number_of_sample: 0,
                is_calibrated: true,
            },
            boot_time,
            sensors: [
                SensorState {
                    priority: Priority::Critical,
                    task_id: TaskID::ThermalSensor,
                    period: 5 * TICK_RATE,
                    min_data: 2500,
                    max_data: 5000,
                    value: 2500,
                    heartbeat: 0,
                    fault: None,
                    fault_timestamp: 0,
                },
                SensorState {
                    priority: Priority::Normal,
                    task_id: TaskID::PitchAndYawSensor,
                    period: 10 * TICK_RATE,
                    min_data: 0,
                    max_data: 36000,
                    value: 18000,
                    heartbeat: 0,
                    fault: None,
                    fault_timestamp: 0,
                },
                SensorState {
                    priority: Priority::Low,
                    task_id: TaskID::MoistureSensor,
                    period: 20 * TICK_RATE,
                    min_data: 2500,
                    max_data: 5000,
                    value: 4500,
                    heartbeat: 0,
                    fault: None,
                    fault_timestamp: 0,
                },
            ],
            subsystem_health: [
                SubsystemState {
                    id: SubsystemID::Antenna,
                    value: 0,
                    fault: false,
                    fault_interlock: false,
                    fault_timestamp: 0,
                },
                SubsystemState {
                    id: SubsystemID::Power,
                    value: 0,
                    fault: false,
                    fault_interlock: false,
                    fault_timestamp: 0,
                },
            ],
            cpu_active_ms: 0,
            buffer_fill_rate: 0,
            packet_sequence_no: 0,
        }
    }

    /// Milliseconds since boot at the clock reading `clock_ms`; zero for a
    /// reading from before the boot.
    pub fn uptime_ms(&self, clock_ms: u64) -> (uptime: u64)
        ensures
            uptime == self.spec_uptime_ms(clock_ms),
            clock_ms >= self.boot_time ==> uptime == clock_ms - self.boot_time,
    {
        if clock_ms >= self.boot_time {
            clock_ms - self.boot_time
        } else {
            0
        }
    }

    /// The uptime on the clock of the ground: `uptime_ms` plus the average
    /// offset that the synchronisation found.
    pub fn get_synchronized_timestamp(&self, uptime_ms: u64) -> (stamp: u64)
        requires
            self.can_stamp(uptime_ms),
        ensures
            stamp == uptime_ms + self.clock_sync.average_offset_ms,
            stamp == self.spec_synchronized_timestamp(uptime_ms),
    {
        uptime_ms + self.clock_sync.average_offset_ms
    }

    /// Whether `get_synchronized_timestamp` can be asked at `uptime_ms`.
    pub fn stamp_fits(&self, uptime_ms: u64) -> (fits: bool)
        ensures
            fits == self.can_stamp(uptime_ms),
    {
        self.clock_sync.average_offset_ms <= u64::MAX - uptime_ms
    }

    /// Adds the time that a task was busy to the busy time of the system.
    pub fn account_active(&mut self, elapsed_ms: u64)
        ensures
            *final(self) == (SatelliteState {
                cpu_active_ms: wrapping_sum_u64(old(self).cpu_active_ms, elapsed_ms),
                ..*old(self)
            }),
    {
        self.cpu_active_ms = self.cpu_active_ms.wrapping_add(elapsed_ms);
    }

    /// Hands out the number for the next packet and moves the counter on.
    ///
    /// Below the last 32-bit number the counter grows by one, so that every
    /// number handed out is greater than the one before.
    pub fn take_sequence_no(&mut self) -> (number: u32)
        ensures
            number == old(self).packet_sequence_no,
            *final(self) == (SatelliteState {
                packet_sequence_no: wrapping_next_u32(old(self).packet_sequence_no),
                ..*old(self)
            }),
            number < u32::MAX ==> final(self).packet_sequence_no == number + 1,
    {
        let number: u32 = self.packet_sequence_no;
        self.packet_sequence_no = number.wrapping_add(1);
        number
    }
}

} // verus!
