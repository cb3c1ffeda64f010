//! Constants fixed at build time.

use vstd::prelude::*;

verus! {

/// Length of one scheduler tick, in milliseconds.
pub const TICK_RATE: u64 = 1;

/// Capacity of the downlink and of the uplink queue.
pub const DATA_BUFFER_CAPACITY: usize = 100;

/// Capacity of the log channel.
pub const LOG_BUFFER_CAPACITY: usize = 100;

/// Number of slots in the ring of recently transmitted packets.
pub const PACKET_HISTORY_BUFFER_CAPACITY: usize = 100;

/// Fill percentage of the downlink at which normal mode turns degraded.
pub const NORMAL_TO_DEGRADED_THRESHOLD: u32 = 80;

/// Fill percentage of the downlink under which degraded mode turns normal.
pub const DEGRADED_TO_NORMAL_THRESHOLD: u32 = 80;

/// Number of sensors.
pub const MAX_SENSORS: usize = 3;

/// Number of subsystems.
pub const MAX_SUBSYSTEM: usize = 2;

/// Period of subsystem fault injection.
pub const SUBSYSTEM_FAULT_INJECTION_MS: u64 = 60 * TICK_RATE;

/// Period of sensor fault injection.
pub const SENSOR_FAULT_INJECTION_MS: u64 = 60 * TICK_RATE;

/// How long a sensor task stalls while a task fault is injected.
pub const SENSOR_FAULT_MS: u64 = 10 * TICK_RATE;

/// How long an injected start or completion delay lasts.
pub const SENSOR_DELAY_MS: u64 = 2 * TICK_RATE;

/// Sensor value written by an injected data corruption; no sensor range holds it.
pub const SENSOR_DATA_CORRUPTION: u32 = 99999;

/// Period of the health monitor.
pub const MONITOR_MS: u64 = 5 * TICK_RATE;

/// Pause of the command executor between two attempts.
pub const COMMAND_MS: u64 = 5 * TICK_RATE;

/// Polling interval of the network task.
pub const NETWORK_MS: u64 = 2 * TICK_RATE;

/// Polling interval of the main task.
pub const MAIN_MS: u64 = 1000 * TICK_RATE;

/// Age beyond which a fault that is still standing aborts the mission.
pub const FAULT_RECOVERY_MS: u64 = 100 * TICK_RATE;

/// Scheduling priority of the network task.
pub const NETWORK_PRIORITY: u8 = 5;

/// Scheduling priority of the health monitor.
pub const MONITOR_PRIORITY: u8 = 10;

/// Scheduling priority of the fault and visibility driver.
pub const SIMULATION_PRIORITY: u8 = 1;

/// Scheduling priority of the log consumer.
pub const LOGGING_PRIORITY: u8 = 0;

/// Scheduling priority of the command executor.
pub const COMMAND_PRIORITY: u8 = 4;

/// Number of processor cores that share the work.
pub const NUMBER_OF_CORES: u64 = 8;

/// Deadline of the connection attempt at the start of a visibility window.
pub const INIT_HANDSHAKE_LIMIT_MS: u64 = 5 * TICK_RATE;

/// Length of the visible part of a visibility cycle.
pub const VISIBILITY_WINDOW_LIMIT_MS: u64 = 30 * TICK_RATE;

/// Length of a whole visibility cycle, visible and invisible part together.
pub const VISIBILITY_WINDOW_CYCLE_MS: u64 = 50 * TICK_RATE;

/// Largest payload that fits a frame.
pub const MAX_FRAME_PAYLOAD: usize = 65535;

} // verus!
