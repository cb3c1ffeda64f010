//! The fault and visibility driver of the simulator: on every tick it
//! perturbs the sensors, toggles the visibility of the ground station, and
//! from time to time injects a fault into a sensor and into a subsystem.
//!
//! What a tick does with its random draws is `apply_tick`, which is exact for
//! every draw; `simulation_step` makes the draws and applies them.

use crate::config::{
    MAX_SENSORS, MAX_SUBSYSTEM, SENSOR_DATA_CORRUPTION, SENSOR_FAULT_INJECTION_MS,
    SUBSYSTEM_FAULT_INJECTION_MS, TICK_RATE, VISIBILITY_WINDOW_CYCLE_MS,
    VISIBILITY_WINDOW_LIMIT_MS,
};
use crate::state::{
    initial_sensor, wrapping_difference_u32, wrapping_sum_u32, SatelliteState, SensorState,
    SubsystemState,
};
use crate::task::Directive;
use crate::types::EventID;
use vstd::prelude::*;

verus! {

/// The largest step by which a tick moves the value of a sensor.
pub const MAX_PERTURBATION: u32 = 100;

/// The random step of one sensor in one tick.
#[derive(Debug, PartialEq, Eq, Clone, Copy)]
pub struct Perturbation {
    /// How far the value moves, at most `MAX_PERTURBATION`.
    pub delta: u32,
    /// Whether the value moves up.
    pub upward: bool,
}

/// The random draws of one tick.
#[derive(Debug, PartialEq, Eq, Clone, Copy)]
pub struct TickDraws {
    /// The step of every sensor.
    pub perturbations: [Perturbation; MAX_SENSORS],
    /// The sensor that gets a fault, when the tick injects one.
    pub sensor_pick: usize,
    /// The fault that the sensor gets.
    pub fault_pick: EventID,
    /// The subsystem that gets a fault, when the tick injects one.
    pub subsystem_pick: usize,
}

/// The fault is one of those that the driver injects into a sensor.
pub open spec fn is_injectable(fault: EventID) -> bool {
    fault == EventID::StartDelay || fault == EventID::CompletionDelay || fault
        == EventID::TaskFault || fault == EventID::DataCorruption
}

impl TickDraws {
    /// Every draw lies in the range from which it is drawn.
    pub open spec fn valid(self) -> bool {
        &&& forall|i: int|
            0 <= i < MAX_SENSORS ==> (#[trigger] self.perturbations[i]).delta <= MAX_PERTURBATION
        &&& self.sensor_pick < MAX_SENSORS
        &&& is_injectable(self.fault_pick)
        &&& self.subsystem_pick < MAX_SUBSYSTEM
    }
}

/// The tick at the uptime `now` injects a fault into a sensor.
pub open spec fn injects_sensor_fault(now: u64) -> bool {
    now % SENSOR_FAULT_INJECTION_MS == 0
}

/// The tick at the uptime `now` injects a fault into a subsystem.
pub open spec fn injects_subsystem_fault(now: u64) -> bool {
    now % SUBSYSTEM_FAULT_INJECTION_MS == 0
}

/// The record of a sensor after its value was perturbed: the value moved,
/// wrapping around at 32 bits, and a value outside the healthy window is
/// marked as a data corruption of this moment.
pub open spec fn perturbed_sensor(sensor: SensorState, step: Perturbation, now: u64) -> SensorState {
    let value = if step.upward {
        wrapping_sum_u32(sensor.value, step.delta)
    } else {
        wrapping_difference_u32(sensor.value, step.delta)
    };
    if sensor.min_data <= value <= sensor.max_data {
        SensorState { value, ..sensor }
    } else {
        SensorState {
            value,
            fault: Some(EventID::DataCorruption),
            fault_timestamp: now,
            ..sensor
        }
    }
}

/// The record of a sensor after a fault was injected into it: the fault is
/// stamped with this moment, and a data corruption overwrites the value with
/// the sentinel.
pub open spec fn injected_sensor(sensor: SensorState, fault: EventID, now: u64) -> SensorState {
    SensorState {
        value: if fault == EventID::DataCorruption {
            SENSOR_DATA_CORRUPTION
        } else {
            sensor.value
        },
        fault: Some(fault),
        fault_timestamp: now,
        ..sensor
    }
}

/// The record of the sensor at `index` after a tick.
pub open spec fn sensor_after_tick(
    sensor: SensorState,
    index: int,
    draws: TickDraws,
    now: u64,
) -> SensorState {
    let perturbed = perturbed_sensor(sensor, draws.perturbations[index], now);
    if injects_sensor_fault(now) && index == draws.sensor_pick {
        injected_sensor(perturbed, draws.fault_pick, now)
    } else {
        perturbed
    }
}

/// The record of the subsystem at `index` after a tick: the subsystem that
/// the tick picked has a fault of this moment, and its interlock is set.
pub open spec fn subsystem_after_tick(
    subsystem: SubsystemState,
    index: int,
    draws: TickDraws,
    now: u64,
) -> SubsystemState {
    if injects_subsystem_fault(now) && index == draws.subsystem_pick {
        SubsystemState { fault: true, fault_interlock: true, fault_timestamp: now, ..subsystem }
    } else {
        subsystem
    }
}

/// The visibility after a tick: a cycle of the visibility window begins
/// visible and turns invisible when the window has run out.
pub open spec fn visible_after_tick(visible: bool, now: u64) -> bool {
    if now % VISIBILITY_WINDOW_CYCLE_MS == 0 {
        true
    } else if now % VISIBILITY_WINDOW_CYCLE_MS == VISIBILITY_WINDOW_LIMIT_MS {
        false
    } else {
        visible
    }
}

/// `after` is the state that a tick at the uptime `now` with the draws
/// `draws` makes of the running state `before`.
pub open spec fn is_tick_of(
    before: SatelliteState,
    after: SatelliteState,
    now: u64,
    draws: TickDraws,
) -> bool {
    &&& forall|i: int|
        0 <= i < MAX_SENSORS ==> after.sensors[i] == sensor_after_tick(
            #[trigger] before.sensors[i],
            i,
            draws,
            now,
        )
    &&& forall|i: int|
        0 <= i < MAX_SUBSYSTEM ==> after.subsystem_health[i] == subsystem_after_tick(
            #[trigger] before.subsystem_health[i],
            i,
            draws,
            now,
        )
    &&& after == (SatelliteState {
        is_visible: visible_after_tick(before.is_visible, now),
        sensors: after.sensors,
        subsystem_health: after.subsystem_health,
        ..before
    })
}

/// The sentinel of an injected data corruption lies outside the healthy
/// window of every sensor that the satellite boots with.
pub proof fn lemma_sentinel_is_out_of_range(index: int)
    requires
        0 <= index < MAX_SENSORS,
    ensures
        !injected_sensor(
            initial_sensor(index),
            EventID::DataCorruption,
            0,
        ).spec_has_valid_value(),
{
}

/// Applies one tick of the driver at the uptime `now` with the given draws.
///
/// A driver that finds the satellite stopped is told to stop, and nothing
/// changes. Otherwise the state becomes what `is_tick_of` says, and the
/// driver sleeps for one tick.
pub fn apply_tick(state: &mut SatelliteState, now: u64, draws: &TickDraws) -> (directive: Directive)
    requires
        draws.valid(),
    ensures
        !old(state).is_running ==> directive == Directive::Stop && *final(state) == *old(state),
        old(state).is_running ==> directive == (Directive::Sleep { ms: TICK_RATE }) && is_tick_of(
            *old(state),
            *final(state),
            now,
            *draws,
        ),
        final(state).same_configuration(*old(state)),
        final(state).is_running == old(state).is_running,
{
    if !state.is_running {
        return Directive::Stop;
    }
    let mut i: usize = 0;
    while i < MAX_SENSORS
        invariant
            i <= MAX_SENSORS,
            forall|k: int|
                0 <= k < i ==> state.sensors[k] == perturbed_sensor(
                    #[trigger] old(state).sensors[k],
                    draws.perturbations[k],
                    now,
                ),
            forall|k: int| i <= k < MAX_SENSORS ==> state.sensors[k] == old(state).sensors[k],
            *state == (SatelliteState { sensors: state.sensors, ..*old(state) }),
        decreases MAX_SENSORS - i,
    {
        let step = draws.perturbations[i];
        let value: u32 = if step.upward {
            state.sensors[i].value.wrapping_add(step.delta)
        } else {
            state.sensors[i].value.wrapping_sub(step.delta)
        };
        state.sensors[i].value = value;
        if !state.sensors[i].has_valid_value() {
            state.sensors[i].fault = Some(EventID::DataCorruption);
            state.sensors[i].fault_timestamp = now;
        }
        i = i + 1;
    }
    let phase: u64 = now % VISIBILITY_WINDOW_CYCLE_MS;
    if phase == 0 {
        state.is_visible = true;
    } else if phase == VISIBILITY_WINDOW_LIMIT_MS {
        state.is_visible = false;
    }
    if now % SENSOR_FAULT_INJECTION_MS == 0 {
        let pick = draws.sensor_pick;
        state.sensors[pick].fault = Some(draws.fault_pick);
        if draws.fault_pick == EventID::DataCorruption {
            state.sensors[pick].value = SENSOR_DATA_CORRUPTION;
        }
        state.sensors[pick].fault_timestamp = now;
    }
    if now % SUBSYSTEM_FAULT_INJECTION_MS == 0 {
        let pick = draws.subsystem_pick;
        state.subsystem_health[pick].fault = true;
        state.subsystem_health[pick].fault_interlock = true;
        state.subsystem_health[pick].fault_timestamp = now;
    }
    Directive::Sleep { ms: TICK_RATE }
}

/// Takes one tick of the driver at the uptime `now`: draws what the tick
/// needs and applies it. Whatever was drawn, the state after the tick is
/// the tick of some valid draws.
pub fn simulation_step(state: &mut SatelliteState, now: u64) -> (directive: Directive)
    ensures
        !old(state).is_running ==> directive == Directive::Stop && *final(state) == *old(state),
        old(state).is_running ==> directive == (Directive::Sleep { ms: TICK_RATE }) && exists|
            draws: TickDraws,
        |
            draws.valid() && #[trigger] is_tick_of(*old(state), *final(state), now, draws),
        final(state).same_configuration(*old(state)),
        final(state).is_running == old(state).is_running,
{
    if !state.is_running {
        return Directive::Stop;
    }
    let draws = draw_tick(now);
    apply_tick(state, now, &draws)
}

/// Draws what a tick at the uptime `now` needs: a step for every sensor,
/// and the picks of an injection only when the tick injects.
fn draw_tick(now: u64) -> (draws: TickDraws)
    ensures
        draws.valid(),
        !injects_sensor_fault(now) ==> draws.sensor_pick == 0 && draws.fault_pick
            == EventID::StartDelay,
        !injects_subsystem_fault(now) ==> draws.subsystem_pick == 0,
{
    let still = Perturbation { delta: 0, upward: true };
    let mut perturbations: [Perturbation; MAX_SENSORS] = [still;MAX_SENSORS];
    let mut i: usize = 0;
    while i < MAX_SENSORS
        invariant
            i <= MAX_SENSORS,
            forall|k: int|
                0 <= k < MAX_SENSORS ==> (#[trigger] perturbations[k]).delta <= MAX_PERTURBATION,
        decreases MAX_SENSORS - i,
    {
        let delta = random_in_range(0, MAX_PERTURBATION + 1);
        let upward = random_flag();
        perturbations[i] = Perturbation { delta, upward };
        i = i + 1;
    }
    let mut sensor_pick: usize = 0;
    let mut fault_pick = EventID::StartDelay;
    if now % SENSOR_FAULT_INJECTION_MS == 0 {
        sensor_pick = random_in_range(0, MAX_SENSORS as u32) as usize;
        let code = random_in_range(
            EventID::StartDelay.code() as u32,
            EventID::DataCorruption.code() as u32 + 1,
        );
        match EventID::from_code(code as u16) {
            Some(fault) => {
                fault_pick = fault;
            },
            None => {},
        }
    }
    let mut subsystem_pick: usize = 0;
    if now % SUBSYSTEM_FAULT_INJECTION_MS == 0 {
        subsystem_pick = random_in_range(0, MAX_SUBSYSTEM as u32) as usize;
    }
    TickDraws { perturbations, sensor_pick, fault_pick, subsystem_pick }
}

/// A random number from `low` up to, and without, `high`.
///
/// Calls `rand::Rng::gen_range` on the generator that `rand::thread_rng`
/// gives, with the range `low..high`. The contract claims what the
/// documentation of `gen_range` says: the value lies in the range. An empty
/// range, on which `gen_range` panics, is left out. `thread_rng` panics when
/// the system has no entropy to seed the generator with; no argument decides
/// that.
#[verifier::external_body]
fn random_in_range(low: u32, high: u32) -> (value: u32)
    requires
        low < high,
    ensures
        low <= value < high,
{
    rand::Rng::gen_range(&mut rand::thread_rng(), low..high)
}

/// A random truth value.
///
/// Calls `rand::random` for a `bool`. Nothing is claimed of the value. Like
/// `thread_rng`, on which it draws, it panics when the system has no entropy
/// to seed the generator with.
#[verifier::external_body]
fn random_flag() -> (flag: bool) {
    rand::random()
}

} // verus!
