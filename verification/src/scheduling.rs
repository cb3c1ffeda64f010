//! The scheduling priority that the thread of each task asks for, as a
//! number and as the value that the scheduler of the platform takes.

use crate::config::{
    COMMAND_PRIORITY, LOGGING_PRIORITY, MONITOR_PRIORITY, NETWORK_PRIORITY, SIMULATION_PRIORITY,
};
use crate::types::Priority;
use thread_priority::{ThreadPriority, ThreadPriorityValue};
use vstd::prelude::*;

verus! {

/// The priority of a thread as `thread_priority` hands it to the platform.
#[verifier::external_type_specification]
#[verifier::external_body]
pub struct ExThreadPriority(ThreadPriority);

/// The platform-independent priority that `thread_priority` makes of a
/// number: `ThreadPriority::Crossplatform` around the number.
pub uninterp spec fn crossplatform_priority(value: u8) -> ThreadPriority;

/// The highest priority that a thread can ask for on every platform.
pub const MAX_THREAD_PRIORITY: u8 = 99;

/// The tasks of the flight software.
#[derive(Debug, PartialEq, Eq, Clone, Copy, Structural)]
pub enum TaskRole {
    Network,
    Monitor,
    Simulation,
    Logging,
    CommandExecutor,
    /// The task of a sensor of the given class.
    Sensor { priority: Priority },
}

/// The priority of the thread of a task: the configured priority of its
/// role, and for a sensor task the level of the class of its sensor.
pub open spec fn spec_thread_priority(role: TaskRole) -> u8 {
    match role {
        TaskRole::Network => NETWORK_PRIORITY,
        TaskRole::Monitor => MONITOR_PRIORITY,
        TaskRole::Simulation => SIMULATION_PRIORITY,
        TaskRole::Logging => LOGGING_PRIORITY,
        TaskRole::CommandExecutor => COMMAND_PRIORITY,
        TaskRole::Sensor { priority } => priority.spec_level() as u8,
    }
}

/// The priority that the thread of a task asks for. It is one that every
/// platform offers.
pub fn thread_priority(role: TaskRole) -> (value: u8)
    ensures
        value == spec_thread_priority(role),
        value <= MAX_THREAD_PRIORITY,
{
    match role {
        TaskRole::Network => NETWORK_PRIORITY,
        TaskRole::Monitor => MONITOR_PRIORITY,
        TaskRole::Simulation => SIMULATION_PRIORITY,
        TaskRole::Logging => LOGGING_PRIORITY,
        TaskRole::CommandExecutor => COMMAND_PRIORITY,
        TaskRole::Sensor { priority } => priority.level() as u8,
    }
}

/// The priority that the thread of a task hands to the platform: the
/// platform-independent priority of its number.
pub fn task_thread_priority(role: TaskRole) -> (priority: ThreadPriority)
    ensures
        priority == crossplatform_priority(spec_thread_priority(role)),
{
    make_crossplatform(thread_priority(role)).unwrap()
}

/// The platform-independent priority of a number.
///
/// Calls `ThreadPriorityValue::try_from` and wraps the value that comes
/// back in `ThreadPriority::Crossplatform`. The contract claims what the
/// source of `try_from` shows: a number from 0 to 99 is accepted on every
/// platform. Of a greater number nothing is claimed.
#[verifier::external_body]
fn make_crossplatform(value: u8) -> (priority: Option<ThreadPriority>)
    ensures
        value <= MAX_THREAD_PRIORITY ==> priority == Some(crossplatform_priority(value)),
{
    ThreadPriorityValue::try_from(value).ok().map(ThreadPriority::Crossplatform)
}

} // verus!
