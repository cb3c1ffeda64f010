//! The words in which the log consumer writes a record: one label for the
//! source, one for the task and one for the event.

use crate::types::{EventID, LogSource, SubsystemID, TaskID};
use vstd::prelude::*;

verus! {

/// The label of a source.
pub open spec fn spec_source_label(source: LogSource) -> Seq<char> {
    match source {
        LogSource::HealthMonitor => "HEALTH"@,
        LogSource::Network => "NETWORK"@,
        LogSource::Sensor => "SENSOR"@,
        LogSource::CommandExecutor => "CMD_EXE"@,
        LogSource::Main => "MAIN"@,
    }
}

/// The label of a task.
pub open spec fn spec_task_label(task: TaskID) -> Seq<char> {
    match task {
        TaskID::RotateAntenna => "Rotate Antenna Command"@,
        TaskID::SetPowerMode => "Set Power Mode Command"@,
        TaskID::ClearSubsystemFault => "Clear Subsystem Fault Command"@,
        TaskID::RequestRetransmit => "Request Retransmit Command"@,
        TaskID::ThermalSensor => "Thermal Sensor"@,
        TaskID::PitchAndYawSensor => "Pitch & Yaw Sensor"@,
        TaskID::MoistureSensor => "Moisture Sensor"@,
        TaskID::GlobalSystem => "Global"@,
        TaskID::NetworkService => "Network Service"@,
        TaskID::NoTask => ""@,
    }
}

/// The label of an event.
pub open spec fn spec_event_label(event: EventID) -> Seq<char> {
    match event {
        EventID::CommandNotFound => "Command Not Found"@,
        EventID::SubsystemFault => "Subsystem Fault Found"@,
        EventID::SubsystemFixed => "Subsystem Fault Fixed"@,
        EventID::CommandCompletion => "Command Completed"@,
        EventID::StartDelay => "Task Scheduling Drift"@,
        EventID::CompletionDelay => "Task Completion Delay"@,
        EventID::TaskFault => "Task Thread Failed"@,
        EventID::DataCorruption => "Data Corrupted"@,
        EventID::TaskCompletion => "Task Completed"@,
        EventID::DegradedMode => "System Status Turned Degraded"@,
        EventID::NormalMode => "System Status Returned to Normal"@,
        EventID::Startup => "Satellite Initialized"@,
        EventID::MissionAbort => "Mission Abort"@,
        EventID::Shutdown => "Shutdown"@,
        EventID::MissedCommunication => "Communication Window Missed"@,
        EventID::DataLoss => "Packet Dropped"@,
        EventID::PacketTooOld => "Packet Too Old"@,
        EventID::SyncStart => "Time Sync Start"@,
        EventID::SyncCompleted => "Time Sync Complete"@,
        EventID::QueuePerformance => "Queue Performance"@,
        EventID::ResourceUtilization => "Resource Utilization"@,
    }
}

/// The label of a subsystem.
pub open spec fn spec_subsystem_label(subsystem: SubsystemID) -> Seq<char> {
    match subsystem {
        SubsystemID::Antenna => "Antenna"@,
        SubsystemID::Power => "Power"@,
    }
}

/// The label under which the log shows a source.
pub fn source_label(source: LogSource) -> (label: &'static str)
    ensures
        label@ == spec_source_label(source),
{
    match source {
        LogSource::HealthMonitor => "HEALTH",
        LogSource::Network => "NETWORK",
        LogSource::Sensor => "SENSOR",
        LogSource::CommandExecutor => "CMD_EXE",
        LogSource::Main => "MAIN",
    }
}

/// The label under which the log shows a task; empty for no task.
pub fn task_label(task: TaskID) -> (label: &'static str)
    ensures
        label@ == spec_task_label(task),
{
    match task {
        TaskID::RotateAntenna => "Rotate Antenna Command",
        TaskID::SetPowerMode => "Set Power Mode Command",
        TaskID::ClearSubsystemFault => "Clear Subsystem Fault Command",
        TaskID::RequestRetransmit => "Request Retransmit Command",
        TaskID::ThermalSensor => "Thermal Sensor",
        TaskID::PitchAndYawSensor => "Pitch & Yaw Sensor",
        TaskID::MoistureSensor => "Moisture Sensor",
        TaskID::GlobalSystem => "Global",
        TaskID::NetworkService => "Network Service",
        TaskID::NoTask => "",
    }
}

/// The label under which the log shows an event.
pub fn event_label(event: EventID) -> (label: &'static str)
    ensures
        label@ == spec_event_label(event),
{
    match event {
        EventID::CommandNotFound => "Command Not Found",
        EventID::SubsystemFault => "Subsystem Fault Found",
        EventID::SubsystemFixed => "Subsystem Fault Fixed",
        EventID::CommandCompletion => "Command Completed",
        EventID::StartDelay => "Task Scheduling Drift",
        EventID::CompletionDelay => "Task Completion Delay",
        EventID::TaskFault => "Task Thread Failed",
        EventID::DataCorruption => "Data Corrupted",
        EventID::TaskCompletion => "Task Completed",
        EventID::DegradedMode => "System Status Turned Degraded",
        EventID::NormalMode => "System Status Returned to Normal",
        EventID::Startup => "Satellite Initialized",
        EventID::MissionAbort => "Mission Abort",
        EventID::Shutdown => "Shutdown",
        EventID::MissedCommunication => "Communication Window Missed",
        EventID::DataLoss => "Packet Dropped",
        EventID::PacketTooOld => "Packet Too Old",
        EventID::SyncStart => "Time Sync Start",
        EventID::SyncCompleted => "Time Sync Complete",
        EventID::QueuePerformance => "Queue Performance",
        EventID::ResourceUtilization => "Resource Utilization",
    }
}

/// The label under which the log shows a subsystem.
pub fn subsystem_label(subsystem: SubsystemID) -> (label: &'static str)
    ensures
        label@ == spec_subsystem_label(subsystem),
{
    match subsystem {
        SubsystemID::Antenna => "Antenna",
        SubsystemID::Power => "Power",
    }
}

} // verus!
