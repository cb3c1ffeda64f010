use satellite_core::logging::{event_label, source_label, subsystem_label, task_label};
use satellite_core::scheduling::{
    task_thread_priority, thread_priority, TaskRole, MAX_THREAD_PRIORITY,
};
use thread_priority::{ThreadPriority, ThreadPriorityValue};
use satellite_core::types::{
    Command, Event, EventData, EventID, LogSource, Priority, SatelliteMessage, SubsystemID, TaskID,
    TelemetryPacket,
};

const ALL_EVENTS: [EventID; 21] = [
    EventID::CommandNotFound,
    EventID::SubsystemFault,
    EventID::SubsystemFixed,
    EventID::CommandCompletion,
    EventID::StartDelay,
    EventID::CompletionDelay,
    EventID::TaskFault,
    EventID::DataCorruption,
    EventID::TaskCompletion,
    EventID::DegradedMode,
    EventID::NormalMode,
    EventID::Startup,
    EventID::MissionAbort,
    EventID::Shutdown,
    EventID::MissedCommunication,
    EventID::DataLoss,
    EventID::PacketTooOld,
    EventID::SyncStart,
    EventID::SyncCompleted,
    EventID::QueuePerformance,
    EventID::ResourceUtilization,
];

#[test]
fn required_health_names_the_subsystem_of_each_command() {
    assert_eq!(
        Command::RotateAntenna { target_angle: 90 }.required_health(),
        Some(SubsystemID::Antenna)
    );
    assert_eq!(Command::SetPowerMode { mode: 1 }.required_health(), Some(SubsystemID::Power));
    assert_eq!(
        Command::ClearSubsystemFault { subsystem_id: SubsystemID::Antenna }.required_health(),
        None
    );
    assert_eq!(Command::RequestRetransmit { sequence_no: 3 }.required_health(), None);
}

#[test]
fn event_codes_are_the_agreed_numbers() {
    let codes: Vec<u16> = ALL_EVENTS.iter().map(|e| e.code()).collect();
    assert_eq!(
        codes,
        vec![
            101, 102, 103, 104, 201, 202, 203, 204, 205, 301, 302, 303, 304, 305, 401, 402, 403,
            404, 405, 501, 502
        ]
    );
}

#[test]
fn every_event_is_found_again_from_its_code() {
    for event in ALL_EVENTS {
        assert_eq!(EventID::from_code(event.code()), Some(event));
    }
}

#[test]
fn a_code_of_no_event_is_not_an_event() {
    for code in [0u16, 1, 100, 105, 200, 206, 300, 306, 400, 406, 500, 503, 65535] {
        assert_eq!(EventID::from_code(code), None);
    }
}

#[test]
fn task_codes_are_the_agreed_numbers() {
    assert_eq!(TaskID::NoTask.code(), 0);
    assert_eq!(TaskID::RotateAntenna.code(), 101);
    assert_eq!(TaskID::SetPowerMode.code(), 102);
    assert_eq!(TaskID::ClearSubsystemFault.code(), 103);
    assert_eq!(TaskID::RequestRetransmit.code(), 104);
    assert_eq!(TaskID::ThermalSensor.code(), 201);
    assert_eq!(TaskID::PitchAndYawSensor.code(), 202);
    assert_eq!(TaskID::MoistureSensor.code(), 203);
    assert_eq!(TaskID::GlobalSystem.code(), 300);
    assert_eq!(TaskID::NetworkService.code(), 301);
}

#[test]
fn priority_levels_and_indices() {
    assert_eq!(Priority::Low.level(), 0);
    assert_eq!(Priority::Normal.level(), 3);
    assert_eq!(Priority::Critical.level(), 9);
    assert_eq!(SubsystemID::Antenna.index(), 0);
    assert_eq!(SubsystemID::Power.index(), 1);
    assert_eq!(LogSource::HealthMonitor.code(), 1);
    assert_eq!(LogSource::Network.code(), 2);
    assert_eq!(LogSource::Sensor.code(), 3);
    assert_eq!(LogSource::CommandExecutor.code(), 4);
    assert_eq!(LogSource::Main.code(), 5);
}

fn bare(priority: Priority, creation_time: u64) -> TelemetryPacket {
    TelemetryPacket { priority, creation_time, payload: SatelliteMessage::SyncRequest, sequence_no: 0 }
}

#[test]
fn precedes_orders_by_priority_then_by_age() {
    assert!(bare(Priority::Critical, 9).precedes(&bare(Priority::Normal, 1)));
    assert!(!bare(Priority::Normal, 1).precedes(&bare(Priority::Critical, 9)));
    assert!(bare(Priority::Normal, 1).precedes(&bare(Priority::Normal, 2)));
    assert!(!bare(Priority::Normal, 2).precedes(&bare(Priority::Normal, 1)));
    assert!(bare(Priority::Low, 4).precedes(&bare(Priority::Low, 4)));
}

#[test]
fn outranks_looks_at_the_priority_alone() {
    assert!(bare(Priority::Normal, 9).outranks(&bare(Priority::Low, 1)));
    assert!(!bare(Priority::Low, 1).outranks(&bare(Priority::Low, 9)));
    assert!(!bare(Priority::Low, 9).outranks(&bare(Priority::Low, 1)));
    assert!(!bare(Priority::Normal, 1).outranks(&bare(Priority::Critical, 1)));
}

#[test]
fn telemetry_builds_an_unnumbered_packet() {
    let event = Event {
        task_id: TaskID::GlobalSystem,
        event_id: EventID::Startup,
        data: EventData::NoData,
        timestamp: 3,
    };
    assert_eq!(
        TelemetryPacket::telemetry(Priority::Normal, 8, event),
        TelemetryPacket {
            priority: Priority::Normal,
            creation_time: 8,
            payload: SatelliteMessage::Telemetry { event },
            sequence_no: 0,
        }
    );
}

#[test]
fn labels_of_the_log() {
    assert_eq!(source_label(LogSource::HealthMonitor), "HEALTH");
    assert_eq!(source_label(LogSource::Network), "NETWORK");
    assert_eq!(source_label(LogSource::Sensor), "SENSOR");
    assert_eq!(source_label(LogSource::CommandExecutor), "CMD_EXE");
    assert_eq!(source_label(LogSource::Main), "MAIN");
    assert_eq!(task_label(TaskID::PitchAndYawSensor), "Pitch & Yaw Sensor");
    assert_eq!(task_label(TaskID::GlobalSystem), "Global");
    assert_eq!(task_label(TaskID::NoTask), "");
    assert_eq!(task_label(TaskID::ClearSubsystemFault), "Clear Subsystem Fault Command");
    assert_eq!(event_label(EventID::StartDelay), "Task Scheduling Drift");
    assert_eq!(event_label(EventID::TaskFault), "Task Thread Failed");
    assert_eq!(event_label(EventID::DataLoss), "Packet Dropped");
    assert_eq!(event_label(EventID::NormalMode), "System Status Returned to Normal");
    assert_eq!(event_label(EventID::MissionAbort), "Mission Abort");
    assert_eq!(subsystem_label(SubsystemID::Antenna), "Antenna");
    assert_eq!(subsystem_label(SubsystemID::Power), "Power");
}

#[test]
fn every_event_has_a_label() {
    for event in ALL_EVENTS {
        assert!(!event_label(event).is_empty());
    }
}

#[test]
fn thread_priorities_of_the_tasks() {
    assert_eq!(thread_priority(TaskRole::Network), 5);
    assert_eq!(thread_priority(TaskRole::Monitor), 10);
    assert_eq!(thread_priority(TaskRole::Simulation), 1);
    assert_eq!(thread_priority(TaskRole::Logging), 0);
    assert_eq!(thread_priority(TaskRole::CommandExecutor), 4);
    assert_eq!(thread_priority(TaskRole::Sensor { priority: Priority::Low }), 0);
    assert_eq!(thread_priority(TaskRole::Sensor { priority: Priority::Normal }), 3);
    assert_eq!(thread_priority(TaskRole::Sensor { priority: Priority::Critical }), 9);
    assert_eq!(MAX_THREAD_PRIORITY, 99);
}

#[test]
fn thread_priorities_as_the_platform_takes_them() {
    let crossplatform =
        |value: u8| ThreadPriority::Crossplatform(ThreadPriorityValue::try_from(value).unwrap());
    assert_eq!(task_thread_priority(TaskRole::Monitor), crossplatform(10));
    assert_eq!(task_thread_priority(TaskRole::Network), crossplatform(5));
    assert_eq!(task_thread_priority(TaskRole::Logging), crossplatform(0));
    assert_eq!(
        task_thread_priority(TaskRole::Sensor { priority: Priority::Critical }),
        crossplatform(9)
    );
    assert_ne!(task_thread_priority(TaskRole::Simulation), crossplatform(4));
    assert_eq!(task_thread_priority(TaskRole::CommandExecutor), crossplatform(4));
}
