//! Identifiers, events, commands and packets exchanged between the tasks.

use vstd::prelude::*;

verus! {

/// The task an event is about.
#[derive(Debug, PartialEq, Eq, Clone, Copy, Structural)]
pub enum TaskID {
    /// No task: what a command resolves to that the executor does not know.
    NoTask,
    RotateAntenna,
    SetPowerMode,
    ClearSubsystemFault,
    RequestRetransmit,
    ThermalSensor,
    PitchAndYawSensor,
    MoistureSensor,
    GlobalSystem,
    NetworkService,
}

impl TaskID {
    /// The number by which ground and satellite know the task.
    pub open spec fn spec_code(self) -> u16 {
        match self {
            TaskID::NoTask => 0,
            TaskID::RotateAntenna => 101,
            TaskID::SetPowerMode => 102,
            TaskID::ClearSubsystemFault => 103,
            TaskID::RequestRetransmit => 104,
            TaskID::ThermalSensor => 201,
            TaskID::PitchAndYawSensor => 202,
            TaskID::MoistureSensor => 203,
            TaskID::GlobalSystem => 300,
            TaskID::NetworkService => 301,
        }
    }

    /// The number by which ground and satellite know the task.
    pub fn code(&self) -> (code: u16)
        ensures
            code == self.spec_code(),
    {
        match self {
            TaskID::NoTask => 0,
            TaskID::RotateAntenna => 101,
            TaskID::SetPowerMode => 102,
            TaskID::ClearSubsystemFault => 103,
            TaskID::RequestRetransmit => 104,
            TaskID::ThermalSensor => 201,
            TaskID::PitchAndYawSensor => 202,
            TaskID::MoistureSensor => 203,
            TaskID::GlobalSystem => 300,
            TaskID::NetworkService => 301,
        }
    }
}

/// What happened.
#[derive(Debug, PartialEq, Eq, Clone, Copy, Structural)]
pub enum EventID {
    CommandNotFound,
    SubsystemFault,
    SubsystemFixed,
    CommandCompletion,
    StartDelay,
    CompletionDelay,
    TaskFault,
    DataCorruption,
    TaskCompletion,
    DegradedMode,
    NormalMode,
    Startup,
    MissionAbort,
    Shutdown,
    MissedCommunication,
    DataLoss,
    PacketTooOld,
    SyncStart,
    SyncCompleted,
    QueuePerformance,
    ResourceUtilization,
}

impl EventID {
    /// The number by which ground and satellite know the event.
    pub open spec fn spec_code(self) -> u16 {
        match self {
            EventID::CommandNotFound => 101,
            EventID::SubsystemFault => 102,
            EventID::SubsystemFixed => 103,
            EventID::CommandCompletion => 104,
            EventID::StartDelay => 201,
            EventID::CompletionDelay => 202,
            EventID::TaskFault => 203,
            EventID::DataCorruption => 204,
            EventID::TaskCompletion => 205,
            EventID::DegradedMode => 301,
            EventID::NormalMode => 302,
            EventID::Startup => 303,
            EventID::MissionAbort => 304,
            EventID::Shutdown => 305,
            EventID::MissedCommunication => 401,
            EventID::DataLoss => 402,
            EventID::PacketTooOld => 403,
            EventID::SyncStart => 404,
            EventID::SyncCompleted => 405,
            EventID::QueuePerformance => 501,
            EventID::ResourceUtilization => 502,
        }
    }

    /// The event that a number stands for, if it stands for one.
    pub open spec fn spec_from_code(code: u16) -> Option<EventID> {
        if code == 101 {
            Some(EventID::CommandNotFound)
        } else if code == 102 {
            Some(EventID::SubsystemFault)
        } else if code == 103 {
            Some(EventID::SubsystemFixed)
        } else if code == 104 {
            Some(EventID::CommandCompletion)
        } else if code == 201 {
            Some(EventID::StartDelay)
        } else if code == 202 {
            Some(EventID::CompletionDelay)
        } else if code == 203 {
            Some(EventID::TaskFault)
        } else if code == 204 {
            Some(EventID::DataCorruption)
        } else if code == 205 {
            Some(EventID::TaskCompletion)
        } else if code == 301 {
            Some(EventID::DegradedMode)
        } else if code == 302 {
            Some(EventID::NormalMode)
        } else if code == 303 {
            Some(EventID::Startup)
        } else if code == 304 {
            Some(EventID::MissionAbort)
        } else if code == 305 {
            Some(EventID::Shutdown)
        } else if code == 401 {
            Some(EventID::MissedCommunication)
        } else if code == 402 {
            Some(EventID::DataLoss)
        } else if code == 403 {
            Some(EventID::PacketTooOld)
        } else if code == 404 {
            Some(EventID::SyncStart)
        } else if code == 405 {
            Some(EventID::SyncCompleted)
        } else if code == 501 {
            Some(EventID::QueuePerformance)
        } else if code == 502 {
            Some(EventID::ResourceUtilization)
        } else {
            None
        }
    }

    /// The number by which ground and satellite know the event. The event
    /// is found again from its number.
    pub fn code(&self) -> (code: u16)
        ensures
            code == self.spec_code(),
            Self::spec_from_code(code) == Some(*self),
    {
        match self {
            EventID::CommandNotFound => 101,
            EventID::SubsystemFault => 102,
            EventID::SubsystemFixed => 103,
            EventID::CommandCompletion => 104,
            EventID::StartDelay => 201,
            EventID::CompletionDelay => 202,
            EventID::TaskFault => 203,
            EventID::DataCorruption => 204,
            EventID::TaskCompletion => 205,
            EventID::DegradedMode => 301,
            EventID::NormalMode => 302,
            EventID::Startup => 303,
            EventID::MissionAbort => 304,
            EventID::Shutdown => 305,
            EventID::MissedCommunication => 401,
            EventID::DataLoss => 402,
            EventID::PacketTooOld => 403,
            EventID::SyncStart => 404,
            EventID::SyncCompleted => 405,
            EventID::QueuePerformance => 501,
            EventID::ResourceUtilization => 502,
        }
    }

    /// The event that a number stands for; `None` for a number of no event.
    pub fn from_code(code: u16) -> (event: Option<EventID>)
        ensures
            event == Self::spec_from_code(code),
            event matches Some(e) ==> e.spec_code() == code,
    {
        if code == 101 {
            Some(EventID::CommandNotFound)
        } else if code == 102 {
            Some(EventID::SubsystemFault)
        } else if code == 103 {
            Some(EventID::SubsystemFixed)
        } else if code == 104 {
            Some(EventID::CommandCompletion)
        } else if code == 201 {
            Some(EventID::StartDelay)
        } else if code == 202 {
            Some(EventID::CompletionDelay)
        } else if code == 203 {
            Some(EventID::TaskFault)
        } else if code == 204 {
            Some(EventID::DataCorruption)
        } else if code == 205 {
            Some(EventID::TaskCompletion)
        } else if code == 301 {
            Some(EventID::DegradedMode)
        } else if code == 302 {
            Some(EventID::NormalMode)
        } else if code == 303 {
            Some(EventID::Startup)
        } else if code == 304 {
            Some(EventID::MissionAbort)
        } else if code == 305 {
            Some(EventID::Shutdown)
        } else if code == 401 {
            Some(EventID::MissedCommunication)
        } else if code == 402 {
            Some(EventID::DataLoss)
        } else if code == 403 {
            Some(EventID::PacketTooOld)
        } else if code == 404 {
            Some(EventID::SyncStart)
        } else if code == 405 {
            Some(EventID::SyncCompleted)
        } else if code == 501 {
            Some(EventID::QueuePerformance)
        } else if code == 502 {
            Some(EventID::ResourceUtilization)
        } else {
            None
        }
    }
}

/// Queue metrics of the downlink, as the network task last measured them.
#[derive(Debug, PartialEq, Eq, Clone, Copy, Structural)]
pub struct Metrics {
    pub last_latency_ms: u32,
    pub jitter_ms: u32,
}

/// The data that comes with an event.
#[derive(Debug, PartialEq, Eq, Clone, Copy, Structural)]
pub enum EventData {
    /// The event comes with no data.
    NoData,
    QueuePerformance { latency_ms: u32, jitter_ms: u32, buffer_fill_rate: u32 },
    SchedulingDrift { drift_ms: u32 },
    Hardware { value: u32 },
    SubsystemFault { subsystem_id: SubsystemID },
    SystemStats { active_ms: u64, inactive_ms: u64 },
    FaultRecovery { recovery_time: u32 },
    TimeSync { offset: u64 },
}

/// One event of one task, stamped with the uptime at which it happened.
#[derive(Debug, PartialEq, Eq, Clone, Copy, Structural)]
pub struct Event {
    pub task_id: TaskID,
    pub event_id: EventID,
    pub data: EventData,
    pub timestamp: u64,
}

/// The subsystems that ground commands act on.
#[derive(Debug, PartialEq, Eq, Clone, Copy, Structural)]
pub enum SubsystemID {
    Antenna,
    Power,
}

impl SubsystemID {
    /// Where the subsystem's record stands among the subsystem records.
    pub open spec fn spec_index(self) -> usize {
        match self {
            SubsystemID::Antenna => 0,
            SubsystemID::Power => 1,
        }
    }

    /// Where the subsystem's record stands among the subsystem records.
    pub fn index(&self) -> (index: usize)
        ensures
            index == self.spec_index(),
            index < crate::config::MAX_SUBSYSTEM,
    {
        match self {
            SubsystemID::Antenna => 0,
            SubsystemID::Power => 1,
        }
    }
}

/// Priority class of a packet and of a sensor task.
#[derive(Debug, PartialEq, Eq, Clone, Copy, Structural)]
pub enum Priority {
    Low,
    Normal,
    Critical,
}

impl Priority {
    /// The class as a number: a higher class has a higher number.
    pub open spec fn spec_level(self) -> u16 {
        match self {
            Priority::Low => 0,
            Priority::Normal => 3,
            Priority::Critical => 9,
        }
    }

    /// The class as a number: a higher class has a higher number.
    pub fn level(&self) -> (level: u16)
        ensures
            level == self.spec_level(),
    {
        match self {
            Priority::Low => 0,
            Priority::Normal => 3,
            Priority::Critical => 9,
        }
    }
}

/// The component that wrote a log record.
#[derive(Debug, PartialEq, Eq, Clone, Copy, Structural)]
pub enum LogSource {
    HealthMonitor,
    Network,
    Sensor,
    CommandExecutor,
    Main,
}

impl LogSource {
    /// The component as a number.
    pub open spec fn spec_code(self) -> u8 {
        match self {
            LogSource::HealthMonitor => 1,
            LogSource::Network => 2,
            LogSource::Sensor => 3,
            LogSource::CommandExecutor => 4,
            LogSource::Main => 5,
        }
    }

    /// The component as a number.
    pub fn code(&self) -> (code: u8)
        ensures
            code == self.spec_code(),
    {
        match self {
            LogSource::HealthMonitor => 1,
            LogSource::Network => 2,
            LogSource::Sensor => 3,
            LogSource::CommandExecutor => 4,
            LogSource::Main => 5,
        }
    }
}

/// One record for the log consumer.
#[derive(Debug, PartialEq, Eq, Clone, Copy, Structural)]
pub struct Log {
    pub source: LogSource,
    pub event: Event,
}

/// A command from the ground.
#[derive(Debug, PartialEq, Eq, Clone, Copy, Structural)]
pub enum Command {
    RotateAntenna { target_angle: u16 },
    SetPowerMode { mode: u8 },
    ClearSubsystemFault { subsystem_id: SubsystemID },
    RequestRetransmit { sequence_no: u32 },
}

impl Command {
    /// The subsystem whose interlock must be open for the command to run.
    pub open spec fn spec_required_health(self) -> Option<SubsystemID> {
        match self {
            Command::RotateAntenna { .. } => Some(SubsystemID::Antenna),
            Command::SetPowerMode { .. } => Some(SubsystemID::Power),
            Command::ClearSubsystemFault { .. } => None,
            Command::RequestRetransmit { .. } => None,
        }
    }

    /// The subsystem whose interlock must be open for the command to run:
    /// the antenna for a rotation, the power subsystem for a power mode, none
    /// for the two commands that act on no subsystem.
    pub fn required_health(&self) -> (subsystem: Option<SubsystemID>)
        ensures
            subsystem == self.spec_required_health(),
    {
        match self {
            Command::RotateAntenna { .. } => Some(SubsystemID::Antenna),
            Command::SetPowerMode { .. } => Some(SubsystemID::Power),
            Command::ClearSubsystemFault { .. } => None,
            Command::RequestRetransmit { .. } => None,
        }
    }
}

/// What a packet carries.
#[derive(Debug, PartialEq, Eq, Clone, Copy, Structural)]
pub enum SatelliteMessage {
    SyncRequest,
    SyncResponse { ground_sent: u64, satellite_receive: u64 },
    SyncResult { offset: u64 },
    Command { command: Command, sent_at: u64 },
    Telemetry { event: Event },
}

/// One packet of the downlink or of the uplink.
#[derive(Debug, PartialEq, Eq, Clone, Copy, Structural)]
pub struct TelemetryPacket {
    pub priority: Priority,
    pub creation_time: u64,
    pub payload: SatelliteMessage,
    pub sequence_no: u32,
}

impl TelemetryPacket {
    /// A queue may serve `self` before `other`: `self` is of a higher class,
    /// or of the same class and not younger.
    pub open spec fn spec_precedes(self, other: TelemetryPacket) -> bool {
        self.priority.spec_level() > other.priority.spec_level() || (self.priority
            == other.priority && self.creation_time <= other.creation_time)
    }

    /// `self` is of a strictly higher class than `other`.
    pub open spec fn spec_outranks(self, other: TelemetryPacket) -> bool {
        self.priority.spec_level() > other.priority.spec_level()
    }

    /// A telemetry packet about one event, not yet numbered for transmission.
    pub open spec fn spec_telemetry(
        priority: Priority,
        creation_time: u64,
        event: Event,
    ) -> TelemetryPacket {
        TelemetryPacket {
            priority,
            creation_time,
            payload: SatelliteMessage::Telemetry { event },
            sequence_no: 0,
        }
    }

    /// Whether a queue may serve `self` before `other`: higher class first,
    /// and within a class the older packet first.
    pub fn precedes(&self, other: &TelemetryPacket) -> (before: bool)
        ensures
            before == self.spec_precedes(*other),
    {
        let mine: u16 = self.priority.level();
        let theirs: u16 = other.priority.level();
        mine > theirs || (mine == theirs && self.creation_time <= other.creation_time)
    }

    /// Whether `self` is of a strictly higher class than `other`.
    pub fn outranks(&self, other: &TelemetryPacket) -> (higher: bool)
        ensures
            higher == self.spec_outranks(*other),
    {
        self.priority.level() > other.priority.level()
    }

    /// A telemetry packet about one event, not yet numbered for transmission.
    pub fn telemetry(priority: Priority, creation_time: u64, event: Event) -> (packet:
        TelemetryPacket)
        ensures
            packet == Self::spec_telemetry(priority, creation_time, event),
    {
        TelemetryPacket {
            priority,
            creation_time,
            payload: SatelliteMessage::Telemetry { event },
            sequence_no: 0,
        }
    }
}

} // verus!
