//! The command executor: ground commands from the uplink, guarded by the
//! interlocks of the subsystems they act on.

use crate::buffer::{spec_emit_all, spec_pop, BoundedBuffer, Output};
use crate::config::{COMMAND_MS, MAX_SUBSYSTEM};
use crate::state::{SatelliteState, SubsystemState};
use crate::task::Directive;
use crate::types::{
    Command, EventData, EventID, Log, LogSource, SatelliteMessage, SubsystemID, TaskID,
    TelemetryPacket,
};
use vstd::prelude::*;

verus! {

/// The task that carries out a command; no task for a command that the
/// executor does not carry out itself.
pub open spec fn command_task(command: Command) -> TaskID {
    match command {
        Command::RotateAntenna { .. } => TaskID::RotateAntenna,
        Command::SetPowerMode { .. } => TaskID::SetPowerMode,
        Command::ClearSubsystemFault { .. } => TaskID::ClearSubsystemFault,
        Command::RequestRetransmit { .. } => TaskID::NoTask,
    }
}

/// The record of the subsystem at `index` after a command was carried out.
///
/// A rotation stores its angle in the antenna, a power mode is stored in the
/// power subsystem, and a command to clear a fault opens the interlock of
/// every subsystem of the given kind on which a fault stands.
pub open spec fn subsystem_after(
    command: Command,
    subsystem: SubsystemState,
    index: int,
) -> SubsystemState {
    match command {
        Command::RotateAntenna { target_angle } => if index == SubsystemID::Antenna.spec_index() {
            SubsystemState { value: target_angle as u32, ..subsystem }
        } else {
            subsystem
        },
        Command::SetPowerMode { mode } => if index == SubsystemID::Power.spec_index() {
            SubsystemState { value: mode as u32, ..subsystem }
        } else {
            subsystem
        },
        Command::ClearSubsystemFault { subsystem_id } => if subsystem.id == subsystem_id
            && subsystem.fault {
            SubsystemState { fault_interlock: false, ..subsystem }
        } else {
            subsystem
        },
        Command::RequestRetransmit { .. } => subsystem,
    }
}

/// What the executor hands over for a command: its completion in the name
/// of the task that carried it out, or that the command was not found.
pub open spec fn command_outputs(command: Command, now: u64, stamp: u64) -> Seq<Output> {
    if command_task(command) == TaskID::NoTask {
        seq![
            Output::spec_critical(
                stamp,
                TaskID::GlobalSystem,
                EventID::CommandNotFound,
                EventData::NoData,
                now,
            ),
        ]
    } else {
        seq![
            Output::spec_critical(
                stamp,
                command_task(command),
                EventID::CommandCompletion,
                EventData::NoData,
                now,
            ),
        ]
    }
}

/// The interlock of the subsystem that the command needs is set.
pub open spec fn is_interlocked(command: Command, state: SatelliteState) -> bool {
    match command.spec_required_health() {
        Some(subsystem) => state.subsystem_health[subsystem.spec_index() as int].fault_interlock,
        None => false,
    }
}

/// Whether the interlock of the subsystem that the command needs is set.
pub fn check_interlock(command: &Command, state: &SatelliteState) -> (interlocked: bool)
    ensures
        interlocked == is_interlocked(*command, *state),
{
    match command.required_health() {
        Some(subsystem) => state.subsystem_health[subsystem.index()].fault_interlock,
        None => false,
    }
}

/// No command sets an interlock, and only a command to clear a fault opens
/// one.
pub proof fn lemma_only_clear_command_opens_interlock(
    command: Command,
    subsystem: SubsystemState,
    index: int,
)
    ensures
        subsystem_after(command, subsystem, index).fault_interlock ==> subsystem.fault_interlock,
        subsystem_after(command, subsystem, index).fault_interlock != subsystem.fault_interlock
            ==> command is ClearSubsystemFault,
        subsystem_after(command, subsystem, index).id == subsystem.id,
        subsystem_after(command, subsystem, index).fault == subsystem.fault,
{
}

/// Carries out one command at the uptime `now` and hands its completion
/// over to the downlink; a request for retransmission, which is the
/// business of the network task, is answered as a command not found.
pub fn execute_instruction(
    command: Command,
    state: &mut SatelliteState,
    downlink: &mut BoundedBuffer,
    now: u64,
) -> (logs: Vec<Log>)
    requires
        old(state).can_stamp(now),
        old(downlink).wf(),
    ensures
        final(downlink).wf(),
        final(downlink).spec_capacity() == old(downlink).spec_capacity(),
        final(downlink).spec_metrics() == old(downlink).spec_metrics(),
        forall|i: int|
            0 <= i < MAX_SUBSYSTEM ==> final(state).subsystem_health[i] == subsystem_after(
                command,
                #[trigger] old(state).subsystem_health[i],
                i,
            ),
        *final(state) == (SatelliteState {
            subsystem_health: final(state).subsystem_health,
            ..*old(state)
        }),
        (final(downlink)@, logs@) == spec_emit_all(
            old(downlink)@,
            old(downlink).spec_capacity() as nat,
            LogSource::CommandExecutor,
            command_outputs(command, now, old(state).spec_synchronized_timestamp(now)),
            now,
            old(state).spec_synchronized_timestamp(now),
        ),
{
    let stamp = state.get_synchronized_timestamp(now);
    let task_id = match command {
        Command::ClearSubsystemFault { subsystem_id } => {
            let mut i: usize = 0;
            while i < MAX_SUBSYSTEM
                invariant
                    i <= MAX_SUBSYSTEM,
                    forall|k: int|
                        0 <= k < i ==> state.subsystem_health[k] == subsystem_after(
                            command,
                            #[trigger] old(state).subsystem_health[k],
                            k,
                        ),
                    forall|k: int|
                        i <= k < MAX_SUBSYSTEM ==> state.subsystem_health[k] == old(
                            state,
                        ).subsystem_health[k],
                    *state == (SatelliteState {
                        subsystem_health: state.subsystem_health,
                        ..*old(state)
                    }),
                    command == (Command::ClearSubsystemFault { subsystem_id }),
                decreases MAX_SUBSYSTEM - i,
            {
                if state.subsystem_health[i].id == subsystem_id && state.subsystem_health[i].fault {
                    state.subsystem_health[i].fault_interlock = false;
                }
                i = i + 1;
            }
            TaskID::ClearSubsystemFault
        },
        Command::RotateAntenna { target_angle } => {
            state.subsystem_health[SubsystemID::Antenna.index()].value = target_angle as u32;
            TaskID::RotateAntenna
        },
        Command::SetPowerMode { mode } => {
            state.subsystem_health[SubsystemID::Power.index()].value = mode as u32;
            TaskID::SetPowerMode
        },
        Command::RequestRetransmit { .. } => TaskID::NoTask,
    };
    let mut outbox: Vec<Output> = Vec::new();
    if task_id == TaskID::NoTask {
        outbox.push(
            Output::critical(
                stamp,
                TaskID::GlobalSystem,
                EventID::CommandNotFound,
                EventData::NoData,
                now,
            ),
        );
    } else {
        outbox.push(
            Output::critical(stamp, task_id, EventID::CommandCompletion, EventData::NoData, now),
        );
    }
    downlink.emit_all(LogSource::CommandExecutor, &outbox, now, stamp)
}

/// The result of one turn of the command executor.
#[derive(Debug)]
pub struct CommandTurn {
    pub directive: Directive,
    /// The records for the log.
    pub logs: Vec<Log>,
    /// A packet was taken from the uplink and dealt with: the caller adds
    /// the time that the turn took to the busy time of the system.
    pub handled: bool,
}

/// The command that a packet carries, if it carries one.
pub open spec fn carried_command(packet: TelemetryPacket) -> Option<Command> {
    match packet.payload {
        SatelliteMessage::Command { command, .. } => Some(command),
        _ => None,
    }
}

/// Takes one turn of the command executor at the uptime `now`.
///
/// An executor that finds the satellite stopped is told to stop and takes
/// nothing from the uplink. Otherwise the packet at the front of the uplink
/// is taken. A command whose subsystem is interlocked stops the executor
/// for good, with nothing carried out; any other command is carried out, and
/// a packet that carries no command is dropped. Unless it stops, the
/// executor sleeps for its pause.
pub fn command_step(
    state: &mut SatelliteState,
    downlink: &mut BoundedBuffer,
    uplink: &mut BoundedBuffer,
    now: u64,
) -> (turn: CommandTurn)
    requires
        old(state).can_stamp(now),
        old(downlink).wf(),
        old(uplink).wf(),
    ensures
        final(downlink).wf(),
        final(uplink).wf(),
        final(downlink).spec_capacity() == old(downlink).spec_capacity(),
        final(downlink).spec_metrics() == old(downlink).spec_metrics(),
        final(uplink).spec_capacity() == old(uplink).spec_capacity(),
        final(uplink).spec_metrics() == old(uplink).spec_metrics(),
        final(uplink)@ == if old(state).is_running {
            spec_pop(old(uplink)@).0
        } else {
            old(uplink)@
        },
        ({
            let taken = if old(state).is_running {
                spec_pop(old(uplink)@).1
            } else {
                None
            };
            let command = match taken {
                Some(packet) => carried_command(packet),
                None => None,
            };
            let carried_out = command is Some && !is_interlocked(command->0, *old(state));
            &&& turn.directive == if !old(state).is_running || (command is Some
                && !carried_out) {
                Directive::Stop
            } else {
                Directive::Sleep { ms: COMMAND_MS }
            }
            &&& turn.handled == (taken is Some && (command is None || carried_out))
            &&& forall|i: int|
                0 <= i < MAX_SUBSYSTEM ==> final(state).subsystem_health[i] == if carried_out {
                    subsystem_after(command->0, #[trigger] old(state).subsystem_health[i], i)
                } else {
                    old(state).subsystem_health[i]
                }
            &&& *final(state) == (SatelliteState {
                subsystem_health: final(state).subsystem_health,
                ..*old(state)
            })
            &&& (final(downlink)@, turn.logs@) == spec_emit_all(
                old(downlink)@,
                old(downlink).spec_capacity() as nat,
                LogSource::CommandExecutor,
                if carried_out {
                    command_outputs(command->0, now, old(state).spec_synchronized_timestamp(now))
                } else {
                    Seq::empty()
                },
                now,
                old(state).spec_synchronized_timestamp(now),
            )
        }),
{
    if !state.is_running {
        return CommandTurn { directive: Directive::Stop, logs: Vec::new(), handled: false };
    }
    match uplink.pop() {
        None => CommandTurn {
            directive: Directive::Sleep { ms: COMMAND_MS },
            logs: Vec::new(),
            handled: false,
        },
        Some(packet) => {
            match packet.payload {
                SatelliteMessage::Command { command, .. } => {
                    if check_interlock(&command, state) {
                        CommandTurn {
                            directive: Directive::Stop,
                            logs: Vec::new(),
                            handled: false,
                        }
                    } else {
                        let logs = execute_instruction(command, state, downlink, now);
                        CommandTurn {
                            directive: Directive::Sleep { ms: COMMAND_MS },
                            logs,
                            handled: true,
                        }
                    }
                },
                _ => CommandTurn {
                    directive: Directive::Sleep { ms: COMMAND_MS },
                    logs: Vec::new(),
                    handled: true,
                },
            }
        },
    }
}

} // verus!
