//! The events the core publishes to the shell.
use vstd::prelude::*;
use crate::clock;
use crate::domain;

verus! {

/// An event for the shell; it is published as a JSON object tagged by the
/// snake-case variant name.
#[derive(Debug)]
#[allow(inconsistent_fields)]
pub enum CoreEvent {
    DeviceDiscovered { device: domain::DeviceDescriptor },
    DeviceLost { device: domain::DeviceDescriptor },
    DiscoverySnapshot { devices: Vec<domain::DeviceDescriptor> },
    ConnectionStatus { status: domain::ConnectionStatus },
    Heartbeat { status: domain::VehicleStatus },
    MissionLog { entry: domain::MissionLogEntry },
    ParameterBatch { parameters: Vec<domain::ParameterValue> },
    ParameterProgress { received: usize, expected: Option<usize> },
    Diagnostics { level: domain::LogLevel, message: String },
    MissionPlan { plan: domain::MissionPlan },
    MissionSync { status: domain::MissionSyncStatus },
    MissionOperation { report: domain::MissionOperationReport },
}

/// `e` is the mission-log event for `level`, `source`, `message`, stamped `timestamp`.
pub open spec fn is_log_event(
    e: CoreEvent,
    level: domain::LogLevel,
    source: Seq<char>,
    message: Seq<char>,
    timestamp: i64,
) -> bool {
    &&& e is MissionLog
    &&& e->entry.level == level
    &&& e->entry.source@ == source
    &&& e->entry.message@ == message
    &&& e->entry.timestamp_millis == timestamp
}

/// The mission-log event for `message` from `source`, stamped `timestamp_millis`.
pub fn log_event_at(
    level: domain::LogLevel,
    source: &str,
    message: String,
    timestamp_millis: i64,
) -> (e: CoreEvent)
    ensures
        is_log_event(e, level, source@, message@, timestamp_millis),
{
    CoreEvent::MissionLog {
        entry: domain::MissionLogEntry {
            timestamp_millis,
            level,
            source: String::from_str(source),
            message,
        },
    }
}

/// The mission-log event for `message` from `source`, stamped with the
/// current wall-clock time.
pub fn log_event(level: domain::LogLevel, source: &str, message: String) -> (e: CoreEvent)
    ensures
        e is MissionLog,
        e->entry.level == level,
        e->entry.source@ == source@,
        e->entry.message@ == message@,
{
    log_event_at(level, source, message, clock::unix_millis_now())
}

} // verus!
