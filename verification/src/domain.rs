//! The vehicle domain model shared by every service of the core.
//!
//! Quantities that the core derives itself are kept in the fixed-point units
//! of the MAVLink messages they come from (millivolts, centiamps, 1e-7
//! degrees, millimetres, centi-DOP); quantities that the core only carries
//! (parameter values, mission coordinates) are kept as the IEEE-754 bit
//! patterns of their `f32` / `f64` values.
use vstd::prelude::*;
use crate::clock;
use crate::text::decimal_string;
#[allow(unused_imports)]
use crate::text::decimal_text;

verus! {

/// Identifies a vehicle, e.g. `SYS-1`.
#[derive(Debug)]
pub struct VehicleId(pub String);

impl Clone for VehicleId {
    fn clone(&self) -> (r: Self)
        ensures
            r == *self,
    {
        VehicleId(self.0.clone())
    }
}

impl VehicleId {
    /// The identifier's text.
    pub fn as_str(&self) -> (s: &str)
        ensures
            s@ == self.0@,
    {
        self.0.as_str()
    }
}

#[derive(Clone, Copy, Debug, PartialEq, Eq, Structural)]
pub enum VehicleType {
    Multirotor,
    FixedWing,
    VTOL,
    Rover,
    Sub,
    Unknown,
}

#[derive(Clone, Copy, Debug, PartialEq, Eq, Structural)]
pub enum ArmingState {
    Disarmed,
    Arming,
    Armed,
    Unknown,
}

/// The flight mode a vehicle reports, with a human-readable label.
#[derive(Debug)]
pub struct FlightMode {
    pub label: String,
    pub base_mode: u8,
    pub custom_mode: u32,
}

impl Clone for FlightMode {
    fn clone(&self) -> (r: Self)
        ensures
            r == *self,
    {
        FlightMode { label: self.label.clone(), base_mode: self.base_mode, custom_mode: self.custom_mode }
    }
}

/// Battery state: voltage in millivolts, current in centiamperes,
/// remaining charge in tenths of a percent.
#[derive(Clone, Copy, Debug, PartialEq, Eq, Structural)]
pub struct BatteryStatus {
    pub voltage_mv: u32,
    pub current_ca: Option<u32>,
    pub remaining_permille: Option<u32>,
}

#[derive(Clone, Copy, Debug, PartialEq, Eq, Structural)]
pub enum GpsFixType {
    NoFix,
    DeadReckoning,
    Fix2D,
    Fix3D,
    DGps,
    RtkFloat,
    RtkFixed,
    StaticHold,
    Other,
}

/// GPS state: position in 1e-7 degrees, altitude in millimetres, dilution
/// of precision in hundredths.
#[derive(Clone, Copy, Debug, PartialEq, Eq, Structural)]
pub struct GpsStatus {
    pub fix_type: GpsFixType,
    pub satellites_visible: u8,
    pub latitude_e7: Option<i64>,
    pub longitude_e7: Option<i64>,
    pub altitude_mm: Option<i32>,
    pub hdop_cm: Option<u16>,
    pub vdop_cm: Option<u16>,
}

/// Everything the core knows of a vehicle's state.
#[derive(Debug)]
pub struct VehicleStatus {
    pub vehicle_id: VehicleId,
    pub vehicle_type: VehicleType,
    pub arming_state: ArmingState,
    pub heartbeat_millis: u32,
    pub flight_mode: Option<FlightMode>,
    pub battery: Option<BatteryStatus>,
    pub gps: Option<GpsStatus>,
}

impl Clone for VehicleStatus {
    fn clone(&self) -> (r: Self)
        ensures
            r == *self,
    {
        VehicleStatus {
            vehicle_id: self.vehicle_id.clone(),
            vehicle_type: self.vehicle_type,
            arming_state: self.arming_state,
            heartbeat_millis: self.heartbeat_millis,
            flight_mode: match &self.flight_mode {
                Some(m) => Some(m.clone()),
                None => None,
            },
            battery: self.battery,
            gps: self.gps,
        }
    }
}

/// `s` is the state of a vehicle named `id` of which nothing else is known.
pub open spec fn is_blank_status(s: VehicleStatus, id: Seq<char>) -> bool {
    &&& s.vehicle_id.0@ == id
    &&& s.vehicle_type == VehicleType::Unknown
    &&& s.arming_state == ArmingState::Unknown
    &&& s.heartbeat_millis == 0
    &&& s.flight_mode is None
    &&& s.battery is None
    &&& s.gps is None
}

impl VehicleStatus {
    /// The state of a vehicle of which nothing but its identifier is known.
    pub fn new(vehicle_id: VehicleId) -> (s: Self)
        ensures
            is_blank_status(s, vehicle_id.0@),
            s.vehicle_id == vehicle_id,
    {
        VehicleStatus {
            vehicle_id,
            vehicle_type: VehicleType::Unknown,
            arming_state: ArmingState::Unknown,
            heartbeat_millis: 0,
            flight_mode: None,
            battery: None,
            gps: None,
        }
    }
}

impl Default for VehicleStatus {
    /// The state of the placeholder vehicle `UNKNOWN`.
    fn default() -> (s: Self)
        ensures
            is_blank_status(s, "UNKNOWN"@),
    {
        Self::new(VehicleId(String::from_str("UNKNOWN")))
    }
}

#[derive(Clone, Copy, Debug, PartialEq, Eq, Structural)]
pub enum LinkKind {
    Simulated,
    Serial,
    Udp,
}

/// Transport-specific details of a device.
#[derive(Debug)]
pub enum DeviceDetails {
    Simulated,
    Serial {
        path: String,
        manufacturer: Option<String>,
        product: Option<String>,
        vid: Option<u16>,
        pid: Option<u16>,
    },
    Udp { bind: String, target_host: Option<String>, target_port: Option<u16> },
}

impl Clone for DeviceDetails {
    fn clone(&self) -> (r: Self)
        ensures
            r == *self,
    {
        match self {
            DeviceDetails::Simulated => DeviceDetails::Simulated,
            DeviceDetails::Serial { path, manufacturer, product, vid, pid } => DeviceDetails::Serial {
                path: path.clone(),
                manufacturer: manufacturer.clone(),
                product: product.clone(),
                vid: *vid,
                pid: *pid,
            },
            DeviceDetails::Udp { bind, target_host, target_port } => DeviceDetails::Udp {
                bind: bind.clone(),
                target_host: target_host.clone(),
                target_port: *target_port,
            },
        }
    }
}

/// A device through which a vehicle can be reached.
#[derive(Debug)]
pub struct DeviceDescriptor {
    pub id: String,
    pub label: String,
    pub transport: LinkKind,
    pub details: DeviceDetails,
}

impl Clone for DeviceDescriptor {
    fn clone(&self) -> (r: Self)
        ensures
            r == *self,
    {
        DeviceDescriptor {
            id: self.id.clone(),
            label: self.label.clone(),
            transport: self.transport,
            details: self.details.clone(),
        }
    }
}

#[derive(Clone, Copy, Debug, PartialEq, Eq, Structural)]
pub enum ConnectionPhase {
    Idle,
    Discovering,
    Connecting,
    Connected,
    Disconnecting,
    Disconnected,
    Error,
}

/// Where a connection stands, why, and with which device.
#[derive(Debug)]
pub struct ConnectionStatus {
    pub phase: ConnectionPhase,
    pub message: Option<String>,
    pub device: Option<DeviceDescriptor>,
}

impl Clone for ConnectionStatus {
    fn clone(&self) -> (r: Self)
        ensures
            r == *self,
    {
        ConnectionStatus {
            phase: self.phase,
            message: self.message.clone(),
            device: match &self.device {
                Some(d) => Some(d.clone()),
                None => None,
            },
        }
    }
}

impl ConnectionStatus {
    /// A status in `phase` with neither message nor device.
    pub fn new(phase: ConnectionPhase) -> (s: Self)
        ensures
            s.phase == phase,
            s.message is None,
            s.device is None,
    {
        ConnectionStatus { phase, message: None, device: None }
    }

    /// The same status, naming `device`.
    pub fn with_device(self, device: DeviceDescriptor) -> (s: Self)
        ensures
            s.phase == self.phase,
            s.message == self.message,
            s.device == Some(device),
    {
        let mut s = self;
        s.device = Some(device);
        s
    }

    /// The same status, carrying `message`.
    pub fn with_message(self, message: String) -> (s: Self)
        ensures
            s.phase == self.phase,
            s.message == Some(message),
            s.device == self.device,
    {
        let mut s = self;
        s.message = Some(message);
        s
    }
}

#[derive(Clone, Copy, Debug, PartialEq, Eq, Structural)]
pub enum LogLevel {
    Trace,
    Debug,
    Info,
    Warn,
    Error,
}

/// One line of the mission log.
#[derive(Debug)]
pub struct MissionLogEntry {
    pub timestamp_millis: i64,
    pub level: LogLevel,
    pub source: String,
    pub message: String,
}

impl Clone for MissionLogEntry {
    fn clone(&self) -> (r: Self)
        ensures
            r == *self,
    {
        MissionLogEntry {
            timestamp_millis: self.timestamp_millis,
            level: self.level,
            source: self.source.clone(),
            message: self.message.clone(),
        }
    }
}

/// An onboard parameter; `value_bits` is the bit pattern of its `f32` value.
#[derive(Debug)]
pub struct ParameterValue {
    pub name: String,
    pub value_bits: u32,
    pub param_type: String,
    pub index: Option<u16>,
}

impl Clone for ParameterValue {
    fn clone(&self) -> (r: Self)
        ensures
            r == *self,
    {
        ParameterValue {
            name: self.name.clone(),
            value_bits: self.value_bits,
            param_type: self.param_type.clone(),
            index: self.index,
        }
    }
}

impl ParameterValue {
    /// A parameter of type `float` without index.
    pub fn new(name: String, value_bits: u32) -> (p: Self)
        ensures
            p.name == name,
            p.value_bits == value_bits,
            p.param_type@ == "float"@,
            p.index is None,
    {
        ParameterValue { name, value_bits, param_type: String::from_str("float"), index: None }
    }
}

#[derive(Clone, Copy, Debug, PartialEq, Eq, Structural)]
pub enum MissionFrame {
    Global,
    GlobalRelativeAlt,
    GlobalTerrainAlt,
    Mission,
}

#[derive(Clone, Copy, Debug, PartialEq, Eq, Structural)]
pub enum MissionSyncStage {
    Idle,
    Downloading,
    Uploading,
    AwaitingAck,
    Completed,
    Failed,
}

#[derive(Clone, Copy, Debug, PartialEq, Eq, Structural)]
pub enum MissionOperationKind {
    Upload,
    Download,
}

#[derive(Clone, Copy, Debug, PartialEq, Eq, Structural)]
pub enum MissionOperationStatus {
    Success,
    Failed,
    Cancelled,
}

/// The outcome of a mission upload or download.
#[derive(Debug)]
pub struct MissionOperationReport {
    pub operation: MissionOperationKind,
    pub status: MissionOperationStatus,
    pub message: Option<String>,
    pub revision: u32,
}

impl Clone for MissionOperationReport {
    fn clone(&self) -> (r: Self)
        ensures
            r == *self,
    {
        MissionOperationReport {
            operation: self.operation,
            status: self.status,
            message: self.message.clone(),
            revision: self.revision,
        }
    }
}

/// Progress of a mission transfer.
#[derive(Debug)]
pub struct MissionSyncStatus {
    pub stage: MissionSyncStage,
    pub index: Option<u16>,
    pub total: Option<u16>,
    pub message: Option<String>,
}

impl Clone for MissionSyncStatus {
    fn clone(&self) -> (r: Self)
        ensures
            r == *self,
    {
        MissionSyncStatus {
            stage: self.stage,
            index: self.index,
            total: self.total,
            message: self.message.clone(),
        }
    }
}

impl MissionSyncStatus {
    /// A transfer status in `stage` with no progress and no message.
    pub fn new(stage: MissionSyncStage) -> (s: Self)
        ensures
            s.stage == stage,
            s.index is None,
            s.total is None,
            s.message is None,
    {
        MissionSyncStatus { stage, index: None, total: None, message: None }
    }

    /// The same status with the given progress.
    pub fn with_progress(self, index: Option<u16>, total: Option<u16>) -> (s: Self)
        ensures
            s.stage == self.stage,
            s.index == index,
            s.total == total,
            s.message == self.message,
    {
        let mut s = self;
        s.index = index;
        s.total = total;
        s
    }

    /// The same status, carrying `message`.
    pub fn with_message(self, message: String) -> (s: Self)
        ensures
            s.stage == self.stage,
            s.index == self.index,
            s.total == self.total,
            s.message == Some(message),
    {
        let mut s = self;
        s.message = Some(message);
        s
    }
}

/// A position; the fields are the bit patterns of the `f64` latitude and
/// longitude in degrees and of the `f32` altitude in metres.
#[derive(Clone, Copy, Debug, PartialEq, Eq, Structural)]
pub struct MissionCoordinate {
    pub latitude_bits: u64,
    pub longitude_bits: u64,
    pub altitude_bits: u32,
}

/// One mission command; coordinates and parameters are held as the bit
/// patterns of their `f64` / `f32` values.
#[derive(Clone, Copy, Debug, PartialEq, Eq, Structural)]
pub struct MissionItem {
    pub seq: u16,
    pub command: u16,
    pub frame: MissionFrame,
    pub latitude_bits: u64,
    pub longitude_bits: u64,
    pub altitude_bits: u32,
    pub param1_bits: u32,
    pub param2_bits: u32,
    pub param3_bits: u32,
    pub param4_bits: u32,
    pub auto_continue: bool,
    pub is_current: bool,
}

impl MissionItem {
    /// A waypoint (`MAV_CMD_NAV_WAYPOINT`, 16) relative to home altitude,
    /// with zero parameters, continuing automatically.
    pub fn new(seq: u16, latitude_bits: u64, longitude_bits: u64, altitude_bits: u32) -> (m: Self)
        ensures
            m.seq == seq,
            m.command == 16,
            m.frame == MissionFrame::GlobalRelativeAlt,
            m.latitude_bits == latitude_bits,
            m.longitude_bits == longitude_bits,
            m.altitude_bits == altitude_bits,
            m.param1_bits == 0 && m.param2_bits == 0 && m.param3_bits == 0 && m.param4_bits == 0,
            m.auto_continue,
            !m.is_current,
    {
        MissionItem {
            seq,
            command: 16,
            frame: MissionFrame::GlobalRelativeAlt,
            latitude_bits,
            longitude_bits,
            altitude_bits,
            param1_bits: 0,
            param2_bits: 0,
            param3_bits: 0,
            param4_bits: 0,
            auto_continue: true,
            is_current: false,
        }
    }
}

/// A mission plan and its bookkeeping.
#[derive(Debug)]
pub struct MissionPlan {
    pub plan_id: String,
    pub revision: u32,
    pub items: Vec<MissionItem>,
    pub home: Option<MissionCoordinate>,
    pub last_modified_millis: i64,
    pub notes: Option<String>,
}

impl Clone for MissionPlan {
    fn clone(&self) -> (r: Self)
        ensures
            r.plan_id == self.plan_id,
            r.revision == self.revision,
            r.items@ == self.items@,
            r.home == self.home,
            r.last_modified_millis == self.last_modified_millis,
            r.notes == self.notes,
    {
        let items = self.items.clone();
        MissionPlan {
            plan_id: self.plan_id.clone(),
            revision: self.revision,
            items,
            home: self.home,
            last_modified_millis: self.last_modified_millis,
            notes: self.notes.clone(),
        }
    }
}

impl MissionPlan {
    /// An empty plan at revision 0, stamped with the current wall-clock time.
    pub fn new(plan_id: String) -> (p: Self)
        ensures
            p.plan_id == plan_id,
            p.revision == 0,
            p.items@.len() == 0,
            p.home is None,
            p.notes is None,
    {
        Self::created_at(plan_id, clock::unix_millis_now())
    }

    /// An empty plan at revision 0, stamped with `now_millis`.
    pub fn created_at(plan_id: String, now_millis: i64) -> (p: Self)
        ensures
            p.plan_id == plan_id,
            p.revision == 0,
            p.items@.len() == 0,
            p.home is None,
            p.last_modified_millis == now_millis,
            p.notes is None,
    {
        MissionPlan {
            plan_id,
            revision: 0,
            items: Vec::new(),
            home: None,
            last_modified_millis: now_millis,
            notes: None,
        }
    }

    /// The same plan with `items`, stamped with the current wall-clock time.
    pub fn with_items(self, items: Vec<MissionItem>) -> (p: Self)
        ensures
            p.plan_id == self.plan_id,
            p.revision == self.revision,
            p.items == items,
            p.home == self.home,
            p.notes == self.notes,
    {
        let now = clock::unix_millis_now();
        self.with_items_at(items, now)
    }

    /// The same plan with `items`, stamped with `now_millis`.
    pub fn with_items_at(self, items: Vec<MissionItem>, now_millis: i64) -> (p: Self)
        ensures
            p.plan_id == self.plan_id,
            p.revision == self.revision,
            p.items == items,
            p.home == self.home,
            p.last_modified_millis == now_millis,
            p.notes == self.notes,
    {
        let mut p = self;
        p.items = items;
        p.last_modified_millis = now_millis;
        p
    }
}

/// Failures of domain lookups.
#[derive(Debug)]
pub enum DomainError {
    VehicleNotFound(String),
    /// Elapsed time in milliseconds.
    Timeout(u64),
}

impl DomainError {
    /// The error's text, as `Display` renders it.
    pub fn message(&self) -> (s: String)
        ensures
            s@ == match self {
                DomainError::VehicleNotFound(id) => "vehicle not found: "@ + id@,
                DomainError::Timeout(ms) => "operation timed out after "@ + decimal_text(
                    *ms as nat,
                ) + " ms"@,
            },
    {
        match self {
            DomainError::VehicleNotFound(id) => {
                let mut s = String::from_str("vehicle not found: ");
                s.append(id.as_str());
                s
            },
            DomainError::Timeout(ms) => {
                let mut s = String::from_str("operation timed out after ");
                let digits = decimal_string(*ms);
                s.append(digits.as_str());
                s.append(" ms");
                s
            },
        }
    }
}

} // verus!
