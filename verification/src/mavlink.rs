//! The decisions of a MAVLink session: which link a device calls for, how
//! the session's state follows the messages it receives, and how a
//! parameter download progresses. The transport itself, the timers and the
//! channels to the callers are driven from outside; every step here takes
//! what happened (and the time) and returns what to publish.
use vstd::prelude::*;
use crate::domain::{
    ArmingState, BatteryStatus, ConnectionPhase, ConnectionStatus, DeviceDescriptor, DeviceDetails,
    FlightMode, GpsFixType, GpsStatus, LinkKind, LogLevel, ParameterValue, VehicleId, VehicleStatus,
    VehicleType,
};
use crate::error::{invalid_argument, timeout, CoreError};
use crate::events::{is_log_event, log_event_at, CoreEvent};
use crate::telemetry::{
    arming_state_of, battery_from_sys_status, describe_flight_mode, flight_mode_label,
    gps_from_raw_int, gps_report, log_level_of, map_arming_state, map_statustext_severity, map_vehicle_type,
    vehicle_type_of, MODE_FLAG_CUSTOM_MODE_ENABLED, MODE_FLAG_GUIDED_ENABLED,
};
use crate::text::{decimal_string, decimal_text, trim_zero_terminated, zero_terminated_text};

verus! {

/// How long a parameter download may take, in milliseconds, unless the
/// caller says otherwise.
pub const DEFAULT_PARAMETER_TIMEOUT_MS: u64 = 10_000;

/// The system id assumed for the autopilot before any heartbeat.
pub const DEFAULT_SYSTEM_ID: u8 = 1;

/// `MAV_COMP_ID_AUTOPILOT1`, assumed before any heartbeat.
pub const DEFAULT_COMPONENT_ID: u8 = 1;

/// The baud rate of a serial link unless the caller says otherwise.
pub const DEFAULT_SERIAL_BAUD: u32 = 115200;

/// The link a session runs over.
#[derive(Debug)]
pub enum LinkConfig {
    Simulated,
    Udp { descriptor: DeviceDescriptor },
    Serial { descriptor: DeviceDescriptor, baud: u32 },
}

/// The built-in software simulator.
pub open spec fn is_simulated_descriptor(d: DeviceDescriptor) -> bool {
    &&& d.id@ == "simulator:virtual"@
    &&& d.label@ == "Software Simulator"@
    &&& d.transport == LinkKind::Simulated
    &&& d.details is Simulated
}

/// The descriptor of the built-in software simulator.
pub fn simulated_descriptor() -> (d: DeviceDescriptor)
    ensures
        is_simulated_descriptor(d),
{
    DeviceDescriptor {
        id: String::from_str("simulator:virtual"),
        label: String::from_str("Software Simulator"),
        transport: LinkKind::Simulated,
        details: DeviceDetails::Simulated,
    }
}

/// The UDP endpoint used when a UDP device carries no UDP details.
pub open spec fn is_fallback_udp(d: DeviceDescriptor) -> bool {
    &&& d.id@ == "udp:0.0.0.0:14550"@
    &&& d.label@ == "UDP 0.0.0.0:14550"@
    &&& d.transport == LinkKind::Udp
    &&& d.details is Udp
    &&& d.details->bind@ == "0.0.0.0:14550"@
    &&& d.details->target_host is None
    &&& d.details->target_port is None
}

/// `link` is the link for device `config` (see `resolve_link`).
pub open spec fn resolves_to(config: DeviceDescriptor, link: LinkConfig) -> bool {
    match config.transport {
        LinkKind::Simulated => link is Simulated,
        LinkKind::Serial => if config.details is Serial {
            link == LinkConfig::Serial { descriptor: config, baud: DEFAULT_SERIAL_BAUD }
        } else {
            link is Simulated
        },
        LinkKind::Udp => if config.details is Udp {
            link == LinkConfig::Udp { descriptor: config }
        } else {
            link is Udp && is_fallback_udp(link->Udp_descriptor)
        },
    }
}

/// The link for a device: its transport decides, a serial device without
/// serial details falls back to the simulator, a UDP device without UDP
/// details to UDP on all interfaces at port 14550; serial links run at
/// 115200 baud.
pub fn resolve_link(config: &DeviceDescriptor) -> (link: LinkConfig)
    ensures
        resolves_to(*config, link),
{
    match config.transport {
        LinkKind::Simulated => LinkConfig::Simulated,
        LinkKind::Serial => {
            if matches!(config.details, DeviceDetails::Serial { .. }) {
                LinkConfig::Serial { descriptor: config.clone(), baud: DEFAULT_SERIAL_BAUD }
            } else {
                LinkConfig::Simulated
            }
        },
        LinkKind::Udp => {
            if matches!(config.details, DeviceDetails::Udp { .. }) {
                LinkConfig::Udp { descriptor: config.clone() }
            } else {
                LinkConfig::Udp {
                    descriptor: DeviceDescriptor {
                        id: String::from_str("udp:0.0.0.0:14550"),
                        label: String::from_str("UDP 0.0.0.0:14550"),
                        transport: LinkKind::Udp,
                        details: DeviceDetails::Udp {
                            bind: String::from_str("0.0.0.0:14550"),
                            target_host: None,
                            target_port: None,
                        },
                    },
                }
            }
        },
    }
}

/// The address a UDP link is opened at: `udpin:<bind>`, listening on all
/// interfaces at port 14550 when the descriptor has no UDP details.
pub fn udp_link_uri(descriptor: &DeviceDescriptor) -> (uri: String)
    ensures
        uri@ == "udpin:"@ + (if descriptor.details is Udp {
            descriptor.details->bind@
        } else {
            "0.0.0.0:14550"@
        }),
{
    let mut uri = String::from_str("udpin:");
    match &descriptor.details {
        DeviceDetails::Udp { bind, .. } => uri.append(bind.as_str()),
        _ => uri.append("0.0.0.0:14550"),
    }
    uri
}

/// The address a serial link is opened at: `serial:<path>:<baud>`; a
/// descriptor without serial details has no path and is refused.
pub fn serial_link_uri(descriptor: &DeviceDescriptor, baud: u32) -> (r: Result<String, CoreError>)
    ensures
        descriptor.details is Serial ==> r is Ok && r->Ok_0@ == "serial:"@ + descriptor.details->path@
            + ":"@ + decimal_text(baud as nat),
        !(descriptor.details is Serial) ==> r is Err && r->Err_0 is InvalidArgument
            && r->Err_0->InvalidArgument_0@ == "serial descriptor missing path"@,
{
    match &descriptor.details {
        DeviceDetails::Serial { path, .. } => {
            let mut uri = String::from_str("serial:");
            uri.append(path.as_str());
            uri.append(":");
            let digits = decimal_string(baud as u64);
            uri.append(digits.as_str());
            Ok(uri)
        },
        _ => Err(invalid_argument(String::from_str("serial descriptor missing path"))),
    }
}

/// The parameter timeout of a download: the caller's, or the default.
pub fn parameter_timeout(timeout_override: Option<u64>) -> (ms: u64)
    ensures
        ms == match timeout_override {
            Some(t) => t,
            None => DEFAULT_PARAMETER_TIMEOUT_MS,
        },
{
    match timeout_override {
        Some(t) => t,
        None => DEFAULT_PARAMETER_TIMEOUT_MS,
    }
}

/// A parameter download in progress.
#[derive(Debug)]
pub struct PendingParameters {
    /// The count the vehicle announced, once it has.
    pub expected: Option<usize>,
    /// The values received so far, in arrival order.
    pub values: Vec<ParameterValue>,
    /// When the download expires, in milliseconds of the session clock.
    pub deadline_ms: u64,
}

/// The count a download knows after a value that announced `expected`: the
/// announcement, or what it knew before.
pub open spec fn announced_count(known: Option<usize>, expected: Option<usize>) -> Option<usize> {
    if expected is Some {
        expected
    } else {
        known
    }
}

/// A download holding `values` is complete once a count was announced and
/// as many values arrived.
pub open spec fn download_complete(values: Seq<ParameterValue>, announced: Option<usize>) -> bool {
    announced is Some && values.len() >= announced->Some_0
}

/// The values and announced count of a download that held `values` and
/// knew `known` after it received `incoming`, each value with the count it
/// announced, in order.
pub open spec fn feed_download(
    values: Seq<ParameterValue>,
    known: Option<usize>,
    incoming: Seq<(ParameterValue, Option<usize>)>,
) -> (Seq<ParameterValue>, Option<usize>)
    decreases incoming.len(),
{
    if incoming.len() == 0 {
        (values, known)
    } else {
        feed_download(
            values.push(incoming[0].0),
            announced_count(known, incoming[0].1),
            incoming.drop_first(),
        )
    }
}

/// Each of `values`, announcing the count `count`.
pub open spec fn announcing(values: Seq<ParameterValue>, count: usize) -> Seq<(ParameterValue, Option<usize>)> {
    values.map_values(|v: ParameterValue| (v, Some(count)))
}

proof fn lemma_feed_announcing(values: Seq<ParameterValue>, known: Option<usize>, incoming: Seq<ParameterValue>, count: usize)
    requires
        incoming.len() > 0,
    ensures
        feed_download(values, known, announcing(incoming, count)) == (values + incoming, Some(count)),
    decreases incoming.len(),
{
    let pairs = announcing(incoming, count);
    assert(pairs[0] == (incoming[0], Some(count)));
    if incoming.len() == 1 {
        assert(pairs.drop_first().len() == 0);
        reveal_with_fuel(feed_download, 2);
        assert(values.push(incoming[0]) =~= values + incoming);
    } else {
        assert(pairs.drop_first() =~= announcing(incoming.drop_first(), count));
        lemma_feed_announcing(values.push(incoming[0]), Some(count), incoming.drop_first(), count);
        assert(values.push(incoming[0]) + incoming.drop_first() =~= values + incoming);
    }
}

/// A fresh download whose values each announce the full count `count`
/// holds, after `k` of them, exactly those `k` values in arrival order, and
/// is complete exactly when `k` reached `count`.
pub proof fn lemma_download_completes_at_announced_count(incoming: Seq<ParameterValue>, count: usize, k: int)
    requires
        0 < k <= incoming.len(),
    ensures
        ({
            let state = feed_download(Seq::empty(), None, announcing(incoming.take(k), count));
            &&& state.0 == incoming.take(k)
            &&& download_complete(state.0, state.1) <==> k >= count
        }),
{
    lemma_feed_announcing(Seq::empty(), None, incoming.take(k), count);
    assert(Seq::<ParameterValue>::empty() + incoming.take(k) =~= incoming.take(k));
}

impl PendingParameters {
    /// A download started at `now_ms` that may take `timeout_ms`.
    pub fn new(timeout_ms: u64, now_ms: u64) -> (p: Self)
        requires
            now_ms + timeout_ms <= u64::MAX,
        ensures
            p.expected is None,
            p.values@.len() == 0,
            p.deadline_ms == now_ms + timeout_ms,
    {
        PendingParameters { expected: None, values: Vec::new(), deadline_ms: now_ms + timeout_ms }
    }

    /// Records a received value; an announced count replaces the known one.
    pub fn push(&mut self, value: ParameterValue, expected: Option<usize>)
        ensures
            final(self).values@ == old(self).values@.push(value),
            final(self).expected == announced_count(old(self).expected, expected),
            final(self).deadline_ms == old(self).deadline_ms,
    {
        if let Some(e) = expected {
            self.expected = Some(e);
        }
        self.values.push(value);
    }

    /// Whether as many values arrived as were announced.
    pub fn is_complete(&self) -> (r: bool)
        ensures
            r == download_complete(self.values@, self.expected),
    {
        match self.expected {
            Some(expected) => self.values.len() >= expected,
            None => false,
        }
    }

    /// Whether the download has expired at `now_ms`.
    pub fn is_expired(&self, now_ms: u64) -> (r: bool)
        ensures
            r == (now_ms > self.deadline_ms),
    {
        now_ms > self.deadline_ms
    }
}

/// The milliseconds since the previous heartbeat (none: 0), truncated to 32
/// bits; a clock that went backwards counts as no time.
pub open spec fn heartbeat_interval(previous: Option<u64>, now_ms: u64) -> u32 {
    match previous {
        Some(p) => (if now_ms >= p {
            (now_ms - p) % 0x1_0000_0000
        } else {
            0
        }) as u32,
        None => 0,
    }
}

/// The heartbeat interval is the time that passed since the previous
/// heartbeat whenever that time fits in 32 bits of milliseconds; before the
/// first heartbeat, and when the clock went backwards, it is 0.
pub proof fn lemma_heartbeat_interval_is_elapsed_time(previous: Option<u64>, now_ms: u64)
    ensures
        previous matches Some(p) ==> (p <= now_ms && now_ms - p < 0x1_0000_0000 ==> heartbeat_interval(
            previous,
            now_ms,
        ) == now_ms - p),
        previous matches Some(p) ==> (now_ms < p ==> heartbeat_interval(previous, now_ms) == 0),
        previous is None ==> heartbeat_interval(previous, now_ms) == 0,
{
}

/// A heartbeat that arrives between 100 ms and 2^32 ms after the previous one
/// shows exactly that gap as the vehicle's heartbeat interval; a quicker one
/// shows 100 ms.
pub proof fn lemma_heartbeat_shows_gap(
    before: VehicleStatus,
    after: VehicleStatus,
    system_id: u8,
    mav_type: u8,
    system_status: u8,
    base_mode: u8,
    custom_mode: u32,
    previous_ms: u64,
    now_ms: u64,
)
    requires
        previous_ms <= now_ms,
        now_ms - previous_ms < 0x1_0000_0000,
        heartbeat_applied(
            before,
            after,
            system_id,
            mav_type,
            system_status,
            base_mode,
            custom_mode,
            heartbeat_interval(Some(previous_ms), now_ms),
        ),
    ensures
        now_ms - previous_ms >= 100 ==> after.heartbeat_millis == now_ms - previous_ms,
        now_ms - previous_ms < 100 ==> after.heartbeat_millis == 100,
{
    lemma_heartbeat_interval_is_elapsed_time(Some(previous_ms), now_ms);
}

/// The state of one MAVLink session.
#[derive(Debug)]
pub struct SessionState {
    pub descriptor: DeviceDescriptor,
    pub status: ConnectionStatus,
    pub vehicle_status: VehicleStatus,
    pub autopilot_ids: Option<(u8, u8)>,
    /// When the last heartbeat arrived, in milliseconds of the session clock.
    pub last_heartbeat_ms: Option<u64>,
    pub parameter_cache: Vec<ParameterValue>,
    pub pending_parameters: Option<PendingParameters>,
}

/// What a received parameter value led to.
#[derive(Debug)]
pub struct ParameterUpdate {
    /// The progress to publish, when a download is running.
    pub progress: Option<CoreEvent>,
    /// The full list, when the value completed the download.
    pub completed: Option<Vec<ParameterValue>>,
}

/// What a received message led to.
#[derive(Debug)]
pub struct MessageOutcome {
    /// Events to publish, in order.
    pub events: Vec<CoreEvent>,
    /// The full parameter list, when the message completed a download.
    pub completed: Option<Vec<ParameterValue>>,
}

impl SessionState {
    /// The connection status names the session's device.
    pub open spec fn wf(&self) -> bool {
        self.status.device == Some(self.descriptor)
    }

    /// A session with `descriptor` that is connecting; nothing is known of
    /// the vehicle but that it is named after the device.
    pub fn new(descriptor: DeviceDescriptor) -> (s: Self)
        ensures
            s.wf(),
            s.descriptor == descriptor,
            s.status.phase == ConnectionPhase::Connecting,
            s.status.message is None,
            crate::domain::is_blank_status(s.vehicle_status, descriptor.id@),
            s.autopilot_ids is None,
            s.last_heartbeat_ms is None,
            s.parameter_cache@.len() == 0,
            s.pending_parameters is None,
    {
        let vehicle_status = VehicleStatus::new(VehicleId(descriptor.id.clone()));
        let status = ConnectionStatus::new(ConnectionPhase::Connecting).with_device(descriptor.clone());
        SessionState {
            descriptor,
            status,
            vehicle_status,
            autopilot_ids: None,
            last_heartbeat_ms: None,
            parameter_cache: Vec::new(),
            pending_parameters: None,
        }
    }

    /// The connection status.
    pub fn status(&self) -> (s: ConnectionStatus)
        ensures
            s == self.status,
    {
        self.status.clone()
    }

    /// The vehicle's state.
    pub fn vehicle_status(&self) -> (s: VehicleStatus)
        ensures
            s == self.vehicle_status,
    {
        self.vehicle_status.clone()
    }

    /// The heartbeat event that publishes the vehicle's state.
    pub fn heartbeat_event(&self) -> (e: CoreEvent)
        ensures
            e == (CoreEvent::Heartbeat { status: self.vehicle_status }),
    {
        CoreEvent::Heartbeat { status: self.vehicle_status.clone() }
    }

    /// Moves the connection to `phase` with `message`, for the session's
    /// device, and returns the event that publishes it.
    pub fn set_status(&mut self, phase: ConnectionPhase, message: Option<String>) -> (e: CoreEvent)
        ensures
            final(self).wf(),
            final(self).status.phase == phase,
            final(self).status.message == message,
            final(self).status.device == Some(old(self).descriptor),
            final(self).descriptor == old(self).descriptor,
            final(self).vehicle_status == old(self).vehicle_status,
            final(self).autopilot_ids == old(self).autopilot_ids,
            final(self).last_heartbeat_ms == old(self).last_heartbeat_ms,
            final(self).parameter_cache == old(self).parameter_cache,
            final(self).pending_parameters == old(self).pending_parameters,
            e == (CoreEvent::ConnectionStatus { status: final(self).status }),
    {
        self.status.phase = phase;
        self.status.message = message;
        self.status.device = Some(self.descriptor.clone());
        CoreEvent::ConnectionStatus { status: self.status.clone() }
    }

    /// Records a heartbeat at `now_ms` and returns the time since the previous one.
    pub fn record_heartbeat_interval(&mut self, now_ms: u64) -> (elapsed: u32)
        ensures
            elapsed == heartbeat_interval(old(self).last_heartbeat_ms, now_ms),
            old(self).last_heartbeat_ms matches Some(p) ==> (p <= now_ms && now_ms - p < 0x1_0000_0000
                ==> elapsed == now_ms - p),
            final(self).last_heartbeat_ms == Some(now_ms),
            final(self).descriptor == old(self).descriptor,
            final(self).status == old(self).status,
            final(self).vehicle_status == old(self).vehicle_status,
            final(self).autopilot_ids == old(self).autopilot_ids,
            final(self).parameter_cache == old(self).parameter_cache,
            final(self).pending_parameters == old(self).pending_parameters,
    {
        let elapsed = match self.last_heartbeat_ms {
            Some(previous) => {
                let d: u64 = if now_ms >= previous {
                    now_ms - previous
                } else {
                    0
                };
                (d % 0x1_0000_0000u64) as u32
            },
            None => 0,
        };
        self.last_heartbeat_ms = Some(now_ms);
        elapsed
    }

    /// Remembers which system and component the autopilot speaks as.
    pub fn set_autopilot_ids(&mut self, system_id: u8, component_id: u8)
        ensures
            final(self).autopilot_ids == Some((system_id, component_id)),
            final(self).descriptor == old(self).descriptor,
            final(self).status == old(self).status,
            final(self).vehicle_status == old(self).vehicle_status,
            final(self).last_heartbeat_ms == old(self).last_heartbeat_ms,
            final(self).parameter_cache == old(self).parameter_cache,
            final(self).pending_parameters == old(self).pending_parameters,
    {
        self.autopilot_ids = Some((system_id, component_id));
    }

    /// The autopilot's system and component ids: those of its last heartbeat,
    /// or system 1, component `MAV_COMP_ID_AUTOPILOT1` before any.
    pub fn autopilot_ids(&self) -> (ids: (u8, u8))
        ensures
            ids == match self.autopilot_ids {
                Some(known) => known,
                None => (DEFAULT_SYSTEM_ID, DEFAULT_COMPONENT_ID),
            },
    {
        match self.autopilot_ids {
            Some(known) => known,
            None => (DEFAULT_SYSTEM_ID, DEFAULT_COMPONENT_ID),
        }
    }

    /// Starts a parameter download at `now_ms` that may take `timeout_ms`;
    /// refused while another one runs.
    pub fn begin_parameter_request(&mut self, timeout_ms: u64, now_ms: u64) -> (r: Result<(), CoreError>)
        requires
            now_ms + timeout_ms <= u64::MAX,
        ensures
            old(self).pending_parameters is Some ==> {
                &&& r is Err
                &&& r->Err_0 is InvalidArgument
                &&& r->Err_0->InvalidArgument_0@ == "parameter request already running"@
                &&& final(self).pending_parameters == old(self).pending_parameters
            },
            old(self).pending_parameters is None ==> {
                &&& r is Ok
                &&& final(self).pending_parameters is Some
                &&& final(self).pending_parameters->Some_0.expected is None
                &&& final(self).pending_parameters->Some_0.values@.len() == 0
                &&& final(self).pending_parameters->Some_0.deadline_ms == now_ms + timeout_ms
            },
            final(self).descriptor == old(self).descriptor,
            final(self).status == old(self).status,
            final(self).vehicle_status == old(self).vehicle_status,
            final(self).autopilot_ids == old(self).autopilot_ids,
            final(self).last_heartbeat_ms == old(self).last_heartbeat_ms,
            final(self).parameter_cache == old(self).parameter_cache,
    {
        if self.pending_parameters.is_some() {
            Err(invalid_argument(String::from_str("parameter request already running")))
        } else {
            self.pending_parameters = Some(PendingParameters::new(timeout_ms, now_ms));
            Ok(())
        }
    }

    /// Records a received parameter value. Without a running download the
    /// value is dropped. Otherwise it is appended, progress is published,
    /// and once as many values arrived as were announced the download ends:
    /// the list becomes the parameter cache and is returned.
    pub fn on_parameter_value(&mut self, value: ParameterValue, expected: Option<usize>) -> (u: ParameterUpdate)
        ensures
            final(self).descriptor == old(self).descriptor,
            final(self).status == old(self).status,
            final(self).vehicle_status == old(self).vehicle_status,
            final(self).autopilot_ids == old(self).autopilot_ids,
            final(self).last_heartbeat_ms == old(self).last_heartbeat_ms,
            match old(self).pending_parameters {
                None => {
                    &&& u.progress is None
                    &&& u.completed is None
                    &&& final(self).pending_parameters is None
                    &&& final(self).parameter_cache == old(self).parameter_cache
                },
                Some(p) => {
                    let values = p.values@.push(value);
                    let announced = announced_count(p.expected, expected);
                    let complete = download_complete(values, announced);
                    &&& u.progress == Some(
                        CoreEvent::ParameterProgress { received: values.len() as usize, expected: announced },
                    )
                    &&& complete ==> {
                        &&& u.completed is Some
                        &&& u.completed->Some_0@ == values
                        &&& final(self).parameter_cache@ == values
                        &&& final(self).pending_parameters is None
                    }
                    &&& !complete ==> {
                        &&& u.completed is None
                        &&& final(self).parameter_cache == old(self).parameter_cache
                        &&& final(self).pending_parameters is Some
                        &&& final(self).pending_parameters->Some_0.values@ == values
                        &&& final(self).pending_parameters->Some_0.expected == announced
                        &&& final(self).pending_parameters->Some_0.deadline_ms == p.deadline_ms
                    }
                },
            },
    {
        match self.pending_parameters.take() {
            None => ParameterUpdate { progress: None, completed: None },
            Some(mut pending) => {
                pending.push(value, expected);
                let progress = CoreEvent::ParameterProgress {
                    received: pending.values.len(),
                    expected: pending.expected,
                };
                if pending.is_complete() {
                    let values = pending.values;
                    let cache = values.clone();
                    self.parameter_cache = cache;
                    ParameterUpdate { progress: Some(progress), completed: Some(values) }
                } else {
                    self.pending_parameters = Some(pending);
                    ParameterUpdate { progress: Some(progress), completed: None }
                }
            },
        }
    }

    /// Ends the running parameter download, if any, so that the caller can
    /// fail it; returns whether there was one.
    pub fn fail_parameter_request(&mut self) -> (had_pending: bool)
        ensures
            had_pending == old(self).pending_parameters is Some,
            final(self).pending_parameters is None,
            final(self).descriptor == old(self).descriptor,
            final(self).status == old(self).status,
            final(self).vehicle_status == old(self).vehicle_status,
            final(self).autopilot_ids == old(self).autopilot_ids,
            final(self).last_heartbeat_ms == old(self).last_heartbeat_ms,
            final(self).parameter_cache == old(self).parameter_cache,
    {
        let had_pending = self.pending_parameters.is_some();
        self.pending_parameters = None;
        had_pending
    }

    /// Ends a parameter download that has expired at `now_ms` and returns the
    /// error to fail it with: a timeout of the default parameter timeout.
    pub fn expire_parameter_request_if_needed(&mut self, now_ms: u64) -> (r: Option<CoreError>)
        ensures
            match old(self).pending_parameters {
                Some(p) => if now_ms > p.deadline_ms {
                    &&& r == Some(CoreError::Timeout(DEFAULT_PARAMETER_TIMEOUT_MS))
                    &&& final(self).pending_parameters is None
                } else {
                    &&& r is None
                    &&& final(self).pending_parameters == old(self).pending_parameters
                },
                None => r is None && final(self).pending_parameters is None,
            },
            final(self).descriptor == old(self).descriptor,
            final(self).status == old(self).status,
            final(self).vehicle_status == old(self).vehicle_status,
            final(self).autopilot_ids == old(self).autopilot_ids,
            final(self).last_heartbeat_ms == old(self).last_heartbeat_ms,
            final(self).parameter_cache == old(self).parameter_cache,
    {
        let expired = match &self.pending_parameters {
            Some(pending) => pending.is_expired(now_ms),
            None => false,
        };
        if expired {
            self.pending_parameters = None;
            Some(timeout(DEFAULT_PARAMETER_TIMEOUT_MS))
        } else {
            None
        }
    }

    /// The parameters of the last completed download.
    pub fn parameter_cache(&self) -> (c: Vec<ParameterValue>)
        ensures
            c@ == self.parameter_cache@,
    {
        let c = self.parameter_cache.clone();
        c
    }
}


/// The header fields of a received MAVLink frame that the session reads.
#[derive(Clone, Copy, Debug, PartialEq, Eq, Structural)]
pub struct MavHeader {
    pub system_id: u8,
    pub component_id: u8,
}

/// The received MAVLink messages the session reads, by their wire values:
/// enumerations by numeric code, character fields as raw bytes, the
/// parameter value as the bit pattern of its `f32`, the parameter type by
/// its name.
#[derive(Debug)]
pub enum MavlinkMessage {
    Heartbeat { mav_type: u8, system_status: u8, base_mode: u8, custom_mode: u32 },
    StatusText { severity: u8, text: Vec<u8> },
    SysStatus { voltage_battery: u16, current_battery: i16, battery_remaining: i8 },
    GpsRawInt {
        fix_type: u8,
        satellites_visible: u8,
        lat: i32,
        lon: i32,
        alt: i32,
        eph: u16,
        epv: u16,
    },
    ParamValue {
        param_id: Vec<u8>,
        param_value_bits: u32,
        param_type: String,
        param_index: u16,
        param_count: u16,
    },
    Other,
}

/// `s` and `t` agree on everything but the vehicle's state.
pub open spec fn same_but_vehicle(s: SessionState, t: SessionState) -> bool {
    &&& t.descriptor == s.descriptor
    &&& t.status == s.status
    &&& t.autopilot_ids == s.autopilot_ids
    &&& t.last_heartbeat_ms == s.last_heartbeat_ms
    &&& t.parameter_cache == s.parameter_cache
    &&& t.pending_parameters == s.pending_parameters
}

/// The vehicle state after a heartbeat: named `SYS-<system id>`, classified
/// by the heartbeat, with the given interval and the heartbeat's flight mode.
pub open spec fn heartbeat_applied(
    before: VehicleStatus,
    after: VehicleStatus,
    system_id: u8,
    mav_type: u8,
    system_status: u8,
    base_mode: u8,
    custom_mode: u32,
    interval: u32,
) -> bool {
    &&& after.vehicle_id.0@ == "SYS-"@ + decimal_text(system_id as nat)
    &&& after.vehicle_type == vehicle_type_of(mav_type)
    &&& after.arming_state == arming_state_of(system_status)
    &&& after.heartbeat_millis == (if interval >= 100 {
        interval
    } else {
        100
    })
    &&& after.flight_mode is Some
    &&& after.flight_mode->Some_0.label@ == flight_mode_label(base_mode, custom_mode)
    &&& after.flight_mode->Some_0.base_mode == base_mode
    &&& after.flight_mode->Some_0.custom_mode == custom_mode
    &&& after.battery == before.battery
    &&& after.gps == before.gps
}

/// The parameter value a message added to a download.
pub open spec fn received_value(out: MessageOutcome, after: SessionState, complete: bool) -> ParameterValue {
    if complete {
        out.completed->Some_0@.last()
    } else {
        after.pending_parameters->Some_0.values@.last()
    }
}

/// Applies a received message to the session at `now_ms` of the session
/// clock (`unix_millis` of the wall clock) and returns what to publish:
/// - a heartbeat marks the connection connected ("heartbeat received"),
///   remembers the sender as the autopilot and updates the vehicle's state;
/// - a status text becomes a mission-log entry from `mavlink`;
/// - a system status updates the battery, a raw GPS report the GPS state;
/// - a parameter value feeds the running download (see `on_parameter_value`),
///   with a batch event when it completes it;
/// - anything else changes nothing.
pub fn handle_mavlink_message(
    state: &mut SessionState,
    header: MavHeader,
    message: MavlinkMessage,
    now_ms: u64,
    unix_millis: i64,
) -> (out: MessageOutcome)
    requires
        old(state).wf(),
    ensures
        final(state).wf(),
        match message {
            MavlinkMessage::Heartbeat { mav_type, system_status, base_mode, custom_mode } => {
                let interval = heartbeat_interval(old(state).last_heartbeat_ms, now_ms);
                &&& final(state).autopilot_ids == Some((header.system_id, header.component_id))
                &&& final(state).status.phase == ConnectionPhase::Connected
                &&& final(state).status.message is Some
                &&& final(state).status.message->Some_0@ == "heartbeat received"@
                &&& final(state).last_heartbeat_ms == Some(now_ms)
                &&& final(state).descriptor == old(state).descriptor
                &&& final(state).parameter_cache == old(state).parameter_cache
                &&& final(state).pending_parameters == old(state).pending_parameters
                &&& heartbeat_applied(
                    old(state).vehicle_status,
                    final(state).vehicle_status,
                    header.system_id,
                    mav_type,
                    system_status,
                    base_mode,
                    custom_mode,
                    interval,
                )
                &&& out.events@ == seq![
                    CoreEvent::ConnectionStatus { status: final(state).status },
                    CoreEvent::Heartbeat { status: final(state).vehicle_status },
                ]
                &&& out.completed is None
            },
            MavlinkMessage::StatusText { severity, text } => {
                &&& *final(state) == *old(state)
                &&& out.events@.len() == 1
                &&& is_log_event(
                    out.events@[0],
                    log_level_of(severity),
                    "mavlink"@,
                    zero_terminated_text(text@),
                    unix_millis,
                )
                &&& out.completed is None
            },
            MavlinkMessage::SysStatus { voltage_battery, current_battery, battery_remaining } => {
                &&& same_but_vehicle(*old(state), *final(state))
                &&& final(state).vehicle_status.battery is Some
                &&& final(state).vehicle_status.battery->Some_0.voltage_mv == voltage_battery
                &&& final(state).vehicle_status.battery->Some_0.current_ca == (if current_battery < 0 {
                    None
                } else {
                    Some(current_battery as u32)
                })
                &&& final(state).vehicle_status.battery->Some_0.remaining_permille == (
                if battery_remaining < 0 {
                    None
                } else {
                    Some(((battery_remaining as int) * 10) as u32)
                })
                &&& final(state).vehicle_status == (VehicleStatus {
                    battery: final(state).vehicle_status.battery,
                    ..old(state).vehicle_status
                })
                &&& out.events@ == seq![CoreEvent::Heartbeat { status: final(state).vehicle_status }]
                &&& out.completed is None
            },
            MavlinkMessage::GpsRawInt { fix_type, satellites_visible, lat, lon, alt, eph, epv } => {
                &&& same_but_vehicle(*old(state), *final(state))
                &&& final(state).vehicle_status.gps is Some
                &&& final(state).vehicle_status.gps == gps_report(
                    fix_type,
                    satellites_visible,
                    lat,
                    lon,
                    alt,
                    eph,
                    epv,
                )
                &&& final(state).vehicle_status == (VehicleStatus {
                    gps: final(state).vehicle_status.gps,
                    ..old(state).vehicle_status
                })
                &&& out.events@ == seq![CoreEvent::Heartbeat { status: final(state).vehicle_status }]
                &&& out.completed is None
            },
            MavlinkMessage::ParamValue {
                param_id,
                param_value_bits,
                param_type,
                param_index,
                param_count,
            } => {
                let announced: Option<usize> = if param_count > 0 {
                    Some(param_count as usize)
                } else {
                    None
                };
                &&& final(state).descriptor == old(state).descriptor
                &&& final(state).status == old(state).status
                &&& final(state).vehicle_status == old(state).vehicle_status
                &&& final(state).autopilot_ids == old(state).autopilot_ids
                &&& final(state).last_heartbeat_ms == old(state).last_heartbeat_ms
                &&& match old(state).pending_parameters {
                    None => {
                        &&& out.events@.len() == 0
                        &&& out.completed is None
                        &&& final(state).pending_parameters is None
                        &&& final(state).parameter_cache == old(state).parameter_cache
                    },
                    Some(p) => {
                        let received = p.values@.len() + 1;
                        let expected = announced_count(p.expected, announced);
                        let complete = expected is Some && received >= expected->Some_0;
                        let value = received_value(out, *final(state), complete);
                        &&& value.name@ == zero_terminated_text(param_id@)
                        &&& value.value_bits == param_value_bits
                        &&& value.param_type == param_type
                        &&& value.index == Some(param_index)
                        &&& out.events@[0] == CoreEvent::ParameterProgress {
                            received: received as usize,
                            expected,
                        }
                        &&& complete ==> {
                            &&& out.completed is Some
                            &&& out.completed->Some_0@ == p.values@.push(value)
                            &&& final(state).parameter_cache@ == p.values@.push(value)
                            &&& final(state).pending_parameters is None
                            &&& out.events@.len() == 2
                            &&& out.events@[1] is ParameterBatch
                            &&& out.events@[1]->parameters@ == p.values@.push(value)
                        }
                        &&& !complete ==> {
                            &&& out.completed is None
                            &&& out.events@.len() == 1
                            &&& final(state).parameter_cache == old(state).parameter_cache
                            &&& final(state).pending_parameters is Some
                            &&& final(state).pending_parameters->Some_0.values@ == p.values@.push(value)
                            &&& final(state).pending_parameters->Some_0.expected == expected
                            &&& final(state).pending_parameters->Some_0.deadline_ms == p.deadline_ms
                        }
                    },
                }
            },
            MavlinkMessage::Other => {
                &&& *final(state) == *old(state)
                &&& out.events@.len() == 0
                &&& out.completed is None
            },
        },
{
    match message {
        MavlinkMessage::Heartbeat { mav_type, system_status, base_mode, custom_mode } => {
            state.set_autopilot_ids(header.system_id, header.component_id);
            let connected = state.set_status(
                ConnectionPhase::Connected,
                Some(String::from_str("heartbeat received")),
            );
            let interval = state.record_heartbeat_interval(now_ms);
            let heartbeat_ms = if interval >= 100 {
                interval
            } else {
                100
            };
            let mut id = String::from_str("SYS-");
            let digits = decimal_string(header.system_id as u64);
            id.append(digits.as_str());
            state.vehicle_status.vehicle_id = VehicleId(id);
            state.vehicle_status.vehicle_type = map_vehicle_type(mav_type);
            state.vehicle_status.arming_state = map_arming_state(system_status);
            state.vehicle_status.heartbeat_millis = heartbeat_ms;
            state.vehicle_status.flight_mode = Some(describe_flight_mode(base_mode, custom_mode));
            let mut events = Vec::new();
            events.push(connected);
            events.push(state.heartbeat_event());
            MessageOutcome { events, completed: None }
        },
        MavlinkMessage::StatusText { severity, text } => {
            let level = map_statustext_severity(severity);
            let line = trim_zero_terminated(text.as_slice());
            let mut events = Vec::new();
            events.push(log_event_at(level, "mavlink", line, unix_millis));
            MessageOutcome { events, completed: None }
        },
        MavlinkMessage::SysStatus { voltage_battery, current_battery, battery_remaining } => {
            let battery = battery_from_sys_status(voltage_battery, current_battery, battery_remaining);
            state.vehicle_status.battery = Some(battery);
            let mut events = Vec::new();
            events.push(state.heartbeat_event());
            MessageOutcome { events, completed: None }
        },
        MavlinkMessage::GpsRawInt { fix_type, satellites_visible, lat, lon, alt, eph, epv } => {
            let mut events = Vec::new();
            if let Some(gps) = gps_from_raw_int(fix_type, satellites_visible, lat, lon, alt, eph, epv) {
                state.vehicle_status.gps = Some(gps);
                events.push(state.heartbeat_event());
            }
            MessageOutcome { events, completed: None }
        },
        MavlinkMessage::ParamValue { param_id, param_value_bits, param_type, param_index, param_count } => {
            let value = ParameterValue {
                name: trim_zero_terminated(param_id.as_slice()),
                value_bits: param_value_bits,
                param_type,
                index: Some(param_index),
            };
            let expected = if param_count > 0 {
                Some(param_count as usize)
            } else {
                None
            };
            let update = state.on_parameter_value(value, expected);
            let mut events = Vec::new();
            if let Some(progress) = update.progress {
                events.push(progress);
            }
            match update.completed {
                Some(completed) => {
                    let batch = completed.clone();
                    events.push(CoreEvent::ParameterBatch { parameters: batch });
                    MessageOutcome { events, completed: Some(completed) }
                },
                None => MessageOutcome { events, completed: None },
            }
        },
        MavlinkMessage::Other => MessageOutcome { events: Vec::new(), completed: None },
    }
}

/// `s` and `t` agree on everything but the connection status.
pub open spec fn same_but_status(s: SessionState, t: SessionState) -> bool {
    &&& t.descriptor == s.descriptor
    &&& t.vehicle_status == s.vehicle_status
    &&& t.autopilot_ids == s.autopilot_ids
    &&& t.last_heartbeat_ms == s.last_heartbeat_ms
    &&& t.parameter_cache == s.parameter_cache
    &&& t.pending_parameters == s.pending_parameters
}

/// `st` is in `phase` with message `text`, for its device.
pub open spec fn status_is(st: SessionState, phase: ConnectionPhase, text: Seq<char>) -> bool {
    &&& st.wf()
    &&& st.status.phase == phase
    &&& st.status.message is Some
    &&& st.status.message->Some_0@ == text
}

/// Opens the simulator session: connected ("simulated link").
pub fn open_simulated_session() -> (r: (SessionState, CoreEvent))
    ensures
        is_simulated_descriptor(r.0.descriptor),
        status_is(r.0, ConnectionPhase::Connected, "simulated link"@),
        crate::domain::is_blank_status(r.0.vehicle_status, "simulator:virtual"@),
        r.0.pending_parameters is None,
        r.0.parameter_cache@.len() == 0,
        r.1 == (CoreEvent::ConnectionStatus { status: r.0.status }),
{
    let mut state = SessionState::new(simulated_descriptor());
    let event = state.set_status(ConnectionPhase::Connected, Some(String::from_str("simulated link")));
    (state, event)
}

/// Opens a session over a transport link for `descriptor`: connecting,
/// "awaiting heartbeat".
pub fn open_link_session(descriptor: DeviceDescriptor) -> (r: (SessionState, CoreEvent))
    ensures
        r.0.descriptor == descriptor,
        status_is(r.0, ConnectionPhase::Connecting, "awaiting heartbeat"@),
        crate::domain::is_blank_status(r.0.vehicle_status, descriptor.id@),
        r.0.autopilot_ids is None,
        r.0.last_heartbeat_ms is None,
        r.0.pending_parameters is None,
        r.0.parameter_cache@.len() == 0,
        r.1 == (CoreEvent::ConnectionStatus { status: r.0.status }),
{
    let mut state = SessionState::new(descriptor);
    let event = state.set_status(ConnectionPhase::Connecting, Some(String::from_str("awaiting heartbeat")));
    (state, event)
}

/// The remaining charge the simulator reports after `counter` ticks, in
/// tenths of a percent: it drains by 0.2% per tick down to 5%.
pub open spec fn simulated_remaining_permille(counter: u32) -> u32 {
    if 1000 - 2 * counter < 50 {
        50
    } else {
        (1000 - 2 * counter) as u32
    }
}

/// The vehicle the simulator reports after `counter` ticks.
pub open spec fn is_simulated_vehicle(v: VehicleStatus, counter: u32, heartbeat_ms: u32) -> bool {
    &&& v.vehicle_id.0@ == "SIM-01"@
    &&& v.vehicle_type == VehicleType::Multirotor
    &&& v.arming_state == ArmingState::Disarmed
    &&& v.heartbeat_millis == heartbeat_ms
    &&& v.flight_mode is Some
    &&& v.flight_mode->Some_0.label@ == "Simulated Hold"@
    &&& v.flight_mode->Some_0.base_mode == (MODE_FLAG_GUIDED_ENABLED | MODE_FLAG_CUSTOM_MODE_ENABLED)
    &&& v.flight_mode->Some_0.custom_mode == 0
    &&& v.battery == Some(
        BatteryStatus {
            voltage_mv: 11400,
            current_ca: Some(210),
            remaining_permille: Some(simulated_remaining_permille(counter)),
        },
    )
    &&& v.gps == Some(
        GpsStatus {
            fix_type: GpsFixType::Fix3D,
            satellites_visible: 12,
            latitude_e7: Some((373_345_000 + 10 * counter) as i64),
            longitude_e7: Some((-1_218_949_000 - 10 * counter) as i64),
            altitude_mm: Some(15_000),
            hdop_cm: Some(90),
            vdop_cm: Some(110),
        },
    )
}

/// The simulated vehicle is a disarmed multirotor named `SIM-01` at every
/// tick; its battery drains from full by 0.2% per tick and never reports
/// less than 5%, so a later tick never shows more charge than an earlier one.
pub proof fn lemma_simulated_vehicle_facts(v: VehicleStatus, counter: u32, heartbeat_ms: u32, later: u32)
    requires
        is_simulated_vehicle(v, counter, heartbeat_ms),
        counter <= later,
    ensures
        v.arming_state == ArmingState::Disarmed,
        v.vehicle_type == VehicleType::Multirotor,
        v.battery is Some,
        v.battery->Some_0.remaining_permille matches Some(r) && 50 <= r <= 1000,
        v.battery->Some_0.remaining_permille matches Some(r) && simulated_remaining_permille(later) <= r,
        counter <= 475 ==> v.battery->Some_0.remaining_permille == Some((1000 - 2 * counter) as u32),
{
}

impl SessionState {
    /// One simulator tick at `now_ms`: advances the tick counter (wrapping),
    /// reports the simulated vehicle with a heartbeat interval of at least
    /// 500 ms, and every fifth tick a diagnostics line.
    pub fn simulated_tick(&mut self, counter: u32, now_ms: u64) -> (r: (u32, Vec<CoreEvent>))
        requires
            old(self).wf(),
        ensures
            final(self).wf(),
            r.0 == (if counter == u32::MAX {
                0
            } else {
                (counter + 1) as u32
            }),
            final(self).last_heartbeat_ms == Some(now_ms),
            final(self).vehicle_status.arming_state == ArmingState::Disarmed,
            final(self).vehicle_status.vehicle_type == VehicleType::Multirotor,
            final(self).vehicle_status.heartbeat_millis >= 500,
            is_simulated_vehicle(
                final(self).vehicle_status,
                r.0,
                if heartbeat_interval(old(self).last_heartbeat_ms, now_ms) >= 500 {
                    heartbeat_interval(old(self).last_heartbeat_ms, now_ms)
                } else {
                    500
                },
            ),
            final(self).descriptor == old(self).descriptor,
            final(self).status == old(self).status,
            final(self).autopilot_ids == old(self).autopilot_ids,
            final(self).parameter_cache == old(self).parameter_cache,
            final(self).pending_parameters == old(self).pending_parameters,
            r.1@[0] == (CoreEvent::Heartbeat { status: final(self).vehicle_status }),
            r.0 % 5 == 0 ==> {
                &&& r.1@.len() == 2
                &&& r.1@[1] is Diagnostics
                &&& r.1@[1]->level == LogLevel::Info
                &&& r.1@[1]->message@ == "simulated telemetry ok"@
            },
            r.0 % 5 != 0 ==> r.1@.len() == 1,
    {
        let counter = counter.wrapping_add(1);
        let interval = self.record_heartbeat_interval(now_ms);
        let heartbeat_ms = if interval >= 500 {
            interval
        } else {
            500
        };
        let drained: i64 = 1000 - 2 * (counter as i64);
        let remaining: u32 = if drained < 50 {
            50
        } else {
            drained as u32
        };
        let base_mode = MODE_FLAG_GUIDED_ENABLED | MODE_FLAG_CUSTOM_MODE_ENABLED;
        self.vehicle_status.vehicle_id = VehicleId(String::from_str("SIM-01"));
        self.vehicle_status.vehicle_type = VehicleType::Multirotor;
        self.vehicle_status.arming_state = ArmingState::Disarmed;
        self.vehicle_status.heartbeat_millis = heartbeat_ms;
        self.vehicle_status.flight_mode = Some(
            FlightMode { label: String::from_str("Simulated Hold"), base_mode, custom_mode: 0 },
        );
        self.vehicle_status.battery = Some(
            BatteryStatus { voltage_mv: 11400, current_ca: Some(210), remaining_permille: Some(remaining) },
        );
        self.vehicle_status.gps = Some(
            GpsStatus {
                fix_type: GpsFixType::Fix3D,
                satellites_visible: 12,
                latitude_e7: Some(373_345_000i64 + 10 * (counter as i64)),
                longitude_e7: Some(-1_218_949_000i64 - 10 * (counter as i64)),
                altitude_mm: Some(15_000),
                hdop_cm: Some(90),
                vdop_cm: Some(110),
            },
        );
        let mut events = Vec::new();
        events.push(self.heartbeat_event());
        if counter % 5 == 0 {
            events.push(
                CoreEvent::Diagnostics {
                    level: LogLevel::Info,
                    message: String::from_str("simulated telemetry ok"),
                },
            );
        }
        (counter, events)
    }

    /// A disconnect request on a session over `link`: the simulator stops
    /// ("simulator stopped", disconnected); a transport link starts closing
    /// ("closing link", or "closing serial link"), and a running parameter
    /// download ends, to be failed with the returned error.
    pub fn close_requested(&mut self, link: LinkKind) -> (r: (CoreEvent, Option<CoreError>))
        requires
            old(self).wf(),
        ensures
            final(self).wf(),
            r.0 == (CoreEvent::ConnectionStatus { status: final(self).status }),
            final(self).descriptor == old(self).descriptor,
            final(self).vehicle_status == old(self).vehicle_status,
            final(self).autopilot_ids == old(self).autopilot_ids,
            final(self).last_heartbeat_ms == old(self).last_heartbeat_ms,
            final(self).parameter_cache == old(self).parameter_cache,
            match link {
                LinkKind::Simulated => {
                    &&& status_is(*final(self), ConnectionPhase::Disconnected, "simulator stopped"@)
                    &&& final(self).pending_parameters == old(self).pending_parameters
                    &&& r.1 is None
                },
                _ => {
                    &&& status_is(
                        *final(self),
                        ConnectionPhase::Disconnecting,
                        if link == LinkKind::Serial {
                            "closing serial link"@
                        } else {
                            "closing link"@
                        },
                    )
                    &&& final(self).pending_parameters is None
                    &&& old(self).pending_parameters is Some ==> r.1 is Some && r.1->Some_0
                        is InvalidArgument && r.1->Some_0->InvalidArgument_0@ == "connection closed"@
                    &&& old(self).pending_parameters is None ==> r.1 is None
                },
            },
    {
        match link {
            LinkKind::Simulated => {
                let e = self.set_status(
                    ConnectionPhase::Disconnected,
                    Some(String::from_str("simulator stopped")),
                );
                (e, None)
            },
            _ => {
                let text = if link == LinkKind::Serial {
                    String::from_str("closing serial link")
                } else {
                    String::from_str("closing link")
                };
                let e = self.set_status(ConnectionPhase::Disconnecting, Some(text));
                if self.fail_parameter_request() {
                    (e, Some(invalid_argument(String::from_str("connection closed"))))
                } else {
                    (e, None)
                }
            },
        }
    }

    /// A transport link failed to receive with `error_text`: the connection
    /// is in error ("recv error: ..." or "serial recv error: ..."), and a
    /// running parameter download ends, to be failed with that text.
    pub fn receive_failed(&mut self, link: LinkKind, error_text: String) -> (r: (CoreEvent, Option<CoreError>))
        requires
            old(self).wf(),
        ensures
            status_is(
                *final(self),
                ConnectionPhase::Error,
                (if link == LinkKind::Serial {
                    "serial recv error: "@
                } else {
                    "recv error: "@
                }) + error_text@,
            ),
            r.0 == (CoreEvent::ConnectionStatus { status: final(self).status }),
            final(self).descriptor == old(self).descriptor,
            final(self).vehicle_status == old(self).vehicle_status,
            final(self).autopilot_ids == old(self).autopilot_ids,
            final(self).last_heartbeat_ms == old(self).last_heartbeat_ms,
            final(self).parameter_cache == old(self).parameter_cache,
            final(self).pending_parameters is None,
            old(self).pending_parameters is Some ==> r.1 == Some(CoreError::Other(error_text)),
            old(self).pending_parameters is None ==> r.1 is None,
    {
        let mut text = if link == LinkKind::Serial {
            String::from_str("serial recv error: ")
        } else {
            String::from_str("recv error: ")
        };
        text.append(error_text.as_str());
        let e = self.set_status(ConnectionPhase::Error, Some(text));
        if self.fail_parameter_request() {
            (e, Some(CoreError::Other(error_text)))
        } else {
            (e, None)
        }
    }

    /// A transport link's loop ended: disconnected ("link closed", or
    /// "serial link closed").
    pub fn link_closed(&mut self, link: LinkKind) -> (e: CoreEvent)
        requires
            old(self).wf(),
        ensures
            status_is(
                *final(self),
                ConnectionPhase::Disconnected,
                if link == LinkKind::Serial {
                    "serial link closed"@
                } else {
                    "link closed"@
                },
            ),
            same_but_status(*old(self), *final(self)),
            e == (CoreEvent::ConnectionStatus { status: final(self).status }),
    {
        let text = if link == LinkKind::Serial {
            String::from_str("serial link closed")
        } else {
            String::from_str("link closed")
        };
        self.set_status(ConnectionPhase::Disconnected, Some(text))
    }

    /// The request for the parameter list went out (`send_error` is None) or
    /// failed to: on success the download's start is published; on failure
    /// the download ends, to be failed with the send error's text.
    pub fn parameter_request_sent(&mut self, send_error: Option<String>) -> (r: (Option<CoreEvent>, Option<CoreError>))
        ensures
            final(self).descriptor == old(self).descriptor,
            final(self).status == old(self).status,
            final(self).vehicle_status == old(self).vehicle_status,
            final(self).autopilot_ids == old(self).autopilot_ids,
            final(self).last_heartbeat_ms == old(self).last_heartbeat_ms,
            final(self).parameter_cache == old(self).parameter_cache,
            match send_error {
                None => {
                    &&& r.0 == Some(CoreEvent::ParameterProgress { received: 0, expected: None })
                    &&& r.1 is None
                    &&& final(self).pending_parameters == old(self).pending_parameters
                },
                Some(text) => {
                    &&& r.0 is None
                    &&& final(self).pending_parameters is None
                    &&& old(self).pending_parameters is Some ==> r.1 == Some(CoreError::Other(text))
                    &&& old(self).pending_parameters is None ==> r.1 is None
                },
            },
    {
        match send_error {
            None => (Some(CoreEvent::ParameterProgress { received: 0, expected: None }), None),
            Some(text) => {
                if self.fail_parameter_request() {
                    (None, Some(CoreError::Other(text)))
                } else {
                    (None, None)
                }
            },
        }
    }
}

/// The parameters the simulator offers: `SYSID_THISMAV` = 1 (int32),
/// `MPC_THR_MIN` = 0.12 and `FW_AIRSPD_TRIM` = 13.5 (float), indexed 0 to 2.
pub open spec fn is_simulated_parameter_list(params: Seq<ParameterValue>) -> bool {
    &&& params.len() == 3
    &&& params[0].name@ == "SYSID_THISMAV"@ && params[0].value_bits == 0x3f80_0000
        && params[0].param_type@ == "int32"@ && params[0].index == Some(0u16)
    &&& params[1].name@ == "MPC_THR_MIN"@ && params[1].value_bits == 0x3df5_c28f
        && params[1].param_type@ == "float"@ && params[1].index == Some(1u16)
    &&& params[2].name@ == "FW_AIRSPD_TRIM"@ && params[2].value_bits == 0x4158_0000
        && params[2].param_type@ == "float"@ && params[2].index == Some(2u16)
}

/// The parameters the simulator offers (see `is_simulated_parameter_list`).
pub fn simulated_parameters() -> (params: Vec<ParameterValue>)
    ensures
        is_simulated_parameter_list(params@),
{
    let mut params = Vec::new();
    params.push(
        ParameterValue {
            name: String::from_str("SYSID_THISMAV"),
            value_bits: 0x3f80_0000,
            param_type: String::from_str("int32"),
            index: Some(0),
        },
    );
    params.push(
        ParameterValue {
            name: String::from_str("MPC_THR_MIN"),
            value_bits: 0x3df5_c28f,
            param_type: String::from_str("float"),
            index: Some(1),
        },
    );
    params.push(
        ParameterValue {
            name: String::from_str("FW_AIRSPD_TRIM"),
            value_bits: 0x4158_0000,
            param_type: String::from_str("float"),
            index: Some(2),
        },
    );
    params
}

/// What the simulator publishes when it answers a parameter request with
/// `params`: complete progress, then the batch.
pub fn simulated_parameter_events(params: &Vec<ParameterValue>) -> (events: Vec<CoreEvent>)
    ensures
        events@.len() == 2,
        events@[0] == (CoreEvent::ParameterProgress {
            received: params@.len() as usize,
            expected: Some(params@.len() as usize),
        }),
        events@[1] is ParameterBatch,
        events@[1]->parameters@ == params@,
{
    let mut events = Vec::new();
    events.push(CoreEvent::ParameterProgress { received: params.len(), expected: Some(params.len()) });
    let batch = params.clone();
    events.push(CoreEvent::ParameterBatch { parameters: batch });
    events
}

impl SessionState {
    /// The simulator answers a parameter request: the list it offers becomes
    /// the parameter cache and is returned to the caller, with the events that
    /// publish it (complete progress, then the batch).
    pub fn answer_simulated_fetch(&mut self) -> (r: (Vec<ParameterValue>, Vec<CoreEvent>))
        requires
            old(self).wf(),
        ensures
            final(self).wf(),
            is_simulated_parameter_list(r.0@),
            final(self).parameter_cache@ == r.0@,
            r.1@.len() == 2,
            r.1@[0] == (CoreEvent::ParameterProgress {
                received: r.0@.len() as usize,
                expected: Some(r.0@.len() as usize),
            }),
            r.1@[1] is ParameterBatch,
            r.1@[1]->parameters@ == r.0@,
            final(self).descriptor == old(self).descriptor,
            final(self).status == old(self).status,
            final(self).vehicle_status == old(self).vehicle_status,
            final(self).autopilot_ids == old(self).autopilot_ids,
            final(self).last_heartbeat_ms == old(self).last_heartbeat_ms,
            final(self).pending_parameters == old(self).pending_parameters,
    {
        let params = simulated_parameters();
        let events = simulated_parameter_events(&params);
        self.parameter_cache = params.clone();
        (params, events)
    }
}

/// Where the active session of the core is kept; `S` is the caller's handle
/// on a running session.
#[derive(Debug)]
pub struct SessionSlot<S> {
    pub session: Option<S>,
}

impl<S> SessionSlot<S> {
    /// No session is active.
    pub fn new() -> (slot: Self)
        ensures
            slot.session is None,
    {
        SessionSlot { session: None }
    }

    /// Whether a new session may be connected: not while one is active.
    pub fn connect_check(&self) -> (r: Result<(), CoreError>)
        ensures
            self.session is None ==> r is Ok,
            self.session is Some ==> r is Err && r->Err_0 is InvalidArgument
                && r->Err_0->InvalidArgument_0@ == "MAVLink session already active"@,
    {
        if self.session.is_some() {
            Err(invalid_argument(String::from_str("MAVLink session already active")))
        } else {
            Ok(())
        }
    }

    /// Makes `session` the active one.
    pub fn install(&mut self, session: S)
        ensures
            final(self).session == Some(session),
    {
        self.session = Some(session);
    }

    /// Removes the active session, for disconnecting it.
    pub fn take(&mut self) -> (s: Option<S>)
        ensures
            s == old(self).session,
            final(self).session is None,
    {
        self.session.take()
    }

    /// The active session, or the error for having none.
    pub fn active(&self) -> (r: Result<&S, CoreError>)
        ensures
            self.session is Some ==> r is Ok && *r->Ok_0 == self.session->Some_0,
            self.session is None ==> r is Err && r->Err_0 is InvalidArgument
                && r->Err_0->InvalidArgument_0@ == "no active MAVLink session"@,
    {
        match &self.session {
            Some(s) => Ok(s),
            None => Err(invalid_argument(String::from_str("no active MAVLink session"))),
        }
    }
}

} // verus!
