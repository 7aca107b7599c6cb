//! Core of a ground-control station: the vehicle domain model, device
//! discovery bookkeeping, MAVLink session decisions and the shapes handed to
//! the desktop shell.

mod clock;
pub mod discovery;
pub mod domain;
pub mod error;
pub mod events;
pub mod mavlink;
pub mod telemetry;
pub mod text;

use vstd::prelude::*;
use crate::discovery::{has_id, DeviceRegistry};
use crate::domain::{ArmingState, DeviceDetails, FlightMode, LinkKind, VehicleId, VehicleStatus, VehicleType};
use crate::error::{invalid_argument, timeout, CoreError};
use crate::mavlink::{is_simulated_descriptor, resolve_link, resolves_to, simulated_descriptor, LinkConfig};
use crate::text::{decimal_string, decimal_text};

verus! {

/// A short message returned to the shell.
#[derive(Debug)]
pub struct StatusMessage {
    pub kind: String,
    pub message: String,
}

impl StatusMessage {
    pub fn new(kind: String, message: String) -> (m: Self)
        ensures
            m.kind == kind,
            m.message == message,
    {
        StatusMessage { kind, message }
    }
}

/// The health report: the core is loaded.
pub fn health_check_impl() -> (r: Result<StatusMessage, CoreError>)
    ensures
        r is Ok,
        r->Ok_0.kind@ == "health"@,
        r->Ok_0.message@ == "rust-core napi module loaded"@,
{
    Ok(StatusMessage::new(String::from_str("health"), String::from_str("rust-core napi module loaded")))
}

/// The wait of a diagnostics run: `timeout_ms` or 50 ms; zero is refused
/// as an invalid argument, more than 5000 ms as a timeout of that length.
pub fn check_diagnostics_timeout(timeout_ms: Option<u32>) -> (r: Result<u32, CoreError>)
    ensures
        ({
            let t = match timeout_ms {
                Some(t) => t,
                None => 50u32,
            };
            &&& t == 0 ==> r is Err && r->Err_0 is InvalidArgument
                && r->Err_0->InvalidArgument_0@ == "timeout must be greater than 0 ms"@
            &&& t > 5000 ==> r == Err::<u32, CoreError>(CoreError::Timeout(t as u64))
            &&& 0 < t <= 5000 ==> r == Ok::<u32, CoreError>(t)
        }),
{
    let timeout_value = match timeout_ms {
        Some(t) => t,
        None => 50,
    };
    if timeout_value == 0 {
        return Err(invalid_argument(String::from_str("timeout must be greater than 0 ms")));
    }
    if timeout_value > 5_000 {
        return Err(timeout(timeout_value as u64));
    }
    Ok(timeout_value)
}

/// The report of a diagnostics run that waited `waited_ms`.
pub fn diagnostics_report(waited_ms: u32) -> (m: StatusMessage)
    ensures
        m.kind@ == "diagnostic"@,
        m.message@ == "completed after "@ + decimal_text(waited_ms as nat) + " ms"@,
{
    let mut message = String::from_str("completed after ");
    let digits = decimal_string(waited_ms as u64);
    message.append(digits.as_str());
    message.append(" ms");
    StatusMessage::new(String::from_str("diagnostic"), message)
}

/// The vehicle state shown before any vehicle reported: the placeholder
/// `UNKNOWN` vehicle is replaced by a disarmed multirotor `SIM-01` in
/// "Standby"; any other state is shown as it is.
pub fn bootstrap_vehicle_status(status: VehicleStatus) -> (s: VehicleStatus)
    ensures
        status.vehicle_id.0@ != "UNKNOWN"@ ==> s == status,
        status.vehicle_id.0@ == "UNKNOWN"@ ==> {
            &&& s.vehicle_id.0@ == "SIM-01"@
            &&& s.vehicle_type == VehicleType::Multirotor
            &&& s.arming_state == ArmingState::Disarmed
            &&& s.heartbeat_millis == 0
            &&& s.flight_mode is Some
            &&& s.flight_mode->Some_0.label@ == "Standby"@
            &&& s.flight_mode->Some_0.base_mode == 0
            &&& s.flight_mode->Some_0.custom_mode == 0
            &&& s.battery is None
            &&& s.gps is None
        },
{
    let unknown = String::from_str("UNKNOWN");
    if status.vehicle_id.0 == unknown {
        let mut bootstrap = VehicleStatus::new(VehicleId(String::from_str("SIM-01")));
        bootstrap.vehicle_type = VehicleType::Multirotor;
        bootstrap.arming_state = ArmingState::Disarmed;
        bootstrap.heartbeat_millis = 0;
        bootstrap.flight_mode = Some(
            FlightMode { label: String::from_str("Standby"), base_mode: 0, custom_mode: 0 },
        );
        return bootstrap;
    }
    status
}

/// Always fails, for exercising the shell's error path.
pub fn simulate_failure() -> (r: Result<(), CoreError>)
    ensures
        r is Err,
        r->Err_0 is Other,
        r->Err_0->Other_0@ == "forced failure for diagnostics"@,
{
    Err(CoreError::Other(String::from_str("forced failure for diagnostics")))
}

/// Describes the event channel to the shell.
pub fn describe_status_channel() -> (s: String)
    ensures
        s@ == "Rust core emits JSON envelopes with { level, kind, message } fields."@,
{
    String::from_str("Rust core emits JSON envelopes with { level, kind, message } fields.")
}

/// The polling interval of the device watch: `interval_ms` (1500 ms by
/// default) kept between 250 ms and 10 s.
pub fn device_watch_interval(interval_ms: Option<u32>) -> (ms: u32)
    ensures
        ({
            let wanted = match interval_ms {
                Some(v) => v,
                None => 1500u32,
            };
            ms == (if wanted < 250 {
                250
            } else if wanted > 10_000 {
                10_000
            } else {
                wanted
            })
        }),
{
    let wanted = match interval_ms {
        Some(v) => v,
        None => 1_500,
    };
    if wanted < 250 {
        250
    } else if wanted > 10_000 {
        10_000
    } else {
        wanted
    }
}

/// A device as the shell sees it: the transport details flattened into
/// optional fields.
#[derive(Debug)]
pub struct DeviceDescriptor {
    pub id: String,
    pub label: String,
    pub transport: LinkKind,
    pub serial_path: Option<String>,
    pub manufacturer: Option<String>,
    pub product: Option<String>,
    pub vid: Option<u16>,
    pub pid: Option<u16>,
    pub udp_bind: Option<String>,
    pub udp_target_host: Option<String>,
    pub udp_target_port: Option<u16>,
}

/// The flattened form of a domain device.
pub open spec fn flat_descriptor(d: domain::DeviceDescriptor) -> DeviceDescriptor {
    match d.details {
        DeviceDetails::Simulated => DeviceDescriptor {
            id: d.id,
            label: d.label,
            transport: d.transport,
            serial_path: None,
            manufacturer: None,
            product: None,
            vid: None,
            pid: None,
            udp_bind: None,
            udp_target_host: None,
            udp_target_port: None,
        },
        DeviceDetails::Serial { path, manufacturer, product, vid, pid } => DeviceDescriptor {
            id: d.id,
            label: d.label,
            transport: d.transport,
            serial_path: Some(path),
            manufacturer,
            product,
            vid,
            pid,
            udp_bind: None,
            udp_target_host: None,
            udp_target_port: None,
        },
        DeviceDetails::Udp { bind, target_host, target_port } => DeviceDescriptor {
            id: d.id,
            label: d.label,
            transport: d.transport,
            serial_path: None,
            manufacturer: None,
            product: None,
            vid: None,
            pid: None,
            udp_bind: Some(bind),
            udp_target_host: target_host,
            udp_target_port: target_port,
        },
    }
}

/// Flattening keeps a device's identity and puts each detail in its own
/// field: a serial device's path, manufacturer, product, vendor id and
/// product id land in `serial_path`, `manufacturer`, `product`, `vid` and
/// `pid`, a UDP device's bind address, target host and port in the UDP
/// fields, and every field the device's kind has no detail for stays empty.
pub proof fn lemma_flat_descriptor_keeps_each_field(d: domain::DeviceDescriptor)
    ensures
        flat_descriptor(d).id == d.id,
        flat_descriptor(d).label == d.label,
        flat_descriptor(d).transport == d.transport,
        d.details matches DeviceDetails::Serial { path, manufacturer, product, vid, pid } ==> {
            let f = flat_descriptor(d);
            &&& f.serial_path == Some(path)
            &&& f.manufacturer == manufacturer
            &&& f.product == product
            &&& f.vid == vid
            &&& f.pid == pid
            &&& f.udp_bind is None && f.udp_target_host is None && f.udp_target_port is None
        },
        d.details matches DeviceDetails::Udp { bind, target_host, target_port } ==> {
            let f = flat_descriptor(d);
            &&& f.udp_bind == Some(bind)
            &&& f.udp_target_host == target_host
            &&& f.udp_target_port == target_port
            &&& f.serial_path is None && f.manufacturer is None && f.product is None
            &&& f.vid is None && f.pid is None
        },
        d.details is Simulated ==> {
            let f = flat_descriptor(d);
            &&& f.serial_path is None && f.manufacturer is None && f.product is None
            &&& f.vid is None && f.pid is None
            &&& f.udp_bind is None && f.udp_target_host is None && f.udp_target_port is None
        },
{
}

impl vstd::std_specs::convert::FromSpecImpl<domain::DeviceDescriptor> for DeviceDescriptor {
    open spec fn obeys_from_spec() -> bool {
        true
    }

    open spec fn from_spec(v: domain::DeviceDescriptor) -> Self {
        flat_descriptor(v)
    }
}

impl From<domain::DeviceDescriptor> for DeviceDescriptor {
    /// Flattens a domain device: serial details fill the serial fields, UDP
    /// details the UDP fields, and the others stay empty.
    fn from(descriptor: domain::DeviceDescriptor) -> (d: Self) {
        let mut result = DeviceDescriptor {
            id: descriptor.id,
            label: descriptor.label,
            transport: descriptor.transport,
            serial_path: None,
            manufacturer: None,
            product: None,
            vid: None,
            pid: None,
            udp_bind: None,
            udp_target_host: None,
            udp_target_port: None,
        };
        match descriptor.details {
            DeviceDetails::Simulated => {},
            DeviceDetails::Serial { path, manufacturer, product, vid, pid } => {
                result.serial_path = Some(path);
                result.manufacturer = manufacturer;
                result.product = product;
                result.vid = vid;
                result.pid = pid;
            },
            DeviceDetails::Udp { bind, target_host, target_port } => {
                result.udp_bind = Some(bind);
                result.udp_target_host = target_host;
                result.udp_target_port = target_port;
            },
        }
        result
    }
}

/// The devices the shell is offered: the known devices (see
/// `DeviceRegistry::snapshot`), flattened.
pub fn list_devices(registry: &DeviceRegistry) -> (r: Vec<DeviceDescriptor>)
    ensures
        ({
            let known = registry.devices@;
            if has_id(known, discovery::default_udp_id()) {
                &&& r@.len() == known.len()
                &&& forall|i: int| 0 <= i < known.len() ==> r@[i] == flat_descriptor(#[trigger] known[i])
            } else {
                &&& r@.len() == known.len() + 1
                &&& forall|i: int| 0 <= i < known.len() ==> r@[i] == flat_descriptor(#[trigger] known[i])
                &&& exists|d: domain::DeviceDescriptor|
                    discovery::is_default_udp(d) && r@[known.len() as int] == flat_descriptor(d)
            }
        }),
{
    let devices = registry.snapshot();
    let ghost snap = devices@;
    let mut result: Vec<DeviceDescriptor> = Vec::new();
    let mut i: usize = 0;
    while i < devices.len()
        invariant
            i <= snap.len(),
            snap == devices@,
            result@.len() == i,
            forall|k: int| 0 <= k < i ==> result@[k] == flat_descriptor(#[trigger] snap[k]),
        decreases snap.len() - i,
    {
        let d = devices[i].clone();
        result.push(DeviceDescriptor::from(d));
        i = i + 1;
    }
    proof {
        if !has_id(registry.devices@, discovery::default_udp_id()) {
            assert forall|k: int| 0 <= k < registry.devices@.len() implies result@[k] == flat_descriptor(
                #[trigger] registry.devices@[k],
            ) by {}
        }
    }
    result
}

/// How the shell asks for a connection.
#[derive(Debug)]
pub struct ConnectOptions {
    pub link: Option<LinkKind>,
    pub device_id: Option<String>,
    pub serial_path: Option<String>,
    pub serial_baud: Option<u32>,
    pub udp_bind: Option<String>,
    pub udp_target_host: Option<String>,
    pub udp_target_port: Option<u16>,
    pub label: Option<String>,
    pub force_simulated: Option<bool>,
}

impl ConnectOptions {
    /// Options that ask for nothing in particular.
    pub fn empty() -> (o: Self)
        ensures
            o.link is None && o.device_id is None && o.serial_path is None && o.serial_baud is None,
            o.udp_bind is None && o.udp_target_host is None && o.udp_target_port is None,
            o.label is None && o.force_simulated is None,
    {
        ConnectOptions {
            link: None,
            device_id: None,
            serial_path: None,
            serial_baud: None,
            udp_bind: None,
            udp_target_host: None,
            udp_target_port: None,
            label: None,
            force_simulated: None,
        }
    }
}

/// Entry `i` is the first of `known` with identifier `id`.
pub open spec fn is_first_with_id(known: Seq<domain::DeviceDescriptor>, i: int, id: Seq<char>) -> bool {
    &&& 0 <= i < known.len()
    &&& known[i].id@ == id
    &&& forall|k: int| 0 <= k < i ==> (#[trigger] known[k]).id@ != id
}

/// Entry `i` is the first UDP device of `known`.
pub open spec fn is_first_udp(known: Seq<domain::DeviceDescriptor>, i: int) -> bool {
    &&& 0 <= i < known.len()
    &&& known[i].details is Udp
    &&& forall|k: int| 0 <= k < i ==> !((#[trigger] known[k]).details is Udp)
}

/// Some entry of `known` is a UDP device.
pub open spec fn has_udp(known: Seq<domain::DeviceDescriptor>) -> bool {
    exists|i: int| 0 <= i < known.len() && (#[trigger] known[i]).details is Udp
}

/// The simulator is forced.
pub open spec fn forces_simulator(o: ConnectOptions) -> bool {
    o.force_simulated == Some(true)
}

/// The options name a known device.
pub open spec fn names_known_device(o: ConnectOptions, known: Seq<domain::DeviceDescriptor>) -> bool {
    o.device_id is Some && has_id(known, o.device_id->Some_0@)
}

/// The transport asked for, UDP by default.
pub open spec fn requested_link(o: ConnectOptions) -> LinkKind {
    match o.link {
        Some(k) => k,
        None => LinkKind::Udp,
    }
}

/// The options cannot be served: a new serial device without a path.
pub open spec fn options_refused(o: ConnectOptions, known: Seq<domain::DeviceDescriptor>) -> bool {
    &&& !forces_simulator(o)
    &&& !names_known_device(o, known)
    &&& requested_link(o) == LinkKind::Serial
    &&& o.serial_path is None
}

/// `text` given, or `fallback`.
pub open spec fn or_text(text: Option<String>, fallback: Seq<char>) -> Seq<char> {
    match text {
        Some(t) => t@,
        None => fallback,
    }
}

/// `d` is the device the options ask for (when they are not refused): the
/// simulator when forced or asked for; a known device named by identifier;
/// otherwise a new serial device at the given path, or a new UDP device at
/// the given bind address, else that of the first known UDP device, else
/// all interfaces at port 14550. A new device is named `serial:<path>` /
/// `udp:<bind>` and labelled `Serial <path>` / `UDP <bind>` unless the
/// options name and label it.
pub open spec fn describes_options(
    d: domain::DeviceDescriptor,
    o: ConnectOptions,
    known: Seq<domain::DeviceDescriptor>,
) -> bool {
    if forces_simulator(o) {
        is_simulated_descriptor(d)
    } else if names_known_device(o, known) {
        exists|i: int| is_first_with_id(known, i, o.device_id->Some_0@) && d == known[i]
    } else {
        match requested_link(o) {
            LinkKind::Simulated => is_simulated_descriptor(d),
            LinkKind::Serial => {
                let path = o.serial_path->Some_0@;
                &&& d.id@ == or_text(o.device_id, "serial:"@ + path)
                &&& d.label@ == or_text(o.label, "Serial "@ + path)
                &&& d.transport == LinkKind::Serial
                &&& d.details is Serial
                &&& d.details->path@ == path
                &&& d.details->manufacturer is None
                &&& d.details->product is None
                &&& d.details->vid is None
                &&& d.details->pid is None
            },
            LinkKind::Udp => {
                let bind = match o.udp_bind {
                    Some(b) => b@,
                    None => if has_udp(known) {
                        known[choose|i: int| is_first_udp(known, i)].details->bind@
                    } else {
                        "0.0.0.0:14550"@
                    },
                };
                &&& d.id@ == or_text(o.device_id, "udp:"@ + bind)
                &&& d.label@ == or_text(o.label, "UDP "@ + bind)
                &&& d.transport == LinkKind::Udp
                &&& d.details is Udp
                &&& d.details->bind@ == bind
                &&& d.details->target_host == o.udp_target_host
                &&& d.details->target_port == o.udp_target_port
            },
        }
    }
}

proof fn lemma_first_udp_unique(known: Seq<domain::DeviceDescriptor>, i: int)
    requires
        is_first_udp(known, i),
    ensures
        has_udp(known),
        (choose|j: int| is_first_udp(known, j)) == i,
{
}

/// The bind address of the first UDP device of `known`, if any.
fn first_udp_bind(known: &Vec<domain::DeviceDescriptor>) -> (r: Option<String>)
    ensures
        has_udp(known@) ==> r is Some && r->Some_0@ == known@[choose|i: int| is_first_udp(known@, i)].details->bind@,
        !has_udp(known@) ==> r is None,
{
    let mut i: usize = 0;
    while i < known.len()
        invariant
            i <= known@.len(),
            forall|k: int| 0 <= k < i ==> !((#[trigger] known@[k]).details is Udp),
        decreases known@.len() - i,
    {
        if let DeviceDetails::Udp { bind, .. } = &known[i].details {
            proof {
                lemma_first_udp_unique(known@, i as int);
            }
            return Some(bind.clone());
        }
        i = i + 1;
    }
    None
}

/// The device the connection options ask for, among the `known_devices`.
pub fn descriptor_from_options(options: &ConnectOptions, known_devices: &Vec<domain::DeviceDescriptor>) -> (r:
    Result<domain::DeviceDescriptor, CoreError>)
    ensures
        options_refused(*options, known_devices@) ==> r is Err && r->Err_0 is InvalidArgument
            && r->Err_0->InvalidArgument_0@ == "serial_path required for serial connections"@,
        !options_refused(*options, known_devices@) ==> r is Ok && describes_options(
            r->Ok_0,
            *options,
            known_devices@,
        ),
{
    let ghost known = known_devices@;
    let forced = match options.force_simulated {
        Some(b) => b,
        None => false,
    };
    if forced {
        return Ok(simulated_descriptor());
    }
    if let Some(id) = &options.device_id {
        let mut i: usize = 0;
        while i < known_devices.len()
            invariant
                i <= known.len(),
                known == known_devices@,
                options.device_id == Some(*id),
                !forces_simulator(*options),
                forall|k: int| 0 <= k < i ==> (#[trigger] known[k]).id@ != id@,
            decreases known.len() - i,
        {
            if known_devices[i].id == *id {
                let d = known_devices[i].clone();
                return Ok(d);
            }
            i = i + 1;
        }
    }
    let requested = match options.link {
        Some(k) => k,
        None => LinkKind::Udp,
    };
    match requested {
        LinkKind::Simulated => Ok(simulated_descriptor()),
        LinkKind::Serial => {
            let path = match &options.serial_path {
                Some(p) => p.clone(),
                None => {
                    return Err(invalid_argument(String::from_str("serial_path required for serial connections")));
                },
            };
            let label = match &options.label {
                Some(l) => l.clone(),
                None => {
                    let mut l = String::from_str("Serial ");
                    l.append(path.as_str());
                    l
                },
            };
            let id = match &options.device_id {
                Some(id) => id.clone(),
                None => {
                    let mut id = String::from_str("serial:");
                    id.append(path.as_str());
                    id
                },
            };
            Ok(
                domain::DeviceDescriptor {
                    id,
                    label,
                    transport: LinkKind::Serial,
                    details: DeviceDetails::Serial {
                        path,
                        manufacturer: None,
                        product: None,
                        vid: None,
                        pid: None,
                    },
                },
            )
        },
        LinkKind::Udp => {
            let bind = match &options.udp_bind {
                Some(b) => b.clone(),
                None => {
                    let found = first_udp_bind(known_devices);
                    match found {
                        Some(b) => b,
                        None => String::from_str("0.0.0.0:14550"),
                    }
                },
            };
            let label = match &options.label {
                Some(l) => l.clone(),
                None => {
                    let mut l = String::from_str("UDP ");
                    l.append(bind.as_str());
                    l
                },
            };
            let id = match &options.device_id {
                Some(id) => id.clone(),
                None => {
                    let mut id = String::from_str("udp:");
                    id.append(bind.as_str());
                    id
                },
            };
            Ok(
                domain::DeviceDescriptor {
                    id,
                    label,
                    transport: LinkKind::Udp,
                    details: DeviceDetails::Udp {
                        bind,
                        target_host: options.udp_target_host.clone(),
                        target_port: options.udp_target_port,
                    },
                },
            )
        },
    }
}

/// `link` is `resolved` with the serial baud rate replaced by `baud` when given.
pub open spec fn with_baud(resolved: LinkConfig, baud: Option<u32>, link: LinkConfig) -> bool {
    match resolved {
        LinkConfig::Serial { descriptor, baud: default_baud } => link == LinkConfig::Serial {
            descriptor,
            baud: match baud {
                Some(b) => b,
                None => default_baud,
            },
        },
        _ => link == resolved,
    }
}

/// The link a connection request asks for: the device of the options (no
/// options: the defaults), its link, and the requested serial baud rate.
pub fn connect_link(options: Option<ConnectOptions>, known_devices: &Vec<domain::DeviceDescriptor>) -> (r:
    Result<LinkConfig, CoreError>)
    ensures
        ({
            let o = match options {
                Some(o) => o,
                None => ConnectOptions {
                    link: None,
                    device_id: None,
                    serial_path: None,
                    serial_baud: None,
                    udp_bind: None,
                    udp_target_host: None,
                    udp_target_port: None,
                    label: None,
                    force_simulated: None,
                },
            };
            &&& options_refused(o, known_devices@) ==> r is Err && r->Err_0 is InvalidArgument
                && r->Err_0->InvalidArgument_0@ == "serial_path required for serial connections"@
            &&& !options_refused(o, known_devices@) ==> r is Ok && exists|d: domain::DeviceDescriptor, resolved: LinkConfig|
                describes_options(d, o, known_devices@) && resolves_to(d, resolved) && with_baud(
                    resolved,
                    o.serial_baud,
                    r->Ok_0,
                )
        }),
{
    let options = match options {
        Some(o) => o,
        None => ConnectOptions::empty(),
    };
    let descriptor = descriptor_from_options(&options, known_devices)?;
    let link = resolve_link(&descriptor);
    let ghost resolved = link;
    let link = match link {
        LinkConfig::Serial { descriptor, baud } => {
            let baud = match options.serial_baud {
                Some(custom) => custom,
                None => baud,
            };
            LinkConfig::Serial { descriptor, baud }
        },
        other => other,
    };
    Ok(link)
}

} // verus!
