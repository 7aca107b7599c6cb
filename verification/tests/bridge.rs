use qgc_core::discovery::{DeviceRegistry, SerialPortEntry};
use qgc_core::domain::{self, DeviceDetails, LinkKind};
use qgc_core::error::CoreError;
use qgc_core::mavlink::LinkConfig;
use qgc_core::{connect_link, descriptor_from_options, list_devices, ConnectOptions, DeviceDescriptor};

fn known() -> Vec<domain::DeviceDescriptor> {
    let mut registry = DeviceRegistry::new();
    registry.refresh(&vec![SerialPortEntry { port_name: "/dev/ttyUSB0".into(), usb: None }]);
    registry.snapshot()
}

#[test]
fn flattening_devices() {
    let flat = DeviceDescriptor::from(known().remove(0));
    assert_eq!(flat.id, "serial:/dev/ttyUSB0");
    assert_eq!(flat.serial_path.as_deref(), Some("/dev/ttyUSB0"));
    assert!(flat.udp_bind.is_none());
    let flat = DeviceDescriptor::from(known().remove(1));
    assert_eq!(flat.udp_bind.as_deref(), Some("0.0.0.0:14550"));
    assert!(flat.serial_path.is_none() && flat.vid.is_none());
    assert_eq!(flat.transport, LinkKind::Udp);
}

#[test]
fn listing_devices() {
    let registry = DeviceRegistry::new();
    let list = list_devices(&registry);
    assert_eq!(list.len(), 1);
    assert_eq!(list[0].id, "udp:14550");
}

#[test]
fn forced_simulator() {
    let mut o = ConnectOptions::empty();
    o.force_simulated = Some(true);
    o.link = Some(LinkKind::Serial);
    let d = descriptor_from_options(&o, &known()).unwrap();
    assert_eq!(d.id, "simulator:virtual");
}

#[test]
fn known_device_by_id() {
    let mut o = ConnectOptions::empty();
    o.device_id = Some("serial:/dev/ttyUSB0".into());
    let d = descriptor_from_options(&o, &known()).unwrap();
    assert_eq!(d.label, "/dev/ttyUSB0");
    assert_eq!(d.transport, LinkKind::Serial);
}

#[test]
fn new_serial_device() {
    let mut o = ConnectOptions::empty();
    o.link = Some(LinkKind::Serial);
    o.serial_path = Some("COM4".into());
    let d = descriptor_from_options(&o, &known()).unwrap();
    assert_eq!(d.id, "serial:COM4");
    assert_eq!(d.label, "Serial COM4");
    o.label = Some("Radio".into());
    o.device_id = Some("radio".into());
    let d = descriptor_from_options(&o, &known()).unwrap();
    assert_eq!(d.id, "radio");
    assert_eq!(d.label, "Radio");
    match d.details {
        DeviceDetails::Serial { path, .. } => assert_eq!(path, "COM4"),
        _ => panic!("serial expected"),
    }
}

#[test]
fn serial_without_path_is_refused() {
    let mut o = ConnectOptions::empty();
    o.link = Some(LinkKind::Serial);
    match descriptor_from_options(&o, &known()) {
        Err(CoreError::InvalidArgument(m)) => assert_eq!(m, "serial_path required for serial connections"),
        other => panic!("unexpected {:?}", other),
    }
}

#[test]
fn udp_defaults() {
    let o = ConnectOptions::empty();
    let d = descriptor_from_options(&o, &known()).unwrap();
    assert_eq!(d.id, "udp:0.0.0.0:14550");
    assert_eq!(d.label, "UDP 0.0.0.0:14550");
    let d = descriptor_from_options(&o, &vec![]).unwrap();
    assert_eq!(d.id, "udp:0.0.0.0:14550");
    let mut o = ConnectOptions::empty();
    o.udp_bind = Some("127.0.0.1:14551".into());
    o.udp_target_host = Some("10.0.0.2".into());
    o.udp_target_port = Some(14555);
    let d = descriptor_from_options(&o, &known()).unwrap();
    assert_eq!(d.id, "udp:127.0.0.1:14551");
    match d.details {
        DeviceDetails::Udp { bind, target_host, target_port } => {
            assert_eq!(bind, "127.0.0.1:14551");
            assert_eq!(target_host.as_deref(), Some("10.0.0.2"));
            assert_eq!(target_port, Some(14555));
        }
        _ => panic!("udp expected"),
    }
}

#[test]
fn connect_link_applies_baud() {
    let mut o = ConnectOptions::empty();
    o.link = Some(LinkKind::Serial);
    o.serial_path = Some("COM4".into());
    o.serial_baud = Some(57600);
    match connect_link(Some(o), &known()).unwrap() {
        LinkConfig::Serial { baud, descriptor } => {
            assert_eq!(baud, 57600);
            assert_eq!(descriptor.id, "serial:COM4");
        }
        _ => panic!("serial expected"),
    }
    match connect_link(None, &known()).unwrap() {
        LinkConfig::Udp { descriptor } => assert_eq!(descriptor.id, "udp:0.0.0.0:14550"),
        _ => panic!("udp expected"),
    }
    let mut o = ConnectOptions::empty();
    o.link = Some(LinkKind::Simulated);
    assert!(matches!(connect_link(Some(o), &known()).unwrap(), LinkConfig::Simulated));
}
