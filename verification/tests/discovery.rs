use qgc_core::discovery::{default_udp_descriptor, descriptor_from_serial, DeviceRegistry, SerialPortEntry, UsbPortEntry};
use qgc_core::domain::{DeviceDetails, LinkKind};
use qgc_core::events::CoreEvent;

fn port(name: &str) -> SerialPortEntry {
    SerialPortEntry { port_name: name.to_string(), usb: None }
}

fn usb_port(name: &str) -> SerialPortEntry {
    SerialPortEntry {
        port_name: name.to_string(),
        usb: Some(UsbPortEntry {
            manufacturer: Some("ArduPilot".to_string()),
            product: Some("CubeOrange".to_string()),
            vid: 0x2DAE,
            pid: 0x1016,
        }),
    }
}

fn ids(events: &[CoreEvent]) -> Vec<String> {
    events
        .iter()
        .map(|e| match e {
            CoreEvent::DeviceDiscovered { device } => format!("+{}", device.id),
            CoreEvent::DeviceLost { device } => format!("-{}", device.id),
            CoreEvent::DiscoverySnapshot { devices } => {
                format!("={}", devices.iter().map(|d| d.id.clone()).collect::<Vec<_>>().join(","))
            }
            _ => "?".to_string(),
        })
        .collect()
}

#[test]
fn serial_descriptor_fields() {
    let d = descriptor_from_serial(&usb_port("/dev/ttyACM0"));
    assert_eq!(d.id, "serial:/dev/ttyACM0");
    assert_eq!(d.label, "/dev/ttyACM0");
    assert_eq!(d.transport, LinkKind::Serial);
    match d.details {
        DeviceDetails::Serial { path, manufacturer, product, vid, pid } => {
            assert_eq!(path, "/dev/ttyACM0");
            assert_eq!(manufacturer.as_deref(), Some("ArduPilot"));
            assert_eq!(product.as_deref(), Some("CubeOrange"));
            assert_eq!(vid, Some(0x2DAE));
            assert_eq!(pid, Some(0x1016));
        }
        _ => panic!("not serial"),
    }
    match descriptor_from_serial(&port("COM3")).details {
        DeviceDetails::Serial { manufacturer, product, vid, pid, .. } => {
            assert!(manufacturer.is_none() && product.is_none() && vid.is_none() && pid.is_none());
        }
        _ => panic!("not serial"),
    }
}

#[test]
fn default_udp_endpoint() {
    let d = default_udp_descriptor();
    assert_eq!(d.id, "udp:14550");
    assert_eq!(d.label, "UDP 0.0.0.0:14550");
    assert_eq!(d.transport, LinkKind::Udp);
    match d.details {
        DeviceDetails::Udp { bind, target_host, target_port } => {
            assert_eq!(bind, "0.0.0.0:14550");
            assert!(target_host.is_none() && target_port.is_none());
        }
        _ => panic!("not udp"),
    }
}

#[test]
fn snapshot_offers_default_udp() {
    let registry = DeviceRegistry::new();
    let snap = registry.snapshot();
    assert_eq!(snap.len(), 1);
    assert_eq!(snap[0].id, "udp:14550");
}

#[test]
fn first_scan_discovers_everything() {
    let mut registry = DeviceRegistry::new();
    let events = registry.refresh(&vec![port("/dev/ttyUSB0"), usb_port("/dev/ttyACM0")]);
    assert_eq!(
        ids(&events),
        vec![
            "+serial:/dev/ttyUSB0",
            "+serial:/dev/ttyACM0",
            "+udp:14550",
            "=serial:/dev/ttyUSB0,serial:/dev/ttyACM0,udp:14550",
        ]
    );
    assert_eq!(registry.snapshot().len(), 3);
}

#[test]
fn rescan_reports_no_change() {
    let mut registry = DeviceRegistry::new();
    let ports = vec![port("/dev/ttyUSB0")];
    registry.refresh(&ports);
    let events = registry.refresh(&ports);
    assert_eq!(ids(&events), vec!["=serial:/dev/ttyUSB0,udp:14550"]);
}

#[test]
fn unplugged_port_is_lost_and_new_one_found() {
    let mut registry = DeviceRegistry::new();
    registry.refresh(&vec![port("/dev/ttyUSB0"), port("/dev/ttyUSB1")]);
    let events = registry.refresh(&vec![port("/dev/ttyUSB1"), port("/dev/ttyUSB2")]);
    assert_eq!(
        ids(&events),
        vec![
            "+serial:/dev/ttyUSB2",
            "-serial:/dev/ttyUSB0",
            "=serial:/dev/ttyUSB1,serial:/dev/ttyUSB2,udp:14550",
        ]
    );
}

#[test]
fn duplicate_port_names_keep_the_last() {
    let mut registry = DeviceRegistry::new();
    let events = registry.refresh(&vec![port("COM1"), usb_port("COM1")]);
    assert_eq!(ids(&events), vec!["+serial:COM1", "+udp:14550", "=serial:COM1,udp:14550"]);
    match &registry.devices[0].details {
        DeviceDetails::Serial { vid, .. } => assert_eq!(*vid, Some(0x2DAE)),
        _ => panic!("not serial"),
    }
}

#[test]
fn empty_scan_keeps_default_udp() {
    let mut registry = DeviceRegistry::new();
    registry.refresh(&vec![port("COM1")]);
    let events = registry.refresh(&vec![]);
    assert_eq!(ids(&events), vec!["-serial:COM1", "=udp:14550"]);
}
