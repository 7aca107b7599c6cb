use qgc_core::domain::{
    ArmingState, ConnectionPhase, ConnectionStatus, DeviceDescriptor, DeviceDetails, DomainError, LinkKind,
    MissionFrame, MissionItem, MissionPlan, MissionSyncStage, MissionSyncStatus, ParameterValue, VehicleId,
    VehicleStatus, VehicleType,
};
use qgc_core::text::{decimal_string, hex_string, join_strs, trim_zero_terminated};

#[test]
fn decimal_and_hex_rendering() {
    assert_eq!(decimal_string(0), "0");
    assert_eq!(decimal_string(7), "7");
    assert_eq!(decimal_string(1234567890), "1234567890");
    assert_eq!(decimal_string(u64::MAX), u64::MAX.to_string());
    assert_eq!(hex_string(0), "0");
    assert_eq!(hex_string(255), "FF");
    assert_eq!(hex_string(0xDEAD_BEEF), "DEADBEEF");
}

#[test]
fn joining_strings() {
    assert_eq!(join_strs(&vec![], ", "), "");
    assert_eq!(join_strs(&vec!["a"], ", "), "a");
    assert_eq!(join_strs(&vec!["a", "b", "c"], "-"), "a-b-c");
}

#[test]
fn zero_terminated_fields() {
    assert_eq!(trim_zero_terminated(b"ARMING_CHECK\0\0\0\0"), "ARMING_CHECK");
    assert_eq!(trim_zero_terminated(b"  hello world \0garbage"), "hello world");
    assert_eq!(trim_zero_terminated(b"no terminator"), "no terminator");
    assert_eq!(trim_zero_terminated(b"\0hidden"), "");
    assert_eq!(trim_zero_terminated(b""), "");
    assert_eq!(trim_zero_terminated(b"bad\xffbyte\0"), "bad\u{fffd}byte");
}

#[test]
fn vehicle_status_defaults() {
    let s = VehicleStatus::default();
    assert_eq!(s.vehicle_id.as_str(), "UNKNOWN");
    assert_eq!(s.vehicle_type, VehicleType::Unknown);
    assert_eq!(s.arming_state, ArmingState::Unknown);
    assert_eq!(s.heartbeat_millis, 0);
    assert!(s.flight_mode.is_none() && s.battery.is_none() && s.gps.is_none());
    let n = VehicleStatus::new(VehicleId("X".to_string()));
    assert_eq!(n.vehicle_id.as_str(), "X");
}

#[test]
fn connection_status_builders() {
    let d = DeviceDescriptor {
        id: "sim".into(),
        label: "Sim".into(),
        transport: LinkKind::Simulated,
        details: DeviceDetails::Simulated,
    };
    let s = ConnectionStatus::new(ConnectionPhase::Idle);
    assert_eq!(s.phase, ConnectionPhase::Idle);
    assert!(s.message.is_none() && s.device.is_none());
    let s = s.with_device(d).with_message("ready".to_string());
    assert_eq!(s.message.as_deref(), Some("ready"));
    assert_eq!(s.device.as_ref().map(|d| d.id.as_str()), Some("sim"));
}

#[test]
fn parameter_value_defaults_to_float() {
    let p = ParameterValue::new("GAIN".to_string(), 1.5f32.to_bits());
    assert_eq!(p.name, "GAIN");
    assert_eq!(f32::from_bits(p.value_bits), 1.5);
    assert_eq!(p.param_type, "float");
    assert!(p.index.is_none());
}

#[test]
fn mission_sync_status_builders() {
    let s = MissionSyncStatus::new(MissionSyncStage::Uploading)
        .with_progress(Some(2), Some(5))
        .with_message("sending".to_string());
    assert_eq!(s.stage, MissionSyncStage::Uploading);
    assert_eq!(s.index, Some(2));
    assert_eq!(s.total, Some(5));
    assert_eq!(s.message.as_deref(), Some("sending"));
}

#[test]
fn mission_items_are_waypoints() {
    let m = MissionItem::new(3, 47.5f64.to_bits(), 8.25f64.to_bits(), 30.0f32.to_bits());
    assert_eq!(m.seq, 3);
    assert_eq!(m.command, 16);
    assert_eq!(m.frame, MissionFrame::GlobalRelativeAlt);
    assert_eq!(f64::from_bits(m.latitude_bits), 47.5);
    assert_eq!(f64::from_bits(m.longitude_bits), 8.25);
    assert_eq!(f32::from_bits(m.altitude_bits), 30.0);
    assert_eq!(f32::from_bits(m.param1_bits), 0.0);
    assert!(m.auto_continue && !m.is_current);
}

#[test]
fn mission_plans_start_empty() {
    let p = MissionPlan::created_at("plan-a".to_string(), 1234);
    assert_eq!(p.plan_id, "plan-a");
    assert_eq!(p.revision, 0);
    assert!(p.items.is_empty() && p.home.is_none() && p.notes.is_none());
    assert_eq!(p.last_modified_millis, 1234);
    let item = MissionItem::new(0, 0, 0, 0);
    let p = p.with_items_at(vec![item], 2000);
    assert_eq!(p.items.len(), 1);
    assert_eq!(p.last_modified_millis, 2000);
    let q = MissionPlan::new("plan-b".to_string());
    assert!(q.last_modified_millis > 0);
    assert_eq!(q.revision, 0);
}

#[test]
fn domain_error_messages() {
    assert_eq!(DomainError::VehicleNotFound("SYS-3".into()).message(), "vehicle not found: SYS-3");
    assert_eq!(DomainError::Timeout(250).message(), "operation timed out after 250 ms");
}

#[test]
fn text_ends_at_first_zero() {
    let mut field = b"MOTOR_1".to_vec();
    field.push(0);
    let short = trim_zero_terminated(&field);
    field.extend_from_slice(b"leftover junk");
    assert_eq!(trim_zero_terminated(&field), short);
    assert_eq!(short, "MOTOR_1");
}
