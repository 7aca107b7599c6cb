use qgc_core::domain::{
    ArmingState, ConnectionPhase, DeviceDescriptor, DeviceDetails, GpsFixType, LinkKind, LogLevel, ParameterValue,
    VehicleType,
};
use qgc_core::error::{CoreError, ErrorStatus};
use qgc_core::events::CoreEvent;
use qgc_core::mavlink::{
    handle_mavlink_message, open_link_session, open_simulated_session, parameter_timeout, resolve_link,
    serial_link_uri, simulated_descriptor, simulated_parameter_events, simulated_parameters, udp_link_uri, LinkConfig, MavHeader, MavlinkMessage,
    PendingParameters, SessionSlot, SessionState,
};

fn udp_device() -> DeviceDescriptor {
    DeviceDescriptor {
        id: "udp:14550".into(),
        label: "UDP 0.0.0.0:14550".into(),
        transport: LinkKind::Udp,
        details: DeviceDetails::Udp { bind: "0.0.0.0:14550".into(), target_host: None, target_port: None },
    }
}

fn serial_device() -> DeviceDescriptor {
    DeviceDescriptor {
        id: "serial:/dev/ttyACM0".into(),
        label: "/dev/ttyACM0".into(),
        transport: LinkKind::Serial,
        details: DeviceDetails::Serial {
            path: "/dev/ttyACM0".into(),
            manufacturer: None,
            product: None,
            vid: None,
            pid: None,
        },
    }
}

const HEADER: MavHeader = MavHeader { system_id: 1, component_id: 1 };

fn param(name: &str, index: u16, count: u16) -> MavlinkMessage {
    let mut id = name.as_bytes().to_vec();
    id.resize(16, 0);
    MavlinkMessage::ParamValue {
        param_id: id,
        param_value_bits: 2.5f32.to_bits(),
        param_type: "MAV_PARAM_TYPE_REAL32".into(),
        param_index: index,
        param_count: count,
    }
}

#[test]
fn simulator_descriptor_and_links() {
    let d = simulated_descriptor();
    assert_eq!(d.id, "simulator:virtual");
    assert_eq!(d.label, "Software Simulator");
    assert!(matches!(resolve_link(&d), LinkConfig::Simulated));
    match resolve_link(&serial_device()) {
        LinkConfig::Serial { descriptor, baud } => {
            assert_eq!(descriptor.id, "serial:/dev/ttyACM0");
            assert_eq!(baud, 115200);
        }
        _ => panic!("serial expected"),
    }
    let odd = DeviceDescriptor { details: DeviceDetails::Simulated, ..serial_device() };
    assert!(matches!(resolve_link(&odd), LinkConfig::Simulated));
    let odd_udp = DeviceDescriptor { details: DeviceDetails::Simulated, ..udp_device() };
    match resolve_link(&odd_udp) {
        LinkConfig::Udp { descriptor } => assert_eq!(descriptor.id, "udp:0.0.0.0:14550"),
        _ => panic!("udp expected"),
    }
}

#[test]
fn link_addresses() {
    assert_eq!(udp_link_uri(&udp_device()), "udpin:0.0.0.0:14550");
    let custom = DeviceDescriptor {
        details: DeviceDetails::Udp { bind: "127.0.0.1:14560".into(), target_host: None, target_port: None },
        ..udp_device()
    };
    assert_eq!(udp_link_uri(&custom), "udpin:127.0.0.1:14560");
    assert_eq!(udp_link_uri(&serial_device()), "udpin:0.0.0.0:14550");
    assert_eq!(serial_link_uri(&serial_device(), 57600).unwrap(), "serial:/dev/ttyACM0:57600");
    match serial_link_uri(&udp_device(), 57600) {
        Err(CoreError::InvalidArgument(m)) => assert_eq!(m, "serial descriptor missing path"),
        other => panic!("unexpected {:?}", other),
    }
    assert_eq!(parameter_timeout(None), 10_000);
    assert_eq!(parameter_timeout(Some(2500)), 2500);
}

#[test]
fn link_session_starts_connecting() {
    let (state, event) = open_link_session(udp_device());
    assert_eq!(state.status.phase, ConnectionPhase::Connecting);
    assert_eq!(state.status.message.as_deref(), Some("awaiting heartbeat"));
    assert_eq!(state.status.device.as_ref().map(|d| d.id.as_str()), Some("udp:14550"));
    assert_eq!(state.vehicle_status.vehicle_id.as_str(), "udp:14550");
    assert_eq!(state.autopilot_ids(), (1, 1));
    assert!(matches!(event, CoreEvent::ConnectionStatus { .. }));
}

#[test]
fn heartbeat_connects_and_describes_vehicle() {
    let (mut state, _) = open_link_session(udp_device());
    let msg = MavlinkMessage::Heartbeat { mav_type: 2, system_status: 4, base_mode: 1 | 8, custom_mode: 3 };
    let out = handle_mavlink_message(&mut state, MavHeader { system_id: 7, component_id: 190 }, msg, 1_000, 42);
    assert_eq!(out.events.len(), 2);
    assert_eq!(state.status.phase, ConnectionPhase::Connected);
    assert_eq!(state.status.message.as_deref(), Some("heartbeat received"));
    assert_eq!(state.autopilot_ids(), (7, 190));
    let v = &state.vehicle_status;
    assert_eq!(v.vehicle_id.as_str(), "SYS-7");
    assert_eq!(v.vehicle_type, VehicleType::Multirotor);
    assert_eq!(v.arming_state, ArmingState::Armed);
    assert_eq!(v.heartbeat_millis, 100);
    assert_eq!(v.flight_mode.as_ref().unwrap().label, "Guided \u{b7} Custom (0x3)");
    let msg = MavlinkMessage::Heartbeat { mav_type: 1, system_status: 3, base_mode: 0, custom_mode: 0 };
    handle_mavlink_message(&mut state, HEADER, msg, 1_950, 42);
    assert_eq!(state.vehicle_status.heartbeat_millis, 950);
    assert_eq!(state.vehicle_status.vehicle_type, VehicleType::FixedWing);
    assert_eq!(state.vehicle_status.arming_state, ArmingState::Disarmed);
}

#[test]
fn status_text_becomes_log() {
    let (mut state, _) = open_link_session(udp_device());
    let mut text = b"PreArm: GPS not healthy".to_vec();
    text.resize(50, 0);
    let out = handle_mavlink_message(&mut state, HEADER, MavlinkMessage::StatusText { severity: 4, text }, 0, 777);
    assert_eq!(out.events.len(), 1);
    match &out.events[0] {
        CoreEvent::MissionLog { entry } => {
            assert_eq!(entry.level, LogLevel::Warn);
            assert_eq!(entry.source, "mavlink");
            assert_eq!(entry.message, "PreArm: GPS not healthy");
            assert_eq!(entry.timestamp_millis, 777);
        }
        _ => panic!("log expected"),
    }
}

#[test]
fn battery_and_gps_update_vehicle() {
    let (mut state, _) = open_link_session(udp_device());
    let out = handle_mavlink_message(
        &mut state,
        HEADER,
        MavlinkMessage::SysStatus { voltage_battery: 12_100, current_battery: -1, battery_remaining: 55 },
        0,
        0,
    );
    assert_eq!(out.events.len(), 1);
    let b = state.vehicle_status.battery.unwrap();
    assert_eq!(b.voltage_mv, 12_100);
    assert_eq!(b.current_ca, None);
    assert_eq!(b.remaining_permille, Some(550));
    handle_mavlink_message(
        &mut state,
        HEADER,
        MavlinkMessage::GpsRawInt {
            fix_type: 6,
            satellites_visible: 20,
            lat: 1,
            lon: 0,
            alt: -5,
            eph: 80,
            epv: u16::MAX,
        },
        0,
        0,
    );
    let g = state.vehicle_status.gps.unwrap();
    assert_eq!(g.fix_type, GpsFixType::RtkFixed);
    assert_eq!(g.latitude_e7, Some(1));
    assert_eq!(g.longitude_e7, None);
    assert_eq!(g.altitude_mm, Some(-5));
    assert_eq!(g.vdop_cm, None);
    assert_eq!(state.vehicle_status.battery.unwrap().voltage_mv, 12_100);
}

#[test]
fn parameter_download_collects_values_in_order() {
    let (mut state, _) = open_link_session(udp_device());
    state.begin_parameter_request(5_000, 100).expect("start");
    let out = handle_mavlink_message(&mut state, HEADER, param("ATC_RAT_RLL_P", 0, 2), 200, 0);
    assert!(out.completed.is_none());
    match out.events[0] {
        CoreEvent::ParameterProgress { received, expected } => {
            assert_eq!(received, 1);
            assert_eq!(expected, Some(2));
        }
        _ => panic!("progress expected"),
    }
    let out = handle_mavlink_message(&mut state, HEADER, param("ATC_RAT_PIT_P", 1, 2), 300, 0);
    let done = out.completed.expect("completed");
    assert_eq!(done.iter().map(|p| p.name.as_str()).collect::<Vec<_>>(), vec!["ATC_RAT_RLL_P", "ATC_RAT_PIT_P"]);
    assert_eq!(done[1].index, Some(1));
    assert_eq!(f32::from_bits(done[0].value_bits), 2.5);
    assert_eq!(done[0].param_type, "MAV_PARAM_TYPE_REAL32");
    assert_eq!(out.events.len(), 2);
    assert!(matches!(out.events[1], CoreEvent::ParameterBatch { .. }));
    assert!(state.pending_parameters.is_none());
    assert_eq!(state.parameter_cache().len(), 2);
}

#[test]
fn parameter_values_without_download_are_dropped() {
    let (mut state, _) = open_link_session(udp_device());
    let out = handle_mavlink_message(&mut state, HEADER, param("X", 0, 1), 0, 0);
    assert!(out.events.is_empty() && out.completed.is_none());
    assert!(state.parameter_cache.is_empty());
}

#[test]
fn unknown_count_keeps_download_open() {
    let (mut state, _) = open_link_session(udp_device());
    state.begin_parameter_request(5_000, 0).unwrap();
    let out = handle_mavlink_message(&mut state, HEADER, param("A", 0, 0), 0, 0);
    match out.events[0] {
        CoreEvent::ParameterProgress { received, expected } => {
            assert_eq!(received, 1);
            assert_eq!(expected, None);
        }
        _ => panic!("progress expected"),
    }
    assert!(state.pending_parameters.is_some());
}

#[test]
fn only_one_download_at_a_time() {
    let (mut state, _) = open_link_session(udp_device());
    assert!(state.begin_parameter_request(1_000, 0).is_ok());
    let err = state.begin_parameter_request(1_000, 0).expect_err("busy");
    assert_eq!(err.status(), ErrorStatus::InvalidArg);
    assert_eq!(err.reason(), "parameter request already running");
}

#[test]
fn downloads_expire_after_their_deadline() {
    let (mut state, _) = open_link_session(udp_device());
    state.begin_parameter_request(1_000, 500).unwrap();
    assert!(state.expire_parameter_request_if_needed(1_500).is_none());
    match state.expire_parameter_request_if_needed(1_501) {
        Some(CoreError::Timeout(ms)) => assert_eq!(ms, 10_000),
        other => panic!("unexpected {:?}", other),
    }
    assert!(state.pending_parameters.is_none());
    assert!(state.begin_parameter_request(1_000, 2_000).is_ok());
}

#[test]
fn pending_parameters_track_the_announced_count() {
    let mut p = PendingParameters::new(100, 0);
    assert!(!p.is_complete());
    p.push(ParameterValue::new("A".into(), 0), None);
    assert!(!p.is_complete());
    p.push(ParameterValue::new("B".into(), 0), Some(2));
    assert!(p.is_complete());
    assert!(!p.is_expired(100));
    assert!(p.is_expired(101));
}

#[test]
fn closing_a_link_fails_the_download() {
    let (mut state, _) = open_link_session(serial_device());
    state.begin_parameter_request(1_000, 0).unwrap();
    let (event, error) = state.close_requested(LinkKind::Serial);
    assert!(matches!(event, CoreEvent::ConnectionStatus { .. }));
    assert_eq!(state.status.phase, ConnectionPhase::Disconnecting);
    assert_eq!(state.status.message.as_deref(), Some("closing serial link"));
    match error {
        Some(CoreError::InvalidArgument(m)) => assert_eq!(m, "connection closed"),
        other => panic!("unexpected {:?}", other),
    }
    state.link_closed(LinkKind::Serial);
    assert_eq!(state.status.phase, ConnectionPhase::Disconnected);
    assert_eq!(state.status.message.as_deref(), Some("serial link closed"));
    assert_eq!(state.status.device.as_ref().unwrap().id, "serial:/dev/ttyACM0");
}

#[test]
fn receive_errors_put_the_link_in_error() {
    let (mut state, _) = open_link_session(udp_device());
    let (_, error) = state.receive_failed(LinkKind::Udp, "socket closed".to_string());
    assert!(error.is_none());
    assert_eq!(state.status.phase, ConnectionPhase::Error);
    assert_eq!(state.status.message.as_deref(), Some("recv error: socket closed"));
    state.begin_parameter_request(1_000, 0).unwrap();
    let (_, error) = state.receive_failed(LinkKind::Udp, "again".to_string());
    match error {
        Some(CoreError::Other(m)) => assert_eq!(m, "again"),
        other => panic!("unexpected {:?}", other),
    }
    state.link_closed(LinkKind::Udp);
    assert_eq!(state.status.message.as_deref(), Some("link closed"));
}

#[test]
fn parameter_request_sending() {
    let (mut state, _) = open_link_session(udp_device());
    state.begin_parameter_request(1_000, 0).unwrap();
    let (event, error) = state.parameter_request_sent(None);
    assert!(matches!(event, Some(CoreEvent::ParameterProgress { received: 0, expected: None })));
    assert!(error.is_none());
    let (event, error) = state.parameter_request_sent(Some("write failed".into()));
    assert!(event.is_none());
    assert!(matches!(error, Some(CoreError::Other(_))));
    assert!(state.pending_parameters.is_none());
}

#[test]
fn simulator_session() {
    let (mut state, event) = open_simulated_session();
    assert!(matches!(event, CoreEvent::ConnectionStatus { .. }));
    assert_eq!(state.status.phase, ConnectionPhase::Connected);
    assert_eq!(state.status.message.as_deref(), Some("simulated link"));
    let (counter, events) = state.simulated_tick(0, 0);
    assert_eq!(counter, 1);
    assert_eq!(events.len(), 1);
    let v = &state.vehicle_status;
    assert_eq!(v.vehicle_id.as_str(), "SIM-01");
    assert_eq!(v.heartbeat_millis, 500);
    assert_eq!(v.flight_mode.as_ref().unwrap().base_mode, 9);
    assert_eq!(v.battery.unwrap().remaining_permille, Some(998));
    assert_eq!(v.gps.unwrap().latitude_e7, Some(373_345_010));
    assert_eq!(v.gps.unwrap().longitude_e7, Some(-1_218_949_010));
    let mut c = counter;
    let mut last = Vec::new();
    for step in 1..5u64 {
        let (next, events) = state.simulated_tick(c, step * 700);
        c = next;
        last = events;
    }
    assert_eq!(c, 5);
    assert_eq!(last.len(), 2);
    assert!(matches!(&last[1], CoreEvent::Diagnostics { level: LogLevel::Info, message } if message == "simulated telemetry ok"));
    assert_eq!(state.vehicle_status.heartbeat_millis, 700);
    let (wrapped, _) = state.simulated_tick(u32::MAX, 10_000);
    assert_eq!(wrapped, 0);
    let (_, _) = state.simulated_tick(2_000, 10_500);
    assert_eq!(state.vehicle_status.battery.unwrap().remaining_permille, Some(50));
    let (_, error) = state.close_requested(LinkKind::Simulated);
    assert!(error.is_none());
    assert_eq!(state.status.phase, ConnectionPhase::Disconnected);
    assert_eq!(state.status.message.as_deref(), Some("simulator stopped"));
}

#[test]
fn simulator_parameters() {
    let params = simulated_parameters();
    assert_eq!(params.len(), 3);
    assert_eq!(params[0].name, "SYSID_THISMAV");
    assert_eq!(f32::from_bits(params[0].value_bits), 1.0);
    assert_eq!(params[0].param_type, "int32");
    assert_eq!(f32::from_bits(params[1].value_bits), 0.12);
    assert_eq!(f32::from_bits(params[2].value_bits), 13.5);
    assert_eq!(params[2].index, Some(2));
    let events = simulated_parameter_events(&params);
    assert!(matches!(events[0], CoreEvent::ParameterProgress { received: 3, expected: Some(3) }));
    match &events[1] {
        CoreEvent::ParameterBatch { parameters } => assert_eq!(parameters.len(), 3),
        _ => panic!("batch expected"),
    }
}

#[test]
fn one_active_session() {
    let mut slot: SessionSlot<u32> = SessionSlot::new();
    assert!(slot.connect_check().is_ok());
    assert!(slot.active().is_err());
    slot.install(7);
    assert_eq!(slot.connect_check().unwrap_err().reason(), "MAVLink session already active");
    assert_eq!(*slot.active().unwrap(), 7);
    assert_eq!(slot.take(), Some(7));
    assert_eq!(slot.active().unwrap_err().reason(), "no active MAVLink session");
}

#[test]
fn session_reports_cache_and_status() {
    let state = SessionState::new(udp_device());
    assert_eq!(state.status().phase, ConnectionPhase::Connecting);
    assert_eq!(state.vehicle_status().vehicle_id.as_str(), "udp:14550");
    assert!(state.parameter_cache().is_empty());
}

#[test]
fn heartbeat_intervals() {
    let mut state = SessionState::new(udp_device());
    assert_eq!(state.record_heartbeat_interval(5_000), 0);
    assert_eq!(state.record_heartbeat_interval(5_750), 750);
    assert_eq!(state.record_heartbeat_interval(5_000), 0);
    assert_eq!(state.record_heartbeat_interval(5_000 + (1u64 << 32) + 9), 9);
    assert_eq!(state.last_heartbeat_ms, Some(5_000 + (1u64 << 32) + 9));
}

#[test]
fn announced_download_completes_on_the_last_value() {
    let (mut state, _) = open_link_session(udp_device());
    state.begin_parameter_request(60_000, 0).unwrap();
    for i in 0..4u16 {
        let out = handle_mavlink_message(&mut state, HEADER, param(&format!("P{i}"), i, 5), 0, 0);
        assert!(out.completed.is_none());
    }
    let out = handle_mavlink_message(&mut state, HEADER, param("P4", 4, 5), 0, 0);
    let names: Vec<String> = out.completed.expect("complete").into_iter().map(|p| p.name).collect();
    assert_eq!(names, vec!["P0", "P1", "P2", "P3", "P4"]);
    assert_eq!(state.parameter_cache().len(), 5);
}

#[test]
fn simulator_fetch_fills_the_cache() {
    let (mut state, _) = open_simulated_session();
    assert!(state.parameter_cache().is_empty());
    let (params, events) = state.answer_simulated_fetch();
    assert_eq!(params.len(), 3);
    assert_eq!(params[1].name, "MPC_THR_MIN");
    let cached = state.parameter_cache();
    assert_eq!(cached.len(), 3);
    for (a, b) in cached.iter().zip(params.iter()) {
        assert_eq!(a.name, b.name);
        assert_eq!(a.value_bits, b.value_bits);
        assert_eq!(a.param_type, b.param_type);
        assert_eq!(a.index, b.index);
    }
    assert!(matches!(events[0], CoreEvent::ParameterProgress { received: 3, expected: Some(3) }));
    assert!(matches!(events[1], CoreEvent::ParameterBatch { .. }));
    assert_eq!(state.status.phase, ConnectionPhase::Connected);
    assert!(state.pending_parameters.is_none());
}
