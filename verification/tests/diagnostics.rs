use qgc_core::error::{timeout, invalid_argument, CoreError, ErrorStatus};
use qgc_core::{
    bootstrap_vehicle_status, check_diagnostics_timeout, describe_status_channel, device_watch_interval,
    diagnostics_report, health_check_impl, simulate_failure,
};
use qgc_core::domain::{ArmingState, LogLevel, VehicleId, VehicleStatus, VehicleType};
use qgc_core::events::{log_event, log_event_at, CoreEvent};

#[test]
fn health_check_succeeds() {
    let status = health_check_impl().expect("status");
    assert_eq!(status.kind, "health");
}

#[test]
fn diagnostics_respects_timeout() {
    let waited = check_diagnostics_timeout(Some(10)).expect("diagnostics");
    let result = diagnostics_report(waited);
    assert!(result.message.contains("10 ms"));
}

#[test]
fn diagnostics_rejects_large_timeout() {
    let err = check_diagnostics_timeout(Some(10_000)).expect_err("should reject");
    assert!(err.status() == ErrorStatus::Cancelled);
}

#[test]
fn diagnostics_defaults_to_fifty_ms() {
    assert_eq!(check_diagnostics_timeout(None).unwrap(), 50);
    assert_eq!(diagnostics_report(50).message, "completed after 50 ms");
    assert_eq!(diagnostics_report(50).kind, "diagnostic");
}

#[test]
fn diagnostics_rejects_zero_timeout() {
    let err = check_diagnostics_timeout(Some(0)).expect_err("zero");
    assert_eq!(err.status(), ErrorStatus::InvalidArg);
    assert_eq!(err.reason(), "timeout must be greater than 0 ms");
    assert_eq!(err.message(), "invalid argument: timeout must be greater than 0 ms");
}

#[test]
fn diagnostics_accepts_the_limit() {
    assert_eq!(check_diagnostics_timeout(Some(5000)).unwrap(), 5000);
    match check_diagnostics_timeout(Some(5001)) {
        Err(CoreError::Timeout(ms)) => assert_eq!(ms, 5001),
        other => panic!("unexpected {:?}", other),
    }
}

#[test]
fn timeout_errors_are_cancellations() {
    let err = timeout(10_000);
    assert_eq!(err.status(), ErrorStatus::Cancelled);
    assert_eq!(err.reason(), "operation timed out after 10s");
    assert_eq!(err.message(), "operation timed out after 10s");
    assert_eq!(timeout(1500).reason(), "operation timed out after 1.5s");
}

#[test]
fn other_errors_are_generic_failures() {
    let err = simulate_failure().expect_err("forced");
    assert_eq!(err.status(), ErrorStatus::GenericFailure);
    assert_eq!(err.reason(), "forced failure for diagnostics");
    assert_eq!(err.message(), "forced failure for diagnostics");
}

#[test]
fn invalid_argument_keeps_its_message() {
    let err = invalid_argument("bad".to_string());
    assert_eq!(err.status(), ErrorStatus::InvalidArg);
    assert_eq!(err.reason(), "bad");
    assert_eq!(err.message(), "invalid argument: bad");
}

#[test]
fn status_channel_is_described() {
    assert_eq!(
        describe_status_channel(),
        "Rust core emits JSON envelopes with { level, kind, message } fields."
    );
}

#[test]
fn device_watch_interval_is_clamped() {
    assert_eq!(device_watch_interval(None), 1500);
    assert_eq!(device_watch_interval(Some(10)), 250);
    assert_eq!(device_watch_interval(Some(250)), 250);
    assert_eq!(device_watch_interval(Some(4000)), 4000);
    assert_eq!(device_watch_interval(Some(60_000)), 10_000);
}

#[test]
fn bootstrap_replaces_the_placeholder_vehicle() {
    let s = bootstrap_vehicle_status(VehicleStatus::default());
    assert_eq!(s.vehicle_id.as_str(), "SIM-01");
    assert_eq!(s.vehicle_type, VehicleType::Multirotor);
    assert_eq!(s.arming_state, ArmingState::Disarmed);
    assert_eq!(s.heartbeat_millis, 0);
    let mode = s.flight_mode.expect("mode");
    assert_eq!(mode.label, "Standby");
    assert_eq!(mode.base_mode, 0);
    assert_eq!(mode.custom_mode, 0);
}

#[test]
fn bootstrap_keeps_a_real_vehicle() {
    let mut v = VehicleStatus::new(VehicleId("SYS-7".to_string()));
    v.heartbeat_millis = 900;
    let s = bootstrap_vehicle_status(v);
    assert_eq!(s.vehicle_id.as_str(), "SYS-7");
    assert_eq!(s.heartbeat_millis, 900);
    assert_eq!(s.vehicle_type, VehicleType::Unknown);
}

#[test]
fn log_events_carry_their_fields() {
    match log_event_at(LogLevel::Error, "discovery", "scan failed".to_string(), 99) {
        CoreEvent::MissionLog { entry } => {
            assert_eq!(entry.level, LogLevel::Error);
            assert_eq!(entry.source, "discovery");
            assert_eq!(entry.message, "scan failed");
            assert_eq!(entry.timestamp_millis, 99);
        }
        _ => panic!("log expected"),
    }
    match log_event(LogLevel::Info, "core", "hello".to_string()) {
        CoreEvent::MissionLog { entry } => {
            assert_eq!(entry.source, "core");
            assert!(entry.timestamp_millis > 0);
        }
        _ => panic!("log expected"),
    }
}
