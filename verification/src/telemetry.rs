//! Reading MAVLink telemetry into the domain model.
//!
//! Message fields arrive as their MAVLink wire values: enumerations by their
//! numeric codes, quantities in the message's fixed-point units.
use vstd::prelude::*;
use crate::domain::{ArmingState, BatteryStatus, FlightMode, GpsFixType, GpsStatus, LogLevel, VehicleType};
use crate::text::{hex_string, hex_text, join_strs, joined};

verus! {

/// `MAV_MODE_FLAG_CUSTOM_MODE_ENABLED`
pub const MODE_FLAG_CUSTOM_MODE_ENABLED: u8 = 1;
/// `MAV_MODE_FLAG_AUTO_ENABLED`
pub const MODE_FLAG_AUTO_ENABLED: u8 = 4;
/// `MAV_MODE_FLAG_GUIDED_ENABLED`
pub const MODE_FLAG_GUIDED_ENABLED: u8 = 8;
/// `MAV_MODE_FLAG_STABILIZE_ENABLED`
pub const MODE_FLAG_STABILIZE_ENABLED: u8 = 16;
/// `MAV_MODE_FLAG_HIL_ENABLED`
pub const MODE_FLAG_HIL_ENABLED: u8 = 32;
/// `MAV_MODE_FLAG_MANUAL_INPUT_ENABLED`
pub const MODE_FLAG_MANUAL_INPUT_ENABLED: u8 = 64;

/// The vehicle class of a `MAV_TYPE` code.
pub open spec fn vehicle_type_of(code: u8) -> VehicleType {
    if code == 1 {
        VehicleType::FixedWing
    } else if code == 0 || code == 2 || code == 3 || code == 4 || code == 13 || code == 14 || code
        == 15 {
        VehicleType::Multirotor
    } else if code == 10 || code == 11 {
        VehicleType::Rover
    } else if code == 12 {
        VehicleType::Sub
    } else {
        VehicleType::Unknown
    }
}

/// Classifies a `MAV_TYPE` code: fixed wing (1); generic (0), quadrotor (2),
/// coaxial (3), helicopter (4), hexarotor (13), octorotor (14) and tricopter
/// (15) fly as multirotors; ground rover (10) and surface boat (11) are
/// rovers; submarine (12) is a sub; anything else is unknown.
pub fn map_vehicle_type(code: u8) -> (t: VehicleType)
    ensures
        t == vehicle_type_of(code),
{
    if code == 1 {
        VehicleType::FixedWing
    } else if code == 0 || code == 2 || code == 3 || code == 4 || code == 13 || code == 14 || code
        == 15 {
        VehicleType::Multirotor
    } else if code == 10 || code == 11 {
        VehicleType::Rover
    } else if code == 12 {
        VehicleType::Sub
    } else {
        VehicleType::Unknown
    }
}

/// The arming state of a `MAV_STATE` code.
pub open spec fn arming_state_of(code: u8) -> ArmingState {
    if code == 0 || code == 1 || code == 3 {
        ArmingState::Disarmed
    } else if code == 2 {
        ArmingState::Arming
    } else if code == 4 || code == 5 || code == 6 {
        ArmingState::Armed
    } else {
        ArmingState::Unknown
    }
}

/// Reads a `MAV_STATE` code: uninitialised (0), booting (1) and standby (3)
/// are disarmed; calibrating (2) is arming; active (4), critical (5) and
/// emergency (6) are armed; anything else is unknown.
pub fn map_arming_state(code: u8) -> (a: ArmingState)
    ensures
        a == arming_state_of(code),
{
    if code == 0 || code == 1 || code == 3 {
        ArmingState::Disarmed
    } else if code == 2 {
        ArmingState::Arming
    } else if code == 4 || code == 5 || code == 6 {
        ArmingState::Armed
    } else {
        ArmingState::Unknown
    }
}

/// The log level of a `MAV_SEVERITY` code.
pub open spec fn log_level_of(code: u8) -> LogLevel {
    if code <= 3 {
        LogLevel::Error
    } else if code == 4 {
        LogLevel::Warn
    } else if code == 5 || code == 6 {
        LogLevel::Info
    } else if code == 7 {
        LogLevel::Debug
    } else {
        LogLevel::Trace
    }
}

/// Reads a `MAV_SEVERITY` code: emergency, alert, critical and error (0..=3)
/// are errors; warning (4) is a warning; notice and info (5, 6) are
/// informational; debug (7) is debug; anything else is trace.
pub fn map_statustext_severity(code: u8) -> (l: LogLevel)
    ensures
        l == log_level_of(code),
{
    if code <= 3 {
        LogLevel::Error
    } else if code == 4 {
        LogLevel::Warn
    } else if code == 5 || code == 6 {
        LogLevel::Info
    } else if code == 7 {
        LogLevel::Debug
    } else {
        LogLevel::Trace
    }
}

/// The fix of a `GPS_FIX_TYPE` code.
pub open spec fn gps_fix_type_of(code: u8) -> GpsFixType {
    if code == 0 || code == 1 {
        GpsFixType::NoFix
    } else if code == 2 {
        GpsFixType::Fix2D
    } else if code == 3 {
        GpsFixType::Fix3D
    } else if code == 4 {
        GpsFixType::DGps
    } else if code == 5 {
        GpsFixType::RtkFloat
    } else if code == 6 {
        GpsFixType::RtkFixed
    } else if code == 7 {
        GpsFixType::StaticHold
    } else if code == 8 {
        GpsFixType::DeadReckoning
    } else {
        GpsFixType::Other
    }
}

/// Reads a `GPS_FIX_TYPE` code: no GPS and no fix (0, 1) are no fix, 2 to 7
/// are 2D, 3D, DGPS, RTK float, RTK fixed and static, 8 is reported as dead
/// reckoning, anything else is other.
pub fn map_gps_fix_type(code: u8) -> (f: GpsFixType)
    ensures
        f == gps_fix_type_of(code),
{
    if code == 0 || code == 1 {
        GpsFixType::NoFix
    } else if code == 2 {
        GpsFixType::Fix2D
    } else if code == 3 {
        GpsFixType::Fix3D
    } else if code == 4 {
        GpsFixType::DGps
    } else if code == 5 {
        GpsFixType::RtkFloat
    } else if code == 6 {
        GpsFixType::RtkFixed
    } else if code == 7 {
        GpsFixType::StaticHold
    } else if code == 8 {
        GpsFixType::DeadReckoning
    } else {
        GpsFixType::Other
    }
}

/// The words that name the flags of a `base_mode`, in the order they are shown.
pub open spec fn mode_words(base_mode: u8, custom_mode: u32) -> Seq<Seq<char>> {
    let a: Seq<Seq<char>> = if base_mode & MODE_FLAG_AUTO_ENABLED != 0 {
        seq!["Auto"@]
    } else {
        Seq::empty()
    };
    let b = if base_mode & MODE_FLAG_GUIDED_ENABLED != 0 {
        a.push("Guided"@)
    } else {
        a
    };
    let c = if base_mode & MODE_FLAG_STABILIZE_ENABLED != 0 {
        b.push("Stabilized"@)
    } else {
        b
    };
    let d = if base_mode & MODE_FLAG_MANUAL_INPUT_ENABLED != 0 {
        c.push("Manual"@)
    } else {
        c
    };
    let e = if base_mode & MODE_FLAG_HIL_ENABLED != 0 {
        d.push("HIL"@)
    } else {
        d
    };
    let f = if e.len() == 0 {
        seq!["Unknown"@]
    } else {
        e
    };
    if base_mode & MODE_FLAG_CUSTOM_MODE_ENABLED != 0 && custom_mode != 0 {
        f.push("Custom"@)
    } else {
        f
    }
}

/// The label of a flight mode: its words joined by " · ", followed by the
/// custom mode in hexadecimal (`0x..`) when the custom-mode flag is set.
pub open spec fn flight_mode_label(base_mode: u8, custom_mode: u32) -> Seq<char> {
    let words = joined(mode_words(base_mode, custom_mode), " \u{b7} "@);
    if base_mode & MODE_FLAG_CUSTOM_MODE_ENABLED != 0 {
        words + " (0x"@ + hex_text(custom_mode as nat) + ")"@
    } else {
        words
    }
}

/// Each flag of a heartbeat's `base_mode` names itself in the flight mode's
/// words on its own, whatever the other flags are: `Auto`, `Guided`,
/// `Stabilized`, `Manual` and `HIL` appear exactly when their flag is set,
/// `Custom` exactly when the custom-mode flag is set with a non-zero custom
/// mode, and `Unknown` exactly when none of the five mode flags is set.
pub proof fn lemma_mode_words_name_each_flag(base_mode: u8, custom_mode: u32)
    ensures
        mode_words(base_mode, custom_mode).contains("Auto"@) <==> base_mode & MODE_FLAG_AUTO_ENABLED != 0,
        mode_words(base_mode, custom_mode).contains("Guided"@) <==> base_mode & MODE_FLAG_GUIDED_ENABLED != 0,
        mode_words(base_mode, custom_mode).contains("Stabilized"@) <==> base_mode & MODE_FLAG_STABILIZE_ENABLED
            != 0,
        mode_words(base_mode, custom_mode).contains("Manual"@) <==> base_mode & MODE_FLAG_MANUAL_INPUT_ENABLED
            != 0,
        mode_words(base_mode, custom_mode).contains("HIL"@) <==> base_mode & MODE_FLAG_HIL_ENABLED != 0,
        mode_words(base_mode, custom_mode).contains("Custom"@) <==> (base_mode & MODE_FLAG_CUSTOM_MODE_ENABLED
            != 0 && custom_mode != 0),
        mode_words(base_mode, custom_mode).contains("Unknown"@) <==> (base_mode & MODE_FLAG_AUTO_ENABLED == 0
            && base_mode & MODE_FLAG_GUIDED_ENABLED == 0 && base_mode & MODE_FLAG_STABILIZE_ENABLED == 0
            && base_mode & MODE_FLAG_MANUAL_INPUT_ENABLED == 0 && base_mode & MODE_FLAG_HIL_ENABLED == 0),
{
    reveal_strlit("Auto");
    reveal_strlit("Guided");
    reveal_strlit("Stabilized");
    reveal_strlit("Manual");
    reveal_strlit("HIL");
    reveal_strlit("Custom");
    reveal_strlit("Unknown");
    let ba = base_mode & MODE_FLAG_AUTO_ENABLED != 0;
    let bg = base_mode & MODE_FLAG_GUIDED_ENABLED != 0;
    let bs = base_mode & MODE_FLAG_STABILIZE_ENABLED != 0;
    let bm = base_mode & MODE_FLAG_MANUAL_INPUT_ENABLED != 0;
    let bh = base_mode & MODE_FLAG_HIL_ENABLED != 0;
    let bc = base_mode & MODE_FLAG_CUSTOM_MODE_ENABLED != 0 && custom_mode != 0;
    let a: Seq<Seq<char>> = if ba { seq!["Auto"@] } else { Seq::empty() };
    let b = if bg { a.push("Guided"@) } else { a };
    let c = if bs { b.push("Stabilized"@) } else { b };
    let d = if bm { c.push("Manual"@) } else { c };
    let e = if bh { d.push("HIL"@) } else { d };
    let f = if e.len() == 0 { seq!["Unknown"@] } else { e };
    let g = if bc { f.push("Custom"@) } else { f };
    assert(g == mode_words(base_mode, custom_mode));
    assert forall|x: Seq<char>| a.contains(x) <==> (ba && x == "Auto"@) by {
        if ba {
            assert(a[0] == "Auto"@);
        }
    }
    assert forall|x: Seq<char>| b.contains(x) <==> (a.contains(x) || (bg && x == "Guided"@)) by {
        if bg {
            lemma_push_contains(a, "Guided"@, x);
        }
    }
    assert forall|x: Seq<char>| c.contains(x) <==> (b.contains(x) || (bs && x == "Stabilized"@)) by {
        if bs {
            lemma_push_contains(b, "Stabilized"@, x);
        }
    }
    assert forall|x: Seq<char>| d.contains(x) <==> (c.contains(x) || (bm && x == "Manual"@)) by {
        if bm {
            lemma_push_contains(c, "Manual"@, x);
        }
    }
    assert forall|x: Seq<char>| e.contains(x) <==> (d.contains(x) || (bh && x == "HIL"@)) by {
        if bh {
            lemma_push_contains(d, "HIL"@, x);
        }
    }
    assert(e.len() == 0 <==> !(ba || bg || bs || bm || bh)) by {
        if ba { assert(e.contains("Auto"@)); }
        if bg { assert(e.contains("Guided"@)); }
        if bs { assert(e.contains("Stabilized"@)); }
        if bm { assert(e.contains("Manual"@)); }
        if bh { assert(e.contains("HIL"@)); }
        if !(ba || bg || bs || bm || bh) {
            assert(a.len() == 0);
        }
    }
    assert forall|x: Seq<char>| f.contains(x) <==> (e.contains(x) || (e.len() == 0 && x == "Unknown"@)) by {
        if e.len() == 0 {
            assert(f[0] == "Unknown"@);
        }
    }
    assert forall|x: Seq<char>| g.contains(x) <==> (f.contains(x) || (bc && x == "Custom"@)) by {
        if bc {
            lemma_push_contains(f, "Custom"@, x);
        }
    }
    let names: Seq<Seq<char>> = seq!["Auto"@, "Guided"@, "Stabilized"@, "Manual"@, "HIL"@, "Custom"@, "Unknown"@];
    assert forall|i: int, j: int| 0 <= i < 7 && 0 <= j < 7 && i != j implies #[trigger] names[i] != #[trigger] names[j] by {
        if names[i] == names[j] {
            assert(names[i].len() == names[j].len());
            assert(names[i][0] == names[j][0]);
        }
    }
    assert(names[0] == "Auto"@ && names[1] == "Guided"@ && names[2] == "Stabilized"@ && names[3] == "Manual"@
        && names[4] == "HIL"@ && names[5] == "Custom"@ && names[6] == "Unknown"@);
}

/// `s` with `v` pushed holds `x` exactly when `s` does or `x` is `v`.
proof fn lemma_push_contains(s: Seq<Seq<char>>, v: Seq<char>, x: Seq<char>)
    ensures
        s.push(v).contains(x) <==> (s.contains(x) || x == v),
{
    let t = s.push(v);
    if s.contains(x) {
        let i = choose|i: int| 0 <= i < s.len() && s[i] == x;
        assert(t[i] == x);
    }
    if x == v {
        assert(t[s.len() as int] == x);
    }
    if t.contains(x) {
        let i = choose|i: int| 0 <= i < t.len() && t[i] == x;
        if i < s.len() {
            assert(s[i] == x);
        }
    }
}

/// The label of a heartbeat whose `base_mode` is `0x51` (custom mode,
/// stabilize and manual input, as a vehicle flying in a stabilized manual
/// mode reports) with custom mode 0: `Stabilized · Manual (0x0)`.
pub proof fn lemma_stabilized_manual_label()
    ensures
        flight_mode_label(0x51, 0) == "Stabilized \u{b7} Manual (0x0)"@,
{
    assert(0x51u8 & MODE_FLAG_AUTO_ENABLED == 0) by (bit_vector);
    assert(0x51u8 & MODE_FLAG_GUIDED_ENABLED == 0) by (bit_vector);
    assert(0x51u8 & MODE_FLAG_STABILIZE_ENABLED != 0) by (bit_vector);
    assert(0x51u8 & MODE_FLAG_MANUAL_INPUT_ENABLED != 0) by (bit_vector);
    assert(0x51u8 & MODE_FLAG_HIL_ENABLED == 0) by (bit_vector);
    assert(0x51u8 & MODE_FLAG_CUSTOM_MODE_ENABLED != 0) by (bit_vector);
    reveal_strlit("Stabilized");
    reveal_strlit("Manual");
    reveal_strlit(" \u{b7} ");
    reveal_strlit(" (0x");
    reveal_strlit(")");
    reveal_strlit("Stabilized \u{b7} Manual (0x0)");
    let w = mode_words(0x51, 0);
    assert(w =~= seq!["Stabilized"@, "Manual"@]);
    assert(w.drop_last() =~= seq!["Stabilized"@]);
    assert(joined(w.drop_last(), " \u{b7} "@) == "Stabilized"@);
    assert(joined(w, " \u{b7} "@) == "Stabilized"@ + " \u{b7} "@ + "Manual"@);
    assert(hex_text(0) == seq!['0']);
    assert(flight_mode_label(0x51, 0) =~= "Stabilized \u{b7} Manual (0x0)"@);
}

/// Describes the flight mode of a heartbeat.
pub fn describe_flight_mode(base_mode: u8, custom_mode: u32) -> (m: FlightMode)
    ensures
        m.label@ == flight_mode_label(base_mode, custom_mode),
        m.base_mode == base_mode,
        m.custom_mode == custom_mode,
{
    let mut labels: Vec<&str> = Vec::new();
    if base_mode & MODE_FLAG_AUTO_ENABLED != 0 {
        labels.push("Auto");
    }
    if base_mode & MODE_FLAG_GUIDED_ENABLED != 0 {
        labels.push("Guided");
    }
    if base_mode & MODE_FLAG_STABILIZE_ENABLED != 0 {
        labels.push("Stabilized");
    }
    if base_mode & MODE_FLAG_MANUAL_INPUT_ENABLED != 0 {
        labels.push("Manual");
    }
    if base_mode & MODE_FLAG_HIL_ENABLED != 0 {
        labels.push("HIL");
    }
    if labels.len() == 0 {
        labels.push("Unknown");
    }
    if base_mode & MODE_FLAG_CUSTOM_MODE_ENABLED != 0 && custom_mode != 0 {
        labels.push("Custom");
    }
    assert(labels@.map_values(|p: &str| p@) =~= mode_words(base_mode, custom_mode));
    let mut label = join_strs(&labels, " \u{b7} ");
    if base_mode & MODE_FLAG_CUSTOM_MODE_ENABLED != 0 {
        label.append(" (0x");
        let digits = hex_string(custom_mode as u64);
        label.append(digits.as_str());
        label.append(")");
    }
    FlightMode { label, base_mode, custom_mode }
}

/// The battery state of a `SYS_STATUS` message: the voltage in millivolts,
/// the current in centiamperes unless negative (not measured), the
/// remaining charge in percent unless negative (not measured), here in
/// tenths of a percent.
pub fn battery_from_sys_status(voltage_battery: u16, current_battery: i16, battery_remaining: i8) -> (b: BatteryStatus)
    ensures
        b.voltage_mv == voltage_battery,
        b.current_ca == (if current_battery < 0 {
            None
        } else {
            Some(current_battery as u32)
        }),
        b.remaining_permille == (if battery_remaining < 0 {
            None
        } else {
            Some(((battery_remaining as int) * 10) as u32)
        }),
{
    let current_ca = if current_battery < 0 {
        None
    } else {
        Some(current_battery as u32)
    };
    let remaining_permille = if battery_remaining < 0 {
        None
    } else {
        Some((battery_remaining as u32) * 10)
    };
    BatteryStatus { voltage_mv: voltage_battery as u32, current_ca, remaining_permille }
}

/// The GPS state a `GPS_RAW_INT` report stands for.
pub open spec fn gps_report(
    fix_type: u8,
    satellites_visible: u8,
    lat: i32,
    lon: i32,
    alt: i32,
    eph: u16,
    epv: u16,
) -> Option<GpsStatus> {
    Some(
            GpsStatus {
                fix_type: gps_fix_type_of(fix_type),
                satellites_visible,
                latitude_e7: if lat == 0 {
                    None
                } else {
                    Some(lat as i64)
                },
                longitude_e7: if lon == 0 {
                    None
                } else {
                    Some(lon as i64)
                },
                altitude_mm: if alt == 0 {
                    None
                } else {
                    Some(alt)
                },
                hdop_cm: if eph == u16::MAX {
                    None
                } else {
                    Some(eph)
                },
                vdop_cm: if epv == u16::MAX {
                    None
                } else {
                    Some(epv)
                },
            },
        )
}

/// A `GPS_RAW_INT` report always yields a GPS state that keeps every known
/// value as it came: only zero marks a latitude, longitude or altitude as
/// unknown (so negative, southern or western, coordinates and altitudes
/// below sea level are kept), and only `u16::MAX` a dilution of precision.
pub proof fn lemma_gps_report_keeps_known_values(
    fix_type: u8,
    satellites_visible: u8,
    lat: i32,
    lon: i32,
    alt: i32,
    eph: u16,
    epv: u16,
)
    ensures
        gps_report(fix_type, satellites_visible, lat, lon, alt, eph, epv) is Some,
        ({
            let g = gps_report(fix_type, satellites_visible, lat, lon, alt, eph, epv)->Some_0;
            &&& g.fix_type == gps_fix_type_of(fix_type)
            &&& g.satellites_visible == satellites_visible
            &&& lat != 0 ==> g.latitude_e7 == Some(lat as i64)
            &&& lat == 0 ==> g.latitude_e7 is None
            &&& lon != 0 ==> g.longitude_e7 == Some(lon as i64)
            &&& lon == 0 ==> g.longitude_e7 is None
            &&& alt != 0 ==> g.altitude_mm == Some(alt)
            &&& alt == 0 ==> g.altitude_mm is None
            &&& eph != u16::MAX ==> g.hdop_cm == Some(eph)
            &&& eph == u16::MAX ==> g.hdop_cm is None
            &&& epv != u16::MAX ==> g.vdop_cm == Some(epv)
            &&& epv == u16::MAX ==> g.vdop_cm is None
        }),
{
}

/// The GPS state of a `GPS_RAW_INT` message. Zero latitude, longitude or
/// altitude mean "unknown", as does `u16::MAX` for either dilution of
/// precision; the message always yields a state.
pub fn gps_from_raw_int(
    fix_type: u8,
    satellites_visible: u8,
    lat: i32,
    lon: i32,
    alt: i32,
    eph: u16,
    epv: u16,
) -> (g: Option<GpsStatus>)
    ensures
        g == gps_report(fix_type, satellites_visible, lat, lon, alt, eph, epv),
{
    let latitude_e7 = if lat == 0 {
        None
    } else {
        Some(lat as i64)
    };
    let longitude_e7 = if lon == 0 {
        None
    } else {
        Some(lon as i64)
    };
    let altitude_mm = if alt == 0 {
        None
    } else {
        Some(alt)
    };
    let hdop_cm = if eph == u16::MAX {
        None
    } else {
        Some(eph)
    };
    let vdop_cm = if epv == u16::MAX {
        None
    } else {
        Some(epv)
    };
    Some(
        GpsStatus {
            fix_type: map_gps_fix_type(fix_type),
            satellites_visible,
            latitude_e7,
            longitude_e7,
            altitude_mm,
            hdop_cm,
            vdop_cm,
        },
    )
}

} // verus!
