//! Tests for the wire protocol: the command table, the state and airspeed
//! line encoders, and the decimal rendering they rest on.

use fssk_panels::protocol::airspeed_line;
use fssk_panels::protocol::decode_command;
use fssk_panels::protocol::i32_dec_string;
use fssk_panels::protocol::state_lines;
use fssk_panels::protocol::str_eq;
use fssk_panels::protocol::u32_dec_string;
use fssk_panels::sim::AircraftSimState;
use fssk_panels::sim::LandingGearStatus;
use fssk_panels::sim::SimClientEvent;

fn sample_state() -> AircraftSimState {
    AircraftSimState {
        parking_brake_indicator: true,
        gear_center_state: LandingGearStatus::Down,
        gear_left_state: LandingGearStatus::Up,
        gear_right_state: LandingGearStatus::Unknown,
        airspeed: 120,
    }
}

#[test]
fn decode_taxi_lights() {
    assert_eq!(decode_command("MISC1:0"), Some(SimClientEvent::TaxiLightsOff));
    assert_eq!(decode_command("MISC1:1"), Some(SimClientEvent::TaxiLightsOn));
}

#[test]
fn decode_landing_lights() {
    assert_eq!(decode_command("MISC2:0"), Some(SimClientEvent::LandingLightsOff));
    assert_eq!(decode_command("MISC2:1"), Some(SimClientEvent::LandingLightsOn));
}

#[test]
fn decode_nav_lights() {
    assert_eq!(decode_command("MISC3:0"), Some(SimClientEvent::NavLightsOff));
    assert_eq!(decode_command("MISC3:1"), Some(SimClientEvent::NavLightsOn));
}

#[test]
fn decode_strobe_lights() {
    assert_eq!(decode_command("MISC4:0"), Some(SimClientEvent::StrobeLightsOff));
    assert_eq!(decode_command("MISC4:1"), Some(SimClientEvent::StrobeLightsOn));
}

#[test]
fn decode_flaps() {
    assert_eq!(decode_command("FLAPS_UP"), Some(SimClientEvent::FlapsUp));
    assert_eq!(decode_command("FLAPS_DN"), Some(SimClientEvent::FlapsDown));
}

#[test]
fn decode_parking_brake() {
    assert_eq!(decode_command("PARKING_BRAKE:0"), Some(SimClientEvent::ParkingBrakeOff));
    assert_eq!(decode_command("PARKING_BRAKE:1"), Some(SimClientEvent::ParkingBrakeOn));
}

#[test]
fn decode_landing_gear() {
    assert_eq!(decode_command("LANDING_GEAR:0"), Some(SimClientEvent::LandingGearUp));
    assert_eq!(decode_command("LANDING_GEAR:1"), Some(SimClientEvent::LandingGearDown));
}

#[test]
fn decode_unrecognized_lines() {
    assert_eq!(decode_command(""), None);
    assert_eq!(decode_command("garbage"), None);
    assert_eq!(decode_command("MISC1:2"), None);
    assert_eq!(decode_command("MISC5:1"), None);
    assert_eq!(decode_command("PARKING_BRAKE:"), None);
    assert_eq!(decode_command("parking_brake:1"), None);
    assert_eq!(decode_command("SYN|ACK"), None);
    assert_eq!(decode_command("PING"), None);
}

#[test]
fn decode_table_is_one_to_one() {
    let tokens = [
        "MISC1:0",
        "MISC1:1",
        "MISC2:0",
        "MISC2:1",
        "MISC3:0",
        "MISC3:1",
        "MISC4:0",
        "MISC4:1",
        "FLAPS_UP",
        "FLAPS_DN",
        "PARKING_BRAKE:0",
        "PARKING_BRAKE:1",
        "LANDING_GEAR:0",
        "LANDING_GEAR:1",
    ];
    let mut seen = Vec::new();
    for token in tokens {
        let command = decode_command(token).expect("table token must decode");
        assert!(!seen.contains(&command), "{token} repeats a command");
        seen.push(command);
    }
    assert_eq!(seen.len(), 14);
}

#[test]
fn parking_brake_round_trip() {
    let lines_on = state_lines(&AircraftSimState { parking_brake_indicator: true, ..sample_state() });
    assert_eq!(decode_command(&lines_on[0]), Some(SimClientEvent::ParkingBrakeOn));
    let lines_off =
        state_lines(&AircraftSimState { parking_brake_indicator: false, ..sample_state() });
    assert_eq!(decode_command(&lines_off[0]), Some(SimClientEvent::ParkingBrakeOff));
}

#[test]
fn state_lines_exact() {
    let lines = state_lines(&sample_state());
    assert_eq!(lines.len(), 4);
    assert_eq!(lines[0], "PARKING_BRAKE:1");
    assert_eq!(lines[1], "FRONT_GEAR_LED:1");
    assert_eq!(lines[2], "LEFT_GEAR_LED:0");
    assert_eq!(lines[3], "RIGHT_GEAR_LED:2");
}

#[test]
fn state_lines_brake_off() {
    let lines = state_lines(&AircraftSimState {
        parking_brake_indicator: false,
        gear_center_state: LandingGearStatus::Up,
        gear_left_state: LandingGearStatus::Down,
        gear_right_state: LandingGearStatus::Down,
        airspeed: 0,
    });
    assert_eq!(lines[0], "PARKING_BRAKE:0");
    assert_eq!(lines[1], "FRONT_GEAR_LED:0");
    assert_eq!(lines[2], "LEFT_GEAR_LED:1");
    assert_eq!(lines[3], "RIGHT_GEAR_LED:1");
}

#[test]
fn airspeed_line_exact() {
    assert_eq!(
        airspeed_line(120),
        "Type<I-A>::Target<Airspeed-Indicator>::Content<120>::Origin<Interface>;"
    );
    assert_eq!(
        airspeed_line(0),
        "Type<I-A>::Target<Airspeed-Indicator>::Content<0>::Origin<Interface>;"
    );
    assert_eq!(
        airspeed_line(-5),
        "Type<I-A>::Target<Airspeed-Indicator>::Content<-5>::Origin<Interface>;"
    );
}

#[test]
fn decimal_rendering() {
    assert_eq!(u32_dec_string(0), "0");
    assert_eq!(u32_dec_string(7), "7");
    assert_eq!(u32_dec_string(10), "10");
    assert_eq!(u32_dec_string(1009), "1009");
    assert_eq!(u32_dec_string(u32::MAX), "4294967295");
    assert_eq!(i32_dec_string(0), "0");
    assert_eq!(i32_dec_string(250), "250");
    assert_eq!(i32_dec_string(-1), "-1");
    assert_eq!(i32_dec_string(i32::MAX), "2147483647");
    assert_eq!(i32_dec_string(i32::MIN), "-2147483648");
}

#[test]
fn str_eq_behaviour() {
    assert!(str_eq("", ""));
    assert!(str_eq("PING", "PING"));
    assert!(!str_eq("PING", "PONG"));
    assert!(!str_eq("PING", "PIN"));
    assert!(!str_eq("PIN", "PING"));
}
