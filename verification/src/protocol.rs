//! The line-oriented wire protocol spoken with a panel over its serial
//! link: decoding hardware command lines and encoding aircraft-state lines.

use vstd::prelude::*;
use vstd::string::StrSliceExecFns;
use vstd::string::StringExecFns;

use crate::sim::AircraftSimState;
use crate::sim::LandingGearStatus;
use crate::sim::SimClientEvent;

verus! {

/// Character-wise equality of two strings.
pub fn str_eq(a: &str, b: &str) -> (r: bool)
    ensures
        r == (a@ == b@),
{
    let a_len = a.unicode_len();
    let b_len = b.unicode_len();
    if a_len != b_len {
        return false;
    }
    let mut i: usize = 0;
    while i < a_len
        invariant
            i <= a_len,
            a_len == a@.len(),
            a_len == b@.len(),
            forall|j: int| 0 <= j < i ==> a@[j] == b@[j],
        decreases a_len - i,
    {
        if a.get_char(i) != b.get_char(i) {
            return false;
        }
        i = i + 1;
    }
    proof {
        assert(a@ =~= b@);
    }
    true
}

/// The command table of the panel-to-bridge direction: which line raises
/// which simulator command. A line outside the table raises none.
pub open spec fn decode_spec(s: Seq<char>) -> Option<SimClientEvent> {
    if s == "MISC1:0"@ {
        Some(SimClientEvent::TaxiLightsOff)
    } else if s == "MISC1:1"@ {
        Some(SimClientEvent::TaxiLightsOn)
    } else if s == "MISC2:0"@ {
        Some(SimClientEvent::LandingLightsOff)
    } else if s == "MISC2:1"@ {
        Some(SimClientEvent::LandingLightsOn)
    } else if s == "MISC3:0"@ {
        Some(SimClientEvent::NavLightsOff)
    } else if s == "MISC3:1"@ {
        Some(SimClientEvent::NavLightsOn)
    } else if s == "MISC4:0"@ {
        Some(SimClientEvent::StrobeLightsOff)
    } else if s == "MISC4:1"@ {
        Some(SimClientEvent::StrobeLightsOn)
    } else if s == "FLAPS_UP"@ {
        Some(SimClientEvent::FlapsUp)
    } else if s == "FLAPS_DN"@ {
        Some(SimClientEvent::FlapsDown)
    } else if s == "PARKING_BRAKE:0"@ {
        Some(SimClientEvent::ParkingBrakeOff)
    } else if s == "PARKING_BRAKE:1"@ {
        Some(SimClientEvent::ParkingBrakeOn)
    } else if s == "LANDING_GEAR:0"@ {
        Some(SimClientEvent::LandingGearUp)
    } else if s == "LANDING_GEAR:1"@ {
        Some(SimClientEvent::LandingGearDown)
    } else {
        None
    }
}

/// Decode one received line into the simulator command it stands for, or
/// nothing when the line is not in the command table.
pub fn decode_command(line: &str) -> (r: Option<SimClientEvent>)
    ensures
        r == decode_spec(line@),
{
    if str_eq(line, "MISC1:0") {
        Some(SimClientEvent::TaxiLightsOff)
    } else if str_eq(line, "MISC1:1") {
        Some(SimClientEvent::TaxiLightsOn)
    } else if str_eq(line, "MISC2:0") {
        Some(SimClientEvent::LandingLightsOff)
    } else if str_eq(line, "MISC2:1") {
        Some(SimClientEvent::LandingLightsOn)
    } else if str_eq(line, "MISC3:0") {
        Some(SimClientEvent::NavLightsOff)
    } else if str_eq(line, "MISC3:1") {
        Some(SimClientEvent::NavLightsOn)
    } else if str_eq(line, "MISC4:0") {
        Some(SimClientEvent::StrobeLightsOff)
    } else if str_eq(line, "MISC4:1") {
        Some(SimClientEvent::StrobeLightsOn)
    } else if str_eq(line, "FLAPS_UP") {
        Some(SimClientEvent::FlapsUp)
    } else if str_eq(line, "FLAPS_DN") {
        Some(SimClientEvent::FlapsDown)
    } else if str_eq(line, "PARKING_BRAKE:0") {
        Some(SimClientEvent::ParkingBrakeOff)
    } else if str_eq(line, "PARKING_BRAKE:1") {
        Some(SimClientEvent::ParkingBrakeOn)
    } else if str_eq(line, "LANDING_GEAR:0") {
        Some(SimClientEvent::LandingGearUp)
    } else if str_eq(line, "LANDING_GEAR:1") {
        Some(SimClientEvent::LandingGearDown)
    } else {
        None
    }
}

/// The character for one decimal digit.
pub open spec fn digit_char(d: nat) -> char {
    if d == 0 {
        '0'
    } else if d == 1 {
        '1'
    } else if d == 2 {
        '2'
    } else if d == 3 {
        '3'
    } else if d == 4 {
        '4'
    } else if d == 5 {
        '5'
    } else if d == 6 {
        '6'
    } else if d == 7 {
        '7'
    } else if d == 8 {
        '8'
    } else {
        '9'
    }
}

/// Decimal digits of a natural number, most significant first, without
/// leading zeroes (except for the number zero itself).
pub open spec fn dec_digits(n: nat) -> Seq<char>
    decreases n,
{
    if n < 10 {
        seq![digit_char(n)]
    } else {
        dec_digits(n / 10) + seq![digit_char(n % 10)]
    }
}

/// Decimal notation of an integer: a minus sign before the digits of the
/// magnitude when it is negative.
pub open spec fn int_dec(i: int) -> Seq<char> {
    if i < 0 {
        seq!['-'] + dec_digits((-i) as nat)
    } else {
        dec_digits(i as nat)
    }
}

fn digit_str(d: u32) -> (r: &'static str)
    requires
        d < 10,
    ensures
        r@ == seq![digit_char(d as nat)],
{
    if d == 0 {
        proof {
            reveal_strlit("0");
            assert("0"@ =~= seq![digit_char(0)]);
        }
        "0"
    } else if d == 1 {
        proof {
            reveal_strlit("1");
            assert("1"@ =~= seq![digit_char(1)]);
        }
        "1"
    } else if d == 2 {
        proof {
            reveal_strlit("2");
            assert("2"@ =~= seq![digit_char(2)]);
        }
        "2"
    } else if d == 3 {
        proof {
            reveal_strlit("3");
            assert("3"@ =~= seq![digit_char(3)]);
        }
        "3"
    } else if d == 4 {
        proof {
            reveal_strlit("4");
            assert("4"@ =~= seq![digit_char(4)]);
        }
        "4"
    } else if d == 5 {
        proof {
            reveal_strlit("5");
            assert("5"@ =~= seq![digit_char(5)]);
        }
        "5"
    } else if d == 6 {
        proof {
            reveal_strlit("6");
            assert("6"@ =~= seq![digit_char(6)]);
        }
        "6"
    } else if d == 7 {
        proof {
            reveal_strlit("7");
            assert("7"@ =~= seq![digit_char(7)]);
        }
        "7"
    } else if d == 8 {
        proof {
            reveal_strlit("8");
            assert("8"@ =~= seq![digit_char(8)]);
        }
        "8"
    } else {
        proof {
            reveal_strlit("9");
            assert("9"@ =~= seq![digit_char(9)]);
        }
        "9"
    }
}

/// Render a natural number in decimal.
pub fn u32_dec_string(n: u32) -> (s: String)
    ensures
        s@ == dec_digits(n as nat),
    decreases n,
{
    if n < 10 {
        String::from_str(digit_str(n))
    } else {
        let mut s = u32_dec_string(n / 10);
        s.append(digit_str(n % 10));
        s
    }
}

/// Render a signed number in decimal.
pub fn i32_dec_string(n: i32) -> (s: String)
    ensures
        s@ == int_dec(n as int),
{
    if n >= 0 {
        let s = u32_dec_string(n as u32);
        proof {
            assert(n as u32 as nat == n as int as nat);
        }
        s
    } else {
        let magnitude_wide: i64 = -(n as i64);
        proof {
            assert(0 <= magnitude_wide <= u32::MAX);
        }
        let magnitude: u32 = magnitude_wide as u32;
        let mut s = String::from_str("-");
        let digits = u32_dec_string(magnitude);
        s.append(digits.as_str());
        proof {
            reveal_strlit("-");
            assert("-"@ =~= seq!['-']);
            assert(magnitude as nat == (-(n as int)) as nat);
        }
        s
    }
}

/// The parking-brake state line sent to a panel.
pub open spec fn parking_brake_line_spec(on: bool) -> Seq<char> {
    "PARKING_BRAKE:"@ + (if on {
        "1"@
    } else {
        "0"@
    })
}

/// The digit a gear indicator line carries for one leg.
pub open spec fn gear_digit(g: LandingGearStatus) -> Seq<char> {
    match g {
        LandingGearStatus::Up => "0"@,
        LandingGearStatus::Down => "1"@,
        LandingGearStatus::Unknown => "2"@,
    }
}

/// The nose-gear indicator line sent to a panel.
pub open spec fn front_gear_line_spec(g: LandingGearStatus) -> Seq<char> {
    "FRONT_GEAR_LED:"@ + gear_digit(g)
}

/// The left-gear indicator line sent to a panel.
pub open spec fn left_gear_line_spec(g: LandingGearStatus) -> Seq<char> {
    "LEFT_GEAR_LED:"@ + gear_digit(g)
}

/// The right-gear indicator line sent to a panel.
pub open spec fn right_gear_line_spec(g: LandingGearStatus) -> Seq<char> {
    "RIGHT_GEAR_LED:"@ + gear_digit(g)
}

fn gear_digit_str(g: &LandingGearStatus) -> (r: &'static str)
    ensures
        r@ == gear_digit(*g),
{
    match g {
        LandingGearStatus::Up => "0",
        LandingGearStatus::Down => "1",
        LandingGearStatus::Unknown => "2",
    }
}

/// Encode the four state lines a full aircraft-state transmission consists
/// of, in the order they go over the wire.
pub fn state_lines(state: &AircraftSimState) -> (lines: Vec<String>)
    ensures
        lines@.len() == 4,
        lines@[0]@ == parking_brake_line_spec(state.parking_brake_indicator),
        lines@[1]@ == front_gear_line_spec(state.gear_center_state),
        lines@[2]@ == left_gear_line_spec(state.gear_left_state),
        lines@[3]@ == right_gear_line_spec(state.gear_right_state),
{
    let mut lines: Vec<String> = Vec::new();

    let mut brake = String::from_str("PARKING_BRAKE:");
    if state.parking_brake_indicator {
        brake.append("1");
    } else {
        brake.append("0");
    }
    lines.push(brake);

    let mut front = String::from_str("FRONT_GEAR_LED:");
    front.append(gear_digit_str(&state.gear_center_state));
    lines.push(front);

    let mut left = String::from_str("LEFT_GEAR_LED:");
    left.append(gear_digit_str(&state.gear_left_state));
    lines.push(left);

    let mut right = String::from_str("RIGHT_GEAR_LED:");
    right.append(gear_digit_str(&state.gear_right_state));
    lines.push(right);

    lines
}

/// The structured line that carries the indicated airspeed to an
/// airspeed-indicator panel.
pub open spec fn airspeed_line_spec(knots: int) -> Seq<char> {
    "Type<I-A>::Target<Airspeed-Indicator>::Content<"@ + int_dec(knots)
        + ">::Origin<Interface>;"@
}

/// Encode the airspeed line for a given indicated airspeed in knots.
pub fn airspeed_line(knots: i32) -> (s: String)
    ensures
        s@ == airspeed_line_spec(knots as int),
{
    let mut s = String::from_str("Type<I-A>::Target<Airspeed-Indicator>::Content<");
    let value = i32_dec_string(knots);
    s.append(value.as_str());
    s.append(">::Origin<Interface>;");
    s
}

/// Each line of the command table raises exactly one command: two lines
/// that decode to the same command are the same line. Together with the
/// table itself this makes the line-to-command mapping one-to-one.
pub proof fn lemma_decode_unambiguous(s1: Seq<char>, s2: Seq<char>)
    requires
        decode_spec(s1) is Some,
        decode_spec(s1) == decode_spec(s2),
    ensures
        s1 == s2,
{
}

/// Round trip through the wire: the parking-brake state line encoded for a
/// panel decodes, on the panel-to-bridge side of the table, back to the
/// parking-brake command that carries the same boolean.
#[verifier::rlimit(50)]
pub proof fn lemma_parking_brake_round_trip(on: bool)
    ensures
        decode_spec(parking_brake_line_spec(on)) == Some(
            if on {
                SimClientEvent::ParkingBrakeOn
            } else {
                SimClientEvent::ParkingBrakeOff
            },
        ),
{
    broadcast use vstd::string::group_string_axioms;

    reveal_strlit("PARKING_BRAKE:");
    reveal_strlit("0");
    reveal_strlit("1");
    reveal_strlit("PARKING_BRAKE:0");
    reveal_strlit("PARKING_BRAKE:1");
    reveal_strlit("MISC1:0");
    reveal_strlit("MISC1:1");
    reveal_strlit("MISC2:0");
    reveal_strlit("MISC2:1");
    reveal_strlit("MISC3:0");
    reveal_strlit("MISC3:1");
    reveal_strlit("MISC4:0");
    reveal_strlit("MISC4:1");
    reveal_strlit("FLAPS_UP");
    reveal_strlit("FLAPS_DN");
    assert("MISC1:0"@.len() == 7);
    assert("MISC1:1"@.len() == 7);
    assert("MISC2:0"@.len() == 7);
    assert("MISC2:1"@.len() == 7);
    assert("MISC3:0"@.len() == 7);
    assert("MISC3:1"@.len() == 7);
    assert("MISC4:0"@.len() == 7);
    assert("MISC4:1"@.len() == 7);
    assert("FLAPS_UP"@.len() == 8);
    assert("FLAPS_DN"@.len() == 8);
    assert("PARKING_BRAKE:0"@.len() == 15);
    assert("PARKING_BRAKE:1"@.len() == 15);
    assert("PARKING_BRAKE:0"@[14] == '0');
    assert("PARKING_BRAKE:1"@[14] == '1');
    if on {
        assert(parking_brake_line_spec(true) =~= "PARKING_BRAKE:1"@);
        assert(decode_spec("PARKING_BRAKE:1"@) == Some(SimClientEvent::ParkingBrakeOn));
    } else {
        assert(parking_brake_line_spec(false) =~= "PARKING_BRAKE:0"@);
        assert(decode_spec("PARKING_BRAKE:0"@) == Some(SimClientEvent::ParkingBrakeOff));
    }
}

} // verus!
