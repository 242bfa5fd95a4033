//! The EventSim main panel's link state machine.
//!
//! The link starts handshaking (it has sent `SYN` and waits for `SYN|ACK`),
//! becomes connected once `SYN|ACK` arrives, and then runs three duties per
//! loop turn: push changed aircraft state to the device, answer inbound
//! lines, and keep the line alive with periodic `PING`s. The caller owns the
//! serial transport and the channels; it feeds each duty what it observed
//! and writes out the lines the duty returns, in order.

use vstd::prelude::*;
use vstd::string::StringExecFns;

use crate::panel::LineRecv;
use crate::panel::PanelError;
use crate::panel::PanelFlow;
use crate::panel::StateRecv;
use crate::protocol::decode_command;
use crate::protocol::decode_spec;
use crate::protocol::front_gear_line_spec;
use crate::protocol::left_gear_line_spec;
use crate::protocol::parking_brake_line_spec;
use crate::protocol::right_gear_line_spec;
use crate::protocol::state_lines;
use crate::protocol::str_eq;
use crate::sim::AircraftSimState;
use crate::sim::SimClientEvent;

verus! {

/// A `PING` goes out when the link is connected and nothing was written for
/// this many milliseconds.
pub const KEEPALIVE_INTERVAL_MS: u64 = 500;

/// State of one EventSim panel link.
#[derive(Debug)]
pub struct EventSimPanel {
    /// Whether the handshake has completed.
    pub connected: bool,
    /// The last aircraft state written to the device, if any. State lines
    /// go out only when a received state differs from this one.
    pub aircraft_sim_state: Option<AircraftSimState>,
    /// When the link last wrote a line, in the caller's monotone
    /// millisecond clock. The keepalive duty measures from here.
    pub last_write_ms: u64,
}

impl EventSimPanel {
    /// A fresh link: handshaking, nothing sent yet.
    pub fn new() -> (p: Self)
        ensures
            !p.connected,
            p.aircraft_sim_state is None,
            p.last_write_ms == 0,
    {
        EventSimPanel { connected: false, aircraft_sim_state: None, last_write_ms: 0 }
    }

    /// The line that opens the handshake. Sending it counts as a write, so
    /// it also starts the keepalive clock.
    pub fn handshake_init(&mut self, now_ms: u64) -> (line: String)
        ensures
            line@ == "SYN"@,
            final(self).connected == old(self).connected,
            final(self).aircraft_sim_state == old(self).aircraft_sim_state,
            final(self).last_write_ms == now_ms,
    {
        self.last_write_ms = now_ms;
        String::from_str("SYN")
    }

    /// Queued aircraft states are consumed only once the link is connected;
    /// before that they wait in the channel.
    pub fn should_poll_state(&self) -> (r: bool)
        ensures
            r == self.connected,
    {
        self.connected
    }

    /// Outbound state push: write the full state to the device if and only
    /// if it differs from the last state written (or none was ever
    /// written), and remember it as the new baseline. Equal states write
    /// nothing. A closed channel stops the link cleanly.
    pub fn handle_state(&mut self, recv: StateRecv, now_ms: u64) -> (r: (Vec<String>, PanelFlow))
        ensures
            final(self).connected == old(self).connected,
            recv matches StateRecv::Closed ==> (r.0@.len() == 0 && r.1 == PanelFlow::Exit
                && *final(self) == *old(self)),
            recv matches StateRecv::Empty ==> (r.0@.len() == 0 && r.1 == PanelFlow::Proceed
                && *final(self) == *old(self)),
            recv matches StateRecv::State(s) ==> (r.1 == PanelFlow::Proceed
                && final(self).aircraft_sim_state == Some(s) && (if old(
                self,
            ).aircraft_sim_state == Some(s) {
                r.0@.len() == 0 && final(self).last_write_ms == old(self).last_write_ms
            } else {
                r.0@.len() == 4 && r.0@[0]@ == parking_brake_line_spec(s.parking_brake_indicator)
                    && r.0@[1]@ == front_gear_line_spec(s.gear_center_state) && r.0@[2]@
                    == left_gear_line_spec(s.gear_left_state) && r.0@[3]@ == right_gear_line_spec(
                    s.gear_right_state,
                ) && final(self).last_write_ms == now_ms
            })),
    {
        match recv {
            StateRecv::Closed => (Vec::new(), PanelFlow::Exit),
            StateRecv::Empty => (Vec::new(), PanelFlow::Proceed),
            StateRecv::State(s) => {
                let changed = match &self.aircraft_sim_state {
                    Some(prev) => !(*prev == s),
                    None => true,
                };
                let writes = if changed {
                    self.last_write_ms = now_ms;
                    state_lines(&s)
                } else {
                    Vec::new()
                };
                self.aircraft_sim_state = Some(s);
                (writes, PanelFlow::Proceed)
            },
        }
    }

    /// Inbound decode: classify one read outcome. `RST` is fatal in every
    /// link state. While handshaking, `SYN|ACK` connects the link and is
    /// answered with `ACK`; every other line is ignored. Once connected,
    /// `PING` is answered with `PONG`, `PONG` is a no-op, a line from the
    /// command table becomes the command to push to the simulation link,
    /// and an unrecognized line is silently ignored.
    pub fn handle_line(&mut self, recv: LineRecv, now_ms: u64) -> (r: (
        Option<String>,
        Option<SimClientEvent>,
        PanelFlow,
    ))
        ensures
            final(self).aircraft_sim_state == old(self).aircraft_sim_state,
            recv matches LineRecv::Empty ==> (r.0 is None && r.1 is None && r.2
                == PanelFlow::Proceed && *final(self) == *old(self)),
            recv matches LineRecv::Failed(m) ==> (r.0 is None && r.1 is None && r.2
                == PanelFlow::Fatal(PanelError::Io(m)) && *final(self) == *old(self)),
            recv matches LineRecv::Line(l) ==> ({
                &&& (l@ == "RST"@ ==> r.0 is None && r.1 is None && r.2 == PanelFlow::Fatal(
                    PanelError::Disconnect,
                ) && *final(self) == *old(self))
                &&& (l@ == "SYN|ACK"@ ==> (r.0 matches Some(w) && w@ == "ACK"@) && r.1 is None
                    && r.2 == PanelFlow::Proceed && final(self).connected
                    && final(self).last_write_ms == now_ms)
                &&& (!old(self).connected && l@ != "RST"@ && l@ != "SYN|ACK"@ ==> r.0 is None
                    && r.1 is None && r.2 == PanelFlow::Proceed && *final(self) == *old(self))
                &&& (old(self).connected && l@ == "PING"@ ==> (r.0 matches Some(w) && w@
                    == "PONG"@) && r.1 is None && r.2 == PanelFlow::Proceed
                    && final(self).connected && final(self).last_write_ms == now_ms)
                &&& (old(self).connected && l@ == "PONG"@ ==> r.0 is None && r.1 is None && r.2
                    == PanelFlow::Proceed && *final(self) == *old(self))
                &&& (old(self).connected && l@ != "RST"@ && l@ != "SYN|ACK"@ && l@ != "PING"@ && l@
                    != "PONG"@ ==> r.0 is None && r.1 == decode_spec(l@) && r.2
                    == PanelFlow::Proceed && *final(self) == *old(self))
            }),
    {
        proof {
            broadcast use vstd::string::group_string_axioms;

            reveal_strlit("RST");
            reveal_strlit("SYN|ACK");
            reveal_strlit("PING");
            reveal_strlit("PONG");
            assert("RST"@.len() == 3);
            assert("SYN|ACK"@.len() == 7);
            assert("PING"@.len() == 4);
            assert("PONG"@.len() == 4);
            assert("PING"@[1] == 'I');
            assert("PONG"@[1] == 'O');
        }
        match recv {
            LineRecv::Empty => (None, None, PanelFlow::Proceed),
            LineRecv::Failed(m) => (None, None, PanelFlow::Fatal(PanelError::Io(m))),
            LineRecv::Line(l) => {
                if str_eq(l.as_str(), "RST") {
                    (None, None, PanelFlow::Fatal(PanelError::Disconnect))
                } else if str_eq(l.as_str(), "SYN|ACK") {
                    self.connected = true;
                    self.last_write_ms = now_ms;
                    (Some(String::from_str("ACK")), None, PanelFlow::Proceed)
                } else if !self.connected {
                    (None, None, PanelFlow::Proceed)
                } else if str_eq(l.as_str(), "PING") {
                    self.last_write_ms = now_ms;
                    (Some(String::from_str("PONG")), None, PanelFlow::Proceed)
                } else if str_eq(l.as_str(), "PONG") {
                    (None, None, PanelFlow::Proceed)
                } else {
                    (None, decode_command(l.as_str()), PanelFlow::Proceed)
                }
            },
        }
    }

    /// Keepalive: while connected, exactly one `PING` goes out as soon as
    /// nothing was written for the keepalive interval; writing it restarts
    /// the clock. Before the handshake completes no probe is sent.
    pub fn keepalive(&mut self, now_ms: u64) -> (ping: Option<String>)
        requires
            now_ms >= old(self).last_write_ms,
        ensures
            final(self).connected == old(self).connected,
            final(self).aircraft_sim_state == old(self).aircraft_sim_state,
            if old(self).connected && now_ms - old(self).last_write_ms >= KEEPALIVE_INTERVAL_MS {
                (ping matches Some(p) && p@ == "PING"@) && final(self).last_write_ms == now_ms
            } else {
                ping is None && final(self).last_write_ms == old(self).last_write_ms
            },
    {
        if self.connected && now_ms - self.last_write_ms >= KEEPALIVE_INTERVAL_MS {
            self.last_write_ms = now_ms;
            Some(String::from_str("PING"))
        } else {
            None
        }
    }
}

} // verus!
