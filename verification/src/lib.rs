//! Verified core of a bridge between a flight-simulation host and physical
//! instrument panels attached over serial lines.
//!
//! The crate holds the pure logic of the bridge: the aircraft-state snapshot
//! and its change detection, the line-oriented wire protocol spoken with a
//! panel (handshake, keepalive, command decode, state encode), the per-panel
//! link state machines, and the simulation-side link that registers with the
//! host, fans state out to every panel and forwards panel commands in. All
//! I/O — serial ports, the host API, channels and threads — lives with the
//! caller, which feeds each link the events it observed and performs the
//! actions the link decides on.

use vstd::prelude::*;

use crate::sim::AircraftSimState;
use crate::sim::SimClientEvent;

pub mod panel;
pub mod panels;
pub mod protocol;
pub mod sim;

verus! {

/// A message carried between the simulation link and a panel link.
#[derive(Clone, Copy, Debug, PartialEq, Eq, Structural)]
pub enum Event {
    /// The hardware state of a panel changed; the simulator must act on it.
    SetSimulator(SimClientEvent),
    /// The simulator aircraft state changed; a panel must reflect it.
    SetPanel(AircraftSimState),
}

} // verus!
