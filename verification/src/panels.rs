//! The panel link state machines, one module per panel kind.

pub mod airspeedindicator;
pub mod eventsim;
