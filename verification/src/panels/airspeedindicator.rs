//! The airspeed-indicator panel's link state machine.
//!
//! This panel does not run the SYN/ACK handshake: it identifies itself with
//! a banner string right after the port opens. Once the banner is accepted
//! the link only pushes airspeed lines; it reads nothing further and sends
//! no keepalive. Every received state is written out as it arrives.

use vstd::prelude::*;
use vstd::string::StringSliceAdditionalSpecFns;

use crate::panel::PanelError;
use crate::panel::PanelFlow;
use crate::panel::StateRecv;
use crate::protocol::airspeed_line;
use crate::protocol::airspeed_line_spec;

verus! {

/// The banner an airspeed-indicator device announces itself with, as the
/// raw bytes read from the port up to the first `;`.
pub open spec fn banner_bytes() -> Seq<u8> {
    "Name<Airspeed-Indicator>;".spec_bytes()
}

/// State of one airspeed-indicator panel link. The link keeps no baseline
/// and no clock: it writes each state as it comes.
#[derive(Debug)]
pub struct AirspeedIndicatorPanel {
}

impl AirspeedIndicatorPanel {
    /// A fresh link, waiting for the device banner.
    pub fn new() -> (p: Self) {
        AirspeedIndicatorPanel {}
    }

    /// Check the device banner: anything but the expected banner means the
    /// port is connected to some other device and the link must end.
    pub fn check_banner(&self, banner: &[u8]) -> (r: Result<(), PanelError>)
        ensures
            banner@ == banner_bytes() ==> r is Ok,
            banner@ != banner_bytes() ==> r == Err::<(), PanelError>(PanelError::WrongDevice),
    {
        let expected: &[u8] = "Name<Airspeed-Indicator>;".as_bytes();
        if banner.len() != expected.len() {
            return Err(PanelError::WrongDevice);
        }
        let mut i: usize = 0;
        while i < expected.len()
            invariant
                i <= expected.len(),
                banner@.len() == expected@.len(),
                expected@ == banner_bytes(),
                forall|j: int| 0 <= j < i ==> banner@[j] == expected@[j],
            decreases expected.len() - i,
        {
            if banner[i] != expected[i] {
                return Err(PanelError::WrongDevice);
            }
            i = i + 1;
        }
        proof {
            assert(banner@ =~= banner_bytes());
        }
        Ok(())
    }

    /// Outbound push: every received state becomes one airspeed line for
    /// the device. A closed channel stops the link cleanly.
    pub fn handle_state(&self, recv: StateRecv) -> (r: (Option<String>, PanelFlow))
        ensures
            recv matches StateRecv::Closed ==> r.0 is None && r.1 == PanelFlow::Exit,
            recv matches StateRecv::Empty ==> r.0 is None && r.1 == PanelFlow::Proceed,
            recv matches StateRecv::State(s) ==> (r.0 matches Some(w) && w@ == airspeed_line_spec(
                s.airspeed as int,
            )) && r.1 == PanelFlow::Proceed,
    {
        match recv {
            StateRecv::Closed => (None, PanelFlow::Exit),
            StateRecv::Empty => (None, PanelFlow::Proceed),
            StateRecv::State(s) => (Some(airspeed_line(s.airspeed)), PanelFlow::Proceed),
        }
    }
}

} // verus!
