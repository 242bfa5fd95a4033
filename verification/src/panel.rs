//! What every panel link shares: the outcome of one polled input, the flow
//! of the link's loop, and the errors a link can end with.

use vstd::prelude::*;
use vstd::string::StringExecFns;

use crate::sim::AircraftSimState;

verus! {

/// Terminal failure of one panel link. A panel link does not retry on its
/// own: whoever runs the link decides whether to start it again.
#[derive(Debug, PartialEq, Eq)]
pub enum PanelError {
    /// The serial port could not be opened; carries the port path and the
    /// textual cause.
    SerialOpen(String, String),
    /// The peer requested a reset or broke the protocol.
    Disconnect,
    /// The device behind the port did not identify as the expected panel.
    WrongDevice,
    /// The serial transport failed; carries the textual cause.
    Serial(String),
    /// Reading or writing the transport failed; carries the textual cause.
    Io(String),
}

impl PanelError {
    /// The human-readable account of this failure.
    pub open spec fn message_spec(&self) -> Seq<char> {
        match self {
            PanelError::SerialOpen(port, cause) => "Failed to connect with panel on serial port '"@
                + port@ + "': "@ + cause@,
            PanelError::Disconnect => "The panel disconnected"@,
            PanelError::WrongDevice => "Connected device is likely not the expected panel"@,
            PanelError::Serial(cause) => "Serial communication error: "@ + cause@,
            PanelError::Io(cause) => "Panel I/O error: "@ + cause@,
        }
    }

    pub fn message(&self) -> (s: String)
        ensures
            s@ == self.message_spec(),
    {
        match self {
            PanelError::SerialOpen(port, cause) => {
                let mut s = String::from_str("Failed to connect with panel on serial port '");
                s.append(port.as_str());
                s.append("': ");
                s.append(cause.as_str());
                s
            },
            PanelError::Disconnect => String::from_str("The panel disconnected"),
            PanelError::WrongDevice => String::from_str(
                "Connected device is likely not the expected panel",
            ),
            PanelError::Serial(cause) => {
                let mut s = String::from_str("Serial communication error: ");
                s.append(cause.as_str());
                s
            },
            PanelError::Io(cause) => {
                let mut s = String::from_str("Panel I/O error: ");
                s.append(cause.as_str());
                s
            },
        }
    }
}

/// One non-blocking poll of the state channel that feeds a panel link.
#[derive(Clone, Copy, Debug, PartialEq, Eq, Structural)]
pub enum StateRecv {
    /// No state was waiting this tick.
    Empty,
    /// A fresh aircraft-state snapshot arrived.
    State(AircraftSimState),
    /// The sending side is gone for good; no state will ever arrive again.
    Closed,
}

/// One bounded read of the panel's line reader. A read timeout is not an
/// error: it is reported as `Empty`, meaning no line was available this tick.
#[derive(Clone, Debug, PartialEq, Eq)]
pub enum LineRecv {
    /// No complete line was available within the read timeout.
    Empty,
    /// One line arrived, without its terminator.
    Line(String),
    /// The transport failed with the given cause; the link must end.
    Failed(String),
}

/// How the link's loop goes on after one duty ran.
#[derive(Debug, PartialEq, Eq)]
pub enum PanelFlow {
    /// Nothing fatal happened; run the next duty.
    Proceed,
    /// The link's counterpart is gone for good; stop this link cleanly.
    Exit,
    /// The link hit a terminal failure; stop and report it.
    Fatal(PanelError),
}

} // verus!
