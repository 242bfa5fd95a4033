//! The simulator side of the bridge: the aircraft-state snapshot delivered
//! by the simulation host, the closed set of client events the bridge can
//! raise against it, and the simulation link state machine that registers
//! with the host, fans state out to the panels and forwards their commands.

use vstd::prelude::*;
use vstd::pervasive::VecAdditionalExecFns;

verus! {

/// Position of one landing-gear leg as reported by the simulator.
#[derive(Clone, Copy, Debug, PartialEq, Eq, Structural)]
pub enum LandingGearStatus {
    Unknown,
    Up,
    Down,
}

impl LandingGearStatus {
    /// Digit shown on a panel's gear indicator: up is 0, down is 1, and 2
    /// stands for a leg whose position the simulator did not resolve.
    pub open spec fn as_int_spec(self) -> int {
        match self {
            LandingGearStatus::Up => 0,
            LandingGearStatus::Down => 1,
            LandingGearStatus::Unknown => 2,
        }
    }

    pub fn as_int(&self) -> (r: i32)
        ensures
            r == self.as_int_spec(),
    {
        match self {
            LandingGearStatus::Up => 0,
            LandingGearStatus::Down => 1,
            LandingGearStatus::Unknown => 2,
        }
    }
}

/// Immutable snapshot of the simulator telemetry the panels care about.
///
/// A snapshot is only ever built from a complete telemetry notification.
/// Two snapshots are equal exactly when all fields are equal; that equality
/// is what a panel link uses to decide whether to retransmit state.
/// The airspeed is carried in whole knots, as a panel displays it.
#[derive(Clone, Copy, Debug, PartialEq, Eq, Structural)]
pub struct AircraftSimState {
    pub parking_brake_indicator: bool,
    pub gear_center_state: LandingGearStatus,
    pub gear_left_state: LandingGearStatus,
    pub gear_right_state: LandingGearStatus,
    pub airspeed: i32,
}

/// A discrete command the bridge can raise against the simulation host,
/// originating from a hardware input on a panel.
#[derive(Clone, Copy, Debug, PartialEq, Eq, Structural)]
pub enum SimClientEvent {
    LandingLightsOn,
    LandingLightsOff,
    TaxiLightsOn,
    TaxiLightsOff,
    StrobeLightsOn,
    StrobeLightsOff,
    NavLightsOn,
    NavLightsOff,
    FlapsUp,
    FlapsDown,
    ParkingBrakeOn,
    ParkingBrakeOff,
    LandingGearUp,
    LandingGearDown,
}

impl SimClientEvent {
    /// Numeric identifier under which this event is registered with the host.
    pub open spec fn event_id_spec(self) -> int {
        match self {
            SimClientEvent::LandingLightsOn => 0,
            SimClientEvent::LandingLightsOff => 1,
            SimClientEvent::TaxiLightsOn => 2,
            SimClientEvent::TaxiLightsOff => 3,
            SimClientEvent::StrobeLightsOn => 4,
            SimClientEvent::StrobeLightsOff => 5,
            SimClientEvent::NavLightsOn => 6,
            SimClientEvent::NavLightsOff => 7,
            SimClientEvent::FlapsUp => 8,
            SimClientEvent::FlapsDown => 9,
            SimClientEvent::ParkingBrakeOn => 10,
            SimClientEvent::ParkingBrakeOff => 11,
            SimClientEvent::LandingGearUp => 12,
            SimClientEvent::LandingGearDown => 13,
        }
    }

    pub fn event_id(&self) -> (r: u32)
        ensures
            r == self.event_id_spec(),
    {
        match self {
            SimClientEvent::LandingLightsOn => 0,
            SimClientEvent::LandingLightsOff => 1,
            SimClientEvent::TaxiLightsOn => 2,
            SimClientEvent::TaxiLightsOff => 3,
            SimClientEvent::StrobeLightsOn => 4,
            SimClientEvent::StrobeLightsOff => 5,
            SimClientEvent::NavLightsOn => 6,
            SimClientEvent::NavLightsOff => 7,
            SimClientEvent::FlapsUp => 8,
            SimClientEvent::FlapsDown => 9,
            SimClientEvent::ParkingBrakeOn => 10,
            SimClientEvent::ParkingBrakeOff => 11,
            SimClientEvent::LandingGearUp => 12,
            SimClientEvent::LandingGearDown => 13,
        }
    }

    /// Symbolic name of the simulator event this command maps to. The two
    /// parking-brake commands share one host event and differ in payload.
    pub open spec fn event_name_spec(self) -> Seq<char> {
        match self {
            SimClientEvent::LandingLightsOn => "LANDING_LIGHTS_ON"@,
            SimClientEvent::LandingLightsOff => "LANDING_LIGHTS_OFF"@,
            SimClientEvent::TaxiLightsOn => "TAXI_LIGHTS_ON"@,
            SimClientEvent::TaxiLightsOff => "TAXI_LIGHTS_OFF"@,
            SimClientEvent::StrobeLightsOn => "STROBES_ON"@,
            SimClientEvent::StrobeLightsOff => "STROBES_OFF"@,
            SimClientEvent::NavLightsOn => "NAV_LIGHTS_ON"@,
            SimClientEvent::NavLightsOff => "NAV_LIGHTS_OFF"@,
            SimClientEvent::FlapsUp => "FLAPS_DECR"@,
            SimClientEvent::FlapsDown => "FLAPS_INCR"@,
            SimClientEvent::ParkingBrakeOn => "PARKING_BRAKE_SET"@,
            SimClientEvent::ParkingBrakeOff => "PARKING_BRAKE_SET"@,
            SimClientEvent::LandingGearUp => "GEAR_UP"@,
            SimClientEvent::LandingGearDown => "GEAR_DOWN"@,
        }
    }

    pub fn event_name(&self) -> (r: &'static str)
        ensures
            r@ == self.event_name_spec(),
    {
        match self {
            SimClientEvent::LandingLightsOn => "LANDING_LIGHTS_ON",
            SimClientEvent::LandingLightsOff => "LANDING_LIGHTS_OFF",
            SimClientEvent::TaxiLightsOn => "TAXI_LIGHTS_ON",
            SimClientEvent::TaxiLightsOff => "TAXI_LIGHTS_OFF",
            SimClientEvent::StrobeLightsOn => "STROBES_ON",
            SimClientEvent::StrobeLightsOff => "STROBES_OFF",
            SimClientEvent::NavLightsOn => "NAV_LIGHTS_ON",
            SimClientEvent::NavLightsOff => "NAV_LIGHTS_OFF",
            SimClientEvent::FlapsUp => "FLAPS_DECR",
            SimClientEvent::FlapsDown => "FLAPS_INCR",
            SimClientEvent::ParkingBrakeOn => "PARKING_BRAKE_SET",
            SimClientEvent::ParkingBrakeOff => "PARKING_BRAKE_SET",
            SimClientEvent::LandingGearUp => "GEAR_UP",
            SimClientEvent::LandingGearDown => "GEAR_DOWN",
        }
    }

    /// Payload sent with the host event: setting the parking brake carries
    /// 1, releasing it carries 0, every other command carries no data.
    pub open spec fn data_spec(self) -> int {
        match self {
            SimClientEvent::ParkingBrakeOn => 1,
            _ => 0,
        }
    }

    pub fn data(&self) -> (r: u32)
        ensures
            r == self.data_spec(),
    {
        match self {
            SimClientEvent::ParkingBrakeOn => 1,
            _ => 0,
        }
    }

    /// Every command variant, in registration order. On connection the
    /// simulation link registers each of these with the host before it
    /// lets any command through.
    pub open spec fn all_events_spec() -> Seq<SimClientEvent> {
        seq![
            SimClientEvent::LandingLightsOn,
            SimClientEvent::LandingLightsOff,
            SimClientEvent::TaxiLightsOn,
            SimClientEvent::TaxiLightsOff,
            SimClientEvent::StrobeLightsOn,
            SimClientEvent::StrobeLightsOff,
            SimClientEvent::NavLightsOn,
            SimClientEvent::NavLightsOff,
            SimClientEvent::FlapsUp,
            SimClientEvent::FlapsDown,
            SimClientEvent::ParkingBrakeOn,
            SimClientEvent::ParkingBrakeOff,
            SimClientEvent::LandingGearUp,
            SimClientEvent::LandingGearDown,
        ]
    }

    pub fn all_events() -> (r: Vec<SimClientEvent>)
        ensures
            r@ == Self::all_events_spec(),
    {
        let mut r: Vec<SimClientEvent> = Vec::new();
        r.push(SimClientEvent::LandingLightsOn);
        r.push(SimClientEvent::LandingLightsOff);
        r.push(SimClientEvent::TaxiLightsOn);
        r.push(SimClientEvent::TaxiLightsOff);
        r.push(SimClientEvent::StrobeLightsOn);
        r.push(SimClientEvent::StrobeLightsOff);
        r.push(SimClientEvent::NavLightsOn);
        r.push(SimClientEvent::NavLightsOff);
        r.push(SimClientEvent::FlapsUp);
        r.push(SimClientEvent::FlapsDown);
        r.push(SimClientEvent::ParkingBrakeOn);
        r.push(SimClientEvent::ParkingBrakeOff);
        r.push(SimClientEvent::LandingGearUp);
        r.push(SimClientEvent::LandingGearDown);
        proof {
            assert(r@ =~= Self::all_events_spec());
        }
        r
    }

    /// The registration list is exhaustive: every command variant stands in
    /// it, so no command can arrive at the host without a mapping.
    pub proof fn lemma_all_events_complete(e: SimClientEvent)
        ensures
            Self::all_events_spec().contains(e),
    {
        match e {
            SimClientEvent::LandingLightsOn => assert(Self::all_events_spec()[0] == e),
            SimClientEvent::LandingLightsOff => assert(Self::all_events_spec()[1] == e),
            SimClientEvent::TaxiLightsOn => assert(Self::all_events_spec()[2] == e),
            SimClientEvent::TaxiLightsOff => assert(Self::all_events_spec()[3] == e),
            SimClientEvent::StrobeLightsOn => assert(Self::all_events_spec()[4] == e),
            SimClientEvent::StrobeLightsOff => assert(Self::all_events_spec()[5] == e),
            SimClientEvent::NavLightsOn => assert(Self::all_events_spec()[6] == e),
            SimClientEvent::NavLightsOff => assert(Self::all_events_spec()[7] == e),
            SimClientEvent::FlapsUp => assert(Self::all_events_spec()[8] == e),
            SimClientEvent::FlapsDown => assert(Self::all_events_spec()[9] == e),
            SimClientEvent::ParkingBrakeOn => assert(Self::all_events_spec()[10] == e),
            SimClientEvent::ParkingBrakeOff => assert(Self::all_events_spec()[11] == e),
            SimClientEvent::LandingGearUp => assert(Self::all_events_spec()[12] == e),
            SimClientEvent::LandingGearDown => assert(Self::all_events_spec()[13] == e),
        }
    }
}

/// After a session ends in any way but a clean exit, the link waits this
/// long before it tries to connect again.
pub const RECONNECT_BACKOFF_MS: u64 = 5000;

/// One notification observed from the simulation host, reduced to the kinds
/// the link acts on. Anything else is `Other` and is ignored.
#[derive(Clone, Copy, Debug, PartialEq, Eq, Structural)]
pub enum SimNotification {
    /// The host accepted the connection.
    Open,
    /// The host shut down; a peaceful disconnect, not an error.
    Quit,
    /// A complete telemetry snapshot arrived.
    Data(AircraftSimState),
    /// A notification kind the bridge does not use.
    Other,
}

/// One non-blocking poll of the fan-in command channel.
#[derive(Clone, Copy, Debug, PartialEq, Eq, Structural)]
pub enum CommandPoll {
    /// No command was waiting this tick.
    Empty,
    /// One panel command was drained.
    Received(SimClientEvent),
    /// Every panel sender is gone; no command will ever arrive again.
    Closed,
}

/// What the simulation link does in reaction to a notification.
#[derive(Clone, Copy, Debug, PartialEq, Eq, Structural)]
pub enum NotifyAction {
    /// Register the telemetry schema and every command mapping with the
    /// host, then report completion with `registration_complete`.
    Register,
    /// Copy this state to every panel still in the fan-out set.
    Deliver(AircraftSimState),
    /// End the session peacefully; the outer loop decides what follows.
    EndSession,
    /// Nothing to do.
    Ignore,
}

/// What the simulation link does with a polled command.
#[derive(Clone, Copy, Debug, PartialEq, Eq, Structural)]
pub enum CommandAction {
    /// Send this event to the host under its registered mapping.
    Transmit(SimClientEvent),
    /// The command channel is closed for good: leave the run loop.
    Exit,
    /// Nothing to do.
    Idle,
}

/// Why one event-loop session against the host ended.
#[derive(Clone, Copy, Debug, PartialEq, Eq, Structural)]
pub enum SessionOutcome {
    /// The command channel closed: the bridge is shutting down.
    Exit,
    /// The host announced `Quit`.
    Peaceful,
    /// The connection attempt or the host API failed.
    Failed,
}

/// What the outer run loop does after a session ends.
#[derive(Clone, Copy, Debug, PartialEq, Eq, Structural)]
pub enum RunDecision {
    /// Leave the run loop; the link's thread is done.
    Stop,
    /// Try to connect again after waiting this many milliseconds.
    RetryAfterMs(u64),
}

/// How the link reacts to each notification kind.
pub open spec fn notify_action_spec(n: SimNotification) -> NotifyAction {
    match n {
        SimNotification::Open => NotifyAction::Register,
        SimNotification::Quit => NotifyAction::EndSession,
        SimNotification::Data(s) => NotifyAction::Deliver(s),
        SimNotification::Other => NotifyAction::Ignore,
    }
}

/// How the link reacts to each command-poll outcome once connected.
pub open spec fn command_action_spec(poll: CommandPoll) -> CommandAction {
    match poll {
        CommandPoll::Received(e) => CommandAction::Transmit(e),
        CommandPoll::Closed => CommandAction::Exit,
        CommandPoll::Empty => CommandAction::Idle,
    }
}

/// How the outer run loop goes on after a session: only a clean exit stops
/// the link; a peaceful disconnect and a failure both retry after the fixed
/// backoff. The host being away is a normal condition, never fatal.
pub open spec fn session_decision_spec(outcome: SessionOutcome) -> RunDecision {
    match outcome {
        SessionOutcome::Exit => RunDecision::Stop,
        SessionOutcome::Peaceful => RunDecision::RetryAfterMs(RECONNECT_BACKOFF_MS),
        SessionOutcome::Failed => RunDecision::RetryAfterMs(RECONNECT_BACKOFF_MS),
    }
}

/// State of the simulation link: whether the host connection is registered
/// and which panels are still in the fan-out set. The caller owns the host
/// connection and the channels; it feeds the link what it observed and
/// performs the actions the link decides on.
#[derive(Debug)]
pub struct SimCommunicator {
    /// True only between a completed registration and the end of the
    /// session. Commands are forwarded only while this holds, so none is
    /// ever sent before its mapping exists.
    pub connected: bool,
    /// One slot per registered panel: true while the panel's state channel
    /// still accepts sends.
    pub panels: Vec<bool>,
}

impl SimCommunicator {
    /// A link that knows its panels but is not yet connected.
    pub fn new(panel_count: usize) -> (s: Self)
        ensures
            !s.connected,
            s.panels@.len() == panel_count,
            forall|i: int| 0 <= i < panel_count ==> s.panels@[i],
    {
        let mut panels: Vec<bool> = Vec::new();
        let mut i: usize = 0;
        while i < panel_count
            invariant
                i <= panel_count,
                panels@.len() == i,
                forall|j: int| 0 <= j < i ==> panels@[j],
            decreases panel_count - i,
        {
            panels.push(true);
            i = i + 1;
        }
        SimCommunicator { connected: false, panels }
    }

    /// Classify one host notification into the action to perform.
    pub fn handle_notification(&self, n: SimNotification) -> (r: NotifyAction)
        ensures
            r == notify_action_spec(n),
    {
        match n {
            SimNotification::Open => NotifyAction::Register,
            SimNotification::Quit => NotifyAction::EndSession,
            SimNotification::Data(s) => NotifyAction::Deliver(s),
            SimNotification::Other => NotifyAction::Ignore,
        }
    }

    /// The fan-in channel is drained only while connected, so a command
    /// never reaches the host before its mapping is registered.
    pub fn should_forward_commands(&self) -> (r: bool)
        ensures
            r == self.connected,
    {
        self.connected
    }

    /// Decide what to do with one polled command.
    pub fn handle_command_poll(&self, poll: CommandPoll) -> (r: CommandAction)
        requires
            self.connected,
        ensures
            r == command_action_spec(poll),
    {
        match poll {
            CommandPoll::Received(e) => CommandAction::Transmit(e),
            CommandPoll::Closed => CommandAction::Exit,
            CommandPoll::Empty => CommandAction::Idle,
        }
    }

    /// The telemetry schema and all fourteen command mappings are in place:
    /// from here on commands may flow to the host.
    pub fn registration_complete(&mut self)
        ensures
            final(self).connected,
            final(self).panels@ == old(self).panels@,
    {
        self.connected = true;
    }

    /// How many panel slots the fan-out set was created with.
    pub fn panel_count(&self) -> (n: usize)
        ensures
            n == self.panels@.len(),
    {
        self.panels.len()
    }

    /// Whether a delivered state must still be copied to this panel.
    pub fn panel_active(&self, i: usize) -> (r: bool)
        requires
            i < self.panels@.len(),
        ensures
            r == self.panels@[i as int],
    {
        self.panels[i]
    }

    /// A send to this panel failed: its receiver is gone. Remove exactly
    /// this panel from the fan-out set and keep every other slot as it was;
    /// the loss of one panel never aborts the session.
    pub fn mark_panel_dead(&mut self, i: usize)
        requires
            i < old(self).panels@.len(),
        ensures
            final(self).connected == old(self).connected,
            final(self).panels@ == old(self).panels@.update(i as int, false),
    {
        self.panels.set(i, false);
    }

    /// The session against the host is over: drop to disconnected and tell
    /// the outer loop whether to stop or to retry after the fixed backoff.
    pub fn end_session(&mut self, outcome: SessionOutcome) -> (d: RunDecision)
        ensures
            !final(self).connected,
            final(self).panels@ == old(self).panels@,
            d == session_decision_spec(outcome),
    {
        self.connected = false;
        match outcome {
            SessionOutcome::Exit => RunDecision::Stop,
            SessionOutcome::Peaceful => RunDecision::RetryAfterMs(RECONNECT_BACKOFF_MS),
            SessionOutcome::Failed => RunDecision::RetryAfterMs(RECONNECT_BACKOFF_MS),
        }
    }
}

/// Fan-out independence: removing one failed panel from the fan-out set
/// leaves every other panel in it, so a dead receiver never costs another
/// panel its next state.
pub proof fn lemma_fanout_independence(panels: Seq<bool>, failed: int, other: int)
    requires
        0 <= failed < panels.len(),
        0 <= other < panels.len(),
        failed != other,
        panels[other],
    ensures
        panels.update(failed, false)[other],
{
}

/// A `Quit` notification ends the session peacefully, and a peaceful end
/// retries after the fixed backoff instead of stopping: the link's thread
/// outlives the host. Together with `end_session`, which always clears
/// `connected`, this is the reconnect behaviour of the link.
pub proof fn lemma_quit_reconnects()
    ensures
        notify_action_spec(SimNotification::Quit) == NotifyAction::EndSession,
        session_decision_spec(SessionOutcome::Peaceful) == RunDecision::RetryAfterMs(
            RECONNECT_BACKOFF_MS,
        ),
        session_decision_spec(SessionOutcome::Peaceful) != RunDecision::Stop,
{
}

} // verus!
