//! Tests for the simulation link: registration gating, command forwarding,
//! fan-out pruning and the reconnect policy.

use fssk_panels::sim::AircraftSimState;
use fssk_panels::sim::CommandAction;
use fssk_panels::sim::CommandPoll;
use fssk_panels::sim::LandingGearStatus;
use fssk_panels::sim::NotifyAction;
use fssk_panels::sim::RunDecision;
use fssk_panels::sim::SessionOutcome;
use fssk_panels::sim::SimClientEvent;
use fssk_panels::sim::SimCommunicator;
use fssk_panels::sim::SimNotification;
use fssk_panels::sim::RECONNECT_BACKOFF_MS;

fn telemetry() -> AircraftSimState {
    AircraftSimState {
        parking_brake_indicator: true,
        gear_center_state: LandingGearStatus::Up,
        gear_left_state: LandingGearStatus::Up,
        gear_right_state: LandingGearStatus::Up,
        airspeed: 210,
    }
}

#[test]
fn starts_disconnected_with_all_panels() {
    let link = SimCommunicator::new(3);
    assert!(!link.should_forward_commands());
    assert_eq!(link.panel_count(), 3);
    for i in 0..3 {
        assert!(link.panel_active(i));
    }
}

#[test]
fn open_triggers_registration_then_connects() {
    let mut link = SimCommunicator::new(1);
    assert_eq!(link.handle_notification(SimNotification::Open), NotifyAction::Register);
    assert!(!link.should_forward_commands());
    link.registration_complete();
    assert!(link.should_forward_commands());
}

#[test]
fn data_is_delivered_to_panels() {
    let link = SimCommunicator::new(2);
    assert_eq!(
        link.handle_notification(SimNotification::Data(telemetry())),
        NotifyAction::Deliver(telemetry())
    );
}

#[test]
fn unknown_notification_is_ignored() {
    let link = SimCommunicator::new(1);
    assert_eq!(link.handle_notification(SimNotification::Other), NotifyAction::Ignore);
}

#[test]
fn command_poll_outcomes() {
    let mut link = SimCommunicator::new(1);
    link.registration_complete();
    assert_eq!(
        link.handle_command_poll(CommandPoll::Received(SimClientEvent::FlapsDown)),
        CommandAction::Transmit(SimClientEvent::FlapsDown)
    );
    assert_eq!(link.handle_command_poll(CommandPoll::Empty), CommandAction::Idle);
    assert_eq!(link.handle_command_poll(CommandPoll::Closed), CommandAction::Exit);
}

#[test]
fn dead_panel_leaves_others_in_fanout() {
    let mut link = SimCommunicator::new(2);
    link.registration_complete();
    link.mark_panel_dead(0);
    assert!(!link.panel_active(0));
    assert!(link.panel_active(1));
    // the session survives the loss of one panel
    assert!(link.should_forward_commands());
}

#[test]
fn quit_reconnects_after_backoff() {
    let mut link = SimCommunicator::new(1);
    link.registration_complete();
    assert_eq!(link.handle_notification(SimNotification::Quit), NotifyAction::EndSession);
    let decision = link.end_session(SessionOutcome::Peaceful);
    assert_eq!(decision, RunDecision::RetryAfterMs(RECONNECT_BACKOFF_MS));
    assert!(!link.should_forward_commands());
}

#[test]
fn failure_reconnects_after_backoff() {
    let mut link = SimCommunicator::new(1);
    let decision = link.end_session(SessionOutcome::Failed);
    assert_eq!(decision, RunDecision::RetryAfterMs(RECONNECT_BACKOFF_MS));
}

#[test]
fn closed_command_channel_stops_the_link() {
    let mut link = SimCommunicator::new(1);
    link.registration_complete();
    let decision = link.end_session(SessionOutcome::Exit);
    assert_eq!(decision, RunDecision::Stop);
}

#[test]
fn fanout_survives_session_end() {
    let mut link = SimCommunicator::new(2);
    link.registration_complete();
    link.mark_panel_dead(1);
    let _ = link.end_session(SessionOutcome::Peaceful);
    assert!(link.panel_active(0));
    assert!(!link.panel_active(1));
}

#[test]
fn all_events_lists_every_command_once() {
    let events = SimClientEvent::all_events();
    assert_eq!(events.len(), 14);
    let mut seen: Vec<SimClientEvent> = Vec::new();
    for event in &events {
        assert!(!seen.contains(event));
        seen.push(*event);
    }
}

#[test]
fn event_ids_are_distinct() {
    let events = SimClientEvent::all_events();
    let mut ids: Vec<u32> = events.iter().map(|e| e.event_id()).collect();
    ids.sort();
    ids.dedup();
    assert_eq!(ids.len(), 14);
}

#[test]
fn event_names_match_host_events() {
    assert_eq!(SimClientEvent::LandingLightsOn.event_name(), "LANDING_LIGHTS_ON");
    assert_eq!(SimClientEvent::LandingLightsOff.event_name(), "LANDING_LIGHTS_OFF");
    assert_eq!(SimClientEvent::TaxiLightsOn.event_name(), "TAXI_LIGHTS_ON");
    assert_eq!(SimClientEvent::TaxiLightsOff.event_name(), "TAXI_LIGHTS_OFF");
    assert_eq!(SimClientEvent::StrobeLightsOn.event_name(), "STROBES_ON");
    assert_eq!(SimClientEvent::StrobeLightsOff.event_name(), "STROBES_OFF");
    assert_eq!(SimClientEvent::NavLightsOn.event_name(), "NAV_LIGHTS_ON");
    assert_eq!(SimClientEvent::NavLightsOff.event_name(), "NAV_LIGHTS_OFF");
    assert_eq!(SimClientEvent::FlapsUp.event_name(), "FLAPS_DECR");
    assert_eq!(SimClientEvent::FlapsDown.event_name(), "FLAPS_INCR");
    assert_eq!(SimClientEvent::ParkingBrakeOn.event_name(), "PARKING_BRAKE_SET");
    assert_eq!(SimClientEvent::ParkingBrakeOff.event_name(), "PARKING_BRAKE_SET");
    assert_eq!(SimClientEvent::LandingGearUp.event_name(), "GEAR_UP");
    assert_eq!(SimClientEvent::LandingGearDown.event_name(), "GEAR_DOWN");
}

#[test]
fn parking_brake_payloads() {
    assert_eq!(SimClientEvent::ParkingBrakeOn.data(), 1);
    assert_eq!(SimClientEvent::ParkingBrakeOff.data(), 0);
    assert_eq!(SimClientEvent::LandingGearDown.data(), 0);
    assert_eq!(SimClientEvent::TaxiLightsOn.data(), 0);
}

#[test]
fn gear_status_as_int() {
    assert_eq!(LandingGearStatus::Up.as_int(), 0);
    assert_eq!(LandingGearStatus::Down.as_int(), 1);
    assert_eq!(LandingGearStatus::Unknown.as_int(), 2);
}

#[test]
fn state_equality_is_field_wise() {
    let a = telemetry();
    let b = telemetry();
    assert_eq!(a, b);
    let c = AircraftSimState { airspeed: 211, ..a };
    assert_ne!(a, c);
    let d = AircraftSimState { gear_left_state: LandingGearStatus::Down, ..a };
    assert_ne!(a, d);
}
