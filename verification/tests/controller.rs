use sensor_node::controller::{
    auxiliary_level, CycleAction, CycleEvent, CycleState, NodeConfig, PowerCycleController,
    RunMode, WakeSchedule, HUMIDITY_ALERT_PERCENT,
};
use sensor_node::payload::{ByteOrder, TelemetryPayload};
use sensor_node::reading::{ReadOutcome, SensorErrorKind, SensorReading};
use sensor_node::relay::{PeerRegistry, RelayAction, RelayOutcome, RelaySession, SendStatus};
use sensor_node::surface::{render, Alignment, DrawOp, Label};

const FIRST_PEER: [u8; 6] = [72, 202, 67, 207, 242, 60];
const SECOND_PEER: [u8; 6] = [0x54, 0x32, 0x04, 0x47, 0xd2, 0x9c];

fn reading_of(temperature: f32, humidity: f32) -> SensorReading {
    SensorReading::new(temperature.to_bits(), humidity.to_bits())
}

fn display_node(mode: RunMode) -> PowerCycleController {
    let config =
        NodeConfig::new(mode, WakeSchedule { seconds: 60 }, ByteOrder::Little, PeerRegistry::empty())
            .unwrap();
    PowerCycleController::new(config)
}

fn relay_node() -> PowerCycleController {
    let peers = PeerRegistry::new(vec![FIRST_PEER, SECOND_PEER]);
    let config =
        NodeConfig::new(RunMode::OneShotRelay, WakeSchedule { seconds: 60 }, ByteOrder::Little, peers)
            .unwrap();
    PowerCycleController::new(config)
}

fn texts(ops: &[DrawOp]) -> Vec<String> {
    let mut lines = Vec::new();
    for op in ops {
        if let DrawOp::Text(Label { text, .. }) = op {
            lines.push(text.clone());
        }
    }
    lines
}

#[test]
fn auxiliary_output_is_high_above_thirty_percent() {
    assert_eq!(HUMIDITY_ALERT_PERCENT, 30);
    assert!(auxiliary_level(&ReadOutcome::Success(reading_of(23.4, 55.2))));
    assert!(auxiliary_level(&ReadOutcome::Success(reading_of(23.4, 30.1))));
    assert!(auxiliary_level(&ReadOutcome::Success(reading_of(-5.0, 100.0))));
}

#[test]
fn auxiliary_output_is_low_at_or_below_thirty_percent() {
    assert!(!auxiliary_level(&ReadOutcome::Success(reading_of(19.9, 12.0))));
    assert!(!auxiliary_level(&ReadOutcome::Success(reading_of(19.9, 30.0))));
    assert!(!auxiliary_level(&ReadOutcome::Success(reading_of(99.0, 0.0))));
    assert!(!auxiliary_level(&ReadOutcome::Success(reading_of(99.0, -1.0))));
}

#[test]
fn auxiliary_output_is_high_after_any_failure() {
    assert!(auxiliary_level(&ReadOutcome::Failure(SensorErrorKind::BusTimeout)));
    assert!(auxiliary_level(&ReadOutcome::Failure(SensorErrorKind::ChecksumOrProtocolError)));
    assert!(auxiliary_level(&ReadOutcome::Failure(SensorErrorKind::NotInitialized)));
}

#[test]
fn display_cycle_with_a_humid_reading() {
    let mut node = display_node(RunMode::ContinuousDisplay);
    assert_eq!(node.state(), CycleState::Idle);
    assert_eq!(node.handle(CycleEvent::Wake), vec![CycleAction::ReadSensor]);
    assert_eq!(node.state(), CycleState::Sampling);

    let outcome = ReadOutcome::Success(reading_of(23.4, 55.2));
    let actions = node.handle(CycleEvent::Sampled(outcome));
    assert_eq!(actions, vec![CycleAction::SetAuxiliary(true), CycleAction::Render(outcome)]);
    assert_eq!(node.state(), CycleState::Rendering);
    assert_eq!(texts(&render(&outcome)), vec!["23.4 °C".to_string(), "55.2 %".to_string()]);

    assert_eq!(node.handle(CycleEvent::Rendered), vec![CycleAction::AwaitInterrupt]);
    assert_eq!(node.state(), CycleState::PowerTransition);
    assert_eq!(node.handle(CycleEvent::PowerSettled), vec![]);
    assert_eq!(node.state(), CycleState::Idle);
}

#[test]
fn display_cycle_with_a_dry_reading_sets_the_output_low() {
    let mut node = display_node(RunMode::ContinuousDisplay);
    node.handle(CycleEvent::Wake);
    let outcome = ReadOutcome::Success(reading_of(19.9, 12.0));
    let actions = node.handle(CycleEvent::Sampled(outcome));
    assert_eq!(actions, vec![CycleAction::SetAuxiliary(false), CycleAction::Render(outcome)]);
    assert_eq!(texts(&render(&outcome)), vec!["19.9 °C".to_string(), "12.0 %".to_string()]);
}

#[test]
fn display_cycle_after_a_bus_timeout_shows_the_failure() {
    let mut node = display_node(RunMode::ContinuousDisplay);
    node.handle(CycleEvent::Wake);
    let outcome = ReadOutcome::Failure(SensorErrorKind::BusTimeout);
    let actions = node.handle(CycleEvent::Sampled(outcome));
    assert_eq!(actions, vec![CycleAction::SetAuxiliary(true), CycleAction::Render(outcome)]);
    assert_eq!(node.state(), CycleState::Rendering);
    let ops = render(&outcome);
    assert_eq!(texts(&ops), vec!["Sensor".to_string(), "read failed".to_string()]);
    assert!(matches!(&ops[1], DrawOp::Text(Label { alignment: Alignment::Center, .. })));
}

#[test]
fn one_shot_display_cycle_ends_in_deep_sleep() {
    let mut node = display_node(RunMode::OneShotDisplay);
    node.handle(CycleEvent::Wake);
    node.handle(CycleEvent::Sampled(ReadOutcome::Success(reading_of(23.4, 55.2))));
    assert_eq!(
        node.handle(CycleEvent::Rendered),
        vec![CycleAction::ArmWake(60), CycleAction::DeepSleep]
    );
    assert_eq!(node.handle(CycleEvent::PowerSettled), vec![]);
    assert_eq!(node.state(), CycleState::Asleep);
    assert_eq!(node.handle(CycleEvent::Wake), vec![]);
    assert_eq!(node.state(), CycleState::Asleep);
}

#[test]
fn relay_cycle_sends_to_both_peers_though_the_first_send_fails() {
    let mut node = relay_node();
    assert_eq!(node.handle(CycleEvent::Wake), vec![CycleAction::ReadSensor]);
    let reading = reading_of(23.4, 55.2);
    let actions = node.handle(CycleEvent::Sampled(ReadOutcome::Success(reading)));
    let expected = TelemetryPayload::encode(&reading, ByteOrder::Little);
    assert_eq!(actions, vec![CycleAction::Relay(expected)]);
    assert_eq!(node.state(), CycleState::Relaying);

    let peers = node.config.peers.clone();
    let mut session = RelaySession::begin(expected);
    let mut sent = Vec::new();
    let mut statuses = vec![SendStatus::Delivered, SendStatus::SendFailed];
    let outcome = loop {
        match session.next_action(&peers) {
            RelayAction::Send { peer, .. } => {
                sent.push(peer);
                session.record(&peers, statuses.pop().unwrap());
            }
            RelayAction::Release(outcome) => break outcome,
        }
    };
    assert_eq!(sent, vec![FIRST_PEER, SECOND_PEER]);
    assert_eq!(outcome, RelayOutcome::Completed { failed: 1 });

    assert_eq!(
        node.handle(CycleEvent::Relayed(outcome)),
        vec![CycleAction::ShutDownRadio, CycleAction::ArmWake(60), CycleAction::DeepSleep]
    );
    assert_eq!(node.state(), CycleState::PowerTransition);
    node.handle(CycleEvent::PowerSettled);
    assert_eq!(node.state(), CycleState::Asleep);
}

#[test]
fn relay_cycle_after_a_failed_read_sends_nothing() {
    let mut node = relay_node();
    node.handle(CycleEvent::Wake);
    let actions = node.handle(CycleEvent::Sampled(ReadOutcome::Failure(SensorErrorKind::BusTimeout)));
    assert_eq!(
        actions,
        vec![CycleAction::ShutDownRadio, CycleAction::ArmWake(60), CycleAction::DeepSleep]
    );
    assert!(!actions.iter().any(|action| matches!(action, CycleAction::Relay(_))));
    assert_eq!(node.state(), CycleState::PowerTransition);
}

#[test]
fn relay_cycle_ends_in_a_fault_after_a_fatal_send_error() {
    let mut node = relay_node();
    node.handle(CycleEvent::Wake);
    node.handle(CycleEvent::Sampled(ReadOutcome::Success(reading_of(23.4, 55.2))));
    let aborted = RelayOutcome::Aborted { index: 0, status: SendStatus::DuplicateInstance };
    assert_eq!(node.handle(CycleEvent::Relayed(aborted)), vec![]);
    assert_eq!(node.state(), CycleState::Faulted);
    assert_eq!(node.handle(CycleEvent::PowerSettled), vec![]);
    assert_eq!(node.handle(CycleEvent::Wake), vec![]);
    assert_eq!(node.state(), CycleState::Faulted);
}

#[test]
fn a_wake_during_a_cycle_is_ignored() {
    let mut node = display_node(RunMode::ContinuousDisplay);
    node.handle(CycleEvent::Wake);
    assert_eq!(node.handle(CycleEvent::Wake), vec![]);
    assert_eq!(node.state(), CycleState::Sampling);
    node.handle(CycleEvent::Sampled(ReadOutcome::Failure(SensorErrorKind::NotInitialized)));
    assert_eq!(node.handle(CycleEvent::Wake), vec![]);
    assert_eq!(node.state(), CycleState::Rendering);
}

#[test]
fn events_out_of_turn_change_nothing() {
    let mut node = display_node(RunMode::ContinuousDisplay);
    assert_eq!(node.handle(CycleEvent::Rendered), vec![]);
    assert_eq!(node.handle(CycleEvent::PowerSettled), vec![]);
    assert_eq!(
        node.handle(CycleEvent::Relayed(RelayOutcome::Completed { failed: 0 })),
        vec![]
    );
    assert_eq!(
        node.handle(CycleEvent::Sampled(ReadOutcome::Success(reading_of(1.0, 2.0)))),
        vec![]
    );
    assert_eq!(node.state(), CycleState::Idle);
}

#[test]
fn a_display_node_never_relays_and_a_relay_node_never_renders() {
    let events = [
        CycleEvent::Wake,
        CycleEvent::Sampled(ReadOutcome::Success(reading_of(23.4, 55.2))),
        CycleEvent::Relayed(RelayOutcome::Completed { failed: 0 }),
        CycleEvent::Rendered,
        CycleEvent::PowerSettled,
        CycleEvent::Wake,
        CycleEvent::Sampled(ReadOutcome::Failure(SensorErrorKind::BusTimeout)),
        CycleEvent::Rendered,
        CycleEvent::Relayed(RelayOutcome::Completed { failed: 0 }),
        CycleEvent::PowerSettled,
    ];
    let mut shows = display_node(RunMode::ContinuousDisplay);
    let mut relays = relay_node();
    for event in events {
        for action in shows.handle(event) {
            assert!(!matches!(action, CycleAction::Relay(_)));
        }
        assert_ne!(shows.state(), CycleState::Relaying);
        for action in relays.handle(event) {
            assert!(!matches!(action, CycleAction::Render(_)));
        }
        assert_ne!(relays.state(), CycleState::Rendering);
    }
}

#[test]
fn configuration_ties_the_peers_to_the_mode() {
    let wake = WakeSchedule { seconds: 60 };
    let peers = PeerRegistry::new(vec![FIRST_PEER]);
    assert!(NodeConfig::new(RunMode::OneShotRelay, wake, ByteOrder::Big, peers.clone()).is_some());
    assert!(NodeConfig::new(RunMode::OneShotRelay, wake, ByteOrder::Big, PeerRegistry::empty())
        .is_none());
    assert!(NodeConfig::new(RunMode::ContinuousDisplay, wake, ByteOrder::Big, peers.clone())
        .is_none());
    assert!(NodeConfig::new(RunMode::OneShotDisplay, wake, ByteOrder::Big, peers).is_none());
    assert!(NodeConfig::new(RunMode::OneShotDisplay, wake, ByteOrder::Big, PeerRegistry::empty())
        .is_some());
    assert!(RunMode::ContinuousDisplay.is_display());
    assert!(!RunMode::ContinuousDisplay.is_one_shot());
    assert!(RunMode::OneShotDisplay.is_display());
    assert!(RunMode::OneShotRelay.is_one_shot());
    assert!(!RunMode::OneShotRelay.is_display());
}

#[test]
fn outcome_wraps_the_result_of_a_read() {
    let reading = reading_of(23.4, 55.2);
    let ok = ReadOutcome::from_result(Ok(reading));
    assert_eq!(ok, ReadOutcome::Success(reading));
    assert!(ok.is_ok());
    assert_eq!(ok.reading(), Some(reading));
    let failed = ReadOutcome::from_result(Err(SensorErrorKind::ChecksumOrProtocolError));
    assert_eq!(failed, ReadOutcome::Failure(SensorErrorKind::ChecksumOrProtocolError));
    assert!(!failed.is_ok());
    assert_eq!(failed.reading(), None);
}
