//! The power-cycle controller: what a node does from one wake event to the
//! next.
//!
//! A cycle samples the sensor and then, depending on the mode the node was
//! built for, either redraws the display or relays the reading, and at last
//! returns to its waiting state. The controller decides; the firmware carries
//! out the actions it is handed and reports back with the next event.

use vstd::prelude::*;
use crate::binary32::{exceeds_thirty, greater_than_whole};
use crate::payload::{encoding, ByteOrder, TelemetryPayload};
use crate::reading::ReadOutcome;
use crate::relay::{PeerRegistry, RelayOutcome};

verus! {

/// The humidity, in percent, above which the auxiliary output is raised.
pub const HUMIDITY_ALERT_PERCENT: u32 = 30;

/// What a node does with its readings.
#[derive(Clone, Copy, Debug, PartialEq, Eq, Structural)]
pub enum RunMode {
    /// Redraw the display on every tick of a periodic timer.
    ContinuousDisplay,
    /// Redraw the display once, then sleep deeply until the next wake.
    OneShotDisplay,
    /// Relay one reading to the peers, then sleep deeply until the next wake.
    OneShotRelay,
}

impl RunMode {
    /// Whether the node shows its readings on a display.
    pub open spec fn shows(self) -> bool {
        !(self is OneShotRelay)
    }

    /// Whether the node powers down between cycles.
    pub open spec fn sleeps(self) -> bool {
        !(self is ContinuousDisplay)
    }

    pub fn is_display(&self) -> (shows: bool)
        ensures
            shows == self.shows(),
    {
        match self {
            RunMode::OneShotRelay => false,
            _ => true,
        }
    }

    pub fn is_one_shot(&self) -> (sleeps: bool)
        ensures
            sleeps == self.sleeps(),
    {
        match self {
            RunMode::ContinuousDisplay => false,
            _ => true,
        }
    }
}

/// For how long a one-shot node stays powered down between two cycles.
#[derive(Clone, Copy, Debug, PartialEq, Eq, Structural)]
pub struct WakeSchedule {
    pub seconds: u64,
}

/// The fixed configuration of a node, set once at startup.
#[derive(Clone, Debug)]
pub struct NodeConfig {
    pub mode: RunMode,
    pub wake: WakeSchedule,
    pub byte_order: ByteOrder,
    pub peers: PeerRegistry,
}

impl NodeConfig {
    /// A relaying node has at least one peer; any other node has none.
    pub open spec fn well_formed(self) -> bool {
        (self.mode is OneShotRelay) == (self.peers@.len() > 0)
    }

    /// The configuration of the given parts, if they fit together.
    pub fn new(mode: RunMode, wake: WakeSchedule, byte_order: ByteOrder, peers: PeerRegistry) -> (
        config: Option<NodeConfig>)
        ensures
            config is Some <==> (mode is OneShotRelay) == (peers@.len() > 0),
            config matches Some(c) ==> c.well_formed() && c.mode == mode && c.wake == wake
                && c.byte_order == byte_order && c.peers == peers,
    {
        let relays = !mode.is_display();
        if relays == !peers.is_empty() {
            Some(NodeConfig { mode, wake, byte_order, peers })
        } else {
            None
        }
    }
}

/// Where a cycle stands.
#[derive(Clone, Copy, Debug, PartialEq, Eq, Structural)]
pub enum CycleState {
    /// Waiting for the wake source.
    Idle,
    /// The sensor is being read.
    Sampling,
    /// The display is being redrawn.
    Rendering,
    /// The reading is being relayed.
    Relaying,
    /// The node is being returned to its waiting state.
    PowerTransition,
    /// The node sleeps deeply; only a reset starts it again, in `Idle`.
    Asleep,
    /// A fatal error ended the cycle; the node does nothing more.
    Faulted,
}

/// What the firmware reports to the controller.
#[derive(Clone, Copy, Debug, PartialEq, Eq, Structural)]
pub enum CycleEvent {
    /// The wake source fired: a timer tick, or the boot after a deep sleep.
    Wake,
    /// The sensor was read.
    Sampled(ReadOutcome),
    /// The display was redrawn.
    Rendered,
    /// The relay session ended and the radio was released.
    Relayed(RelayOutcome),
    /// The actions of the power transition were carried out.
    PowerSettled,
}

/// What the controller asks of the firmware.
#[derive(Clone, Copy, Debug, PartialEq, Eq)]
pub enum CycleAction {
    /// Read the sensor once and report `Sampled`.
    ReadSensor,
    /// Drive the auxiliary output line high (`true`) or low.
    SetAuxiliary(bool),
    /// Redraw the display for this outcome and report `Rendered`.
    Render(ReadOutcome),
    /// Relay this payload to the peers and report `Relayed`.
    Relay(TelemetryPayload),
    /// Tear the wireless stack down.
    ShutDownRadio,
    /// Arm the timed wake source for this many seconds.
    ArmWake(u64),
    /// Enter deep sleep. This does not return.
    DeepSleep,
    /// Return from the handler and wait for the next tick of the timer.
    AwaitInterrupt,
}

/// An action as contracts speak of it: a payload stands as its bytes.
pub enum ActionView {
    ReadSensor,
    SetAuxiliary(bool),
    Render(ReadOutcome),
    Relay(Seq<u8>),
    ShutDownRadio,
    ArmWake(u64),
    DeepSleep,
    AwaitInterrupt,
}

impl View for CycleAction {
    type V = ActionView;

    open spec fn view(&self) -> ActionView {
        match *self {
            CycleAction::ReadSensor => ActionView::ReadSensor,
            CycleAction::SetAuxiliary(high) => ActionView::SetAuxiliary(high),
            CycleAction::Render(outcome) => ActionView::Render(outcome),
            CycleAction::Relay(payload) => ActionView::Relay(payload@),
            CycleAction::ShutDownRadio => ActionView::ShutDownRadio,
            CycleAction::ArmWake(seconds) => ActionView::ArmWake(seconds),
            CycleAction::DeepSleep => ActionView::DeepSleep,
            CycleAction::AwaitInterrupt => ActionView::AwaitInterrupt,
        }
    }
}

/// The actions of a list, each by its view.
pub open spec fn actions_view(actions: Seq<CycleAction>) -> Seq<ActionView> {
    Seq::new(actions.len(), |i: int| actions[i]@)
}

/// Whether the auxiliary output is high for this outcome: after a failed
/// sampling, and when the humidity is above the alert level.
pub open spec fn auxiliary_high(outcome: ReadOutcome) -> bool {
    match outcome {
        ReadOutcome::Success(reading) => greater_than_whole(
            reading.humidity_bits,
            HUMIDITY_ALERT_PERCENT as nat,
        ),
        ReadOutcome::Failure(_) => true,
    }
}

/// The level to drive the auxiliary output to.
pub fn auxiliary_level(outcome: &ReadOutcome) -> (high: bool)
    ensures
        high == auxiliary_high(*outcome),
{
    match outcome {
        ReadOutcome::Success(reading) => exceeds_thirty(reading.humidity_bits),
        ReadOutcome::Failure(_) => true,
    }
}

/// The actions that return a node to its waiting state.
pub open spec fn power_actions(config: NodeConfig) -> Seq<ActionView> {
    match config.mode {
        RunMode::ContinuousDisplay => seq![ActionView::AwaitInterrupt],
        RunMode::OneShotDisplay => seq![
            ActionView::ArmWake(config.wake.seconds),
            ActionView::DeepSleep,
        ],
        RunMode::OneShotRelay => seq![
            ActionView::ShutDownRadio,
            ActionView::ArmWake(config.wake.seconds),
            ActionView::DeepSleep,
        ],
    }
}

/// The payload relayed for an outcome, if one is.
pub open spec fn relayed_bytes(config: NodeConfig, outcome: ReadOutcome) -> Option<Seq<u8>> {
    match outcome {
        ReadOutcome::Success(reading) => Some(encoding(reading, config.byte_order)),
        ReadOutcome::Failure(_) => None,
    }
}

/// The state that follows `state` on `event`. An event that the state does
/// not wait for leaves it as it is.
pub open spec fn next_state(config: NodeConfig, state: CycleState, event: CycleEvent) -> CycleState {
    match (state, event) {
        (CycleState::Idle, CycleEvent::Wake) => CycleState::Sampling,
        (CycleState::Sampling, CycleEvent::Sampled(outcome)) => if config.mode.shows() {
            CycleState::Rendering
        } else if outcome is Success {
            CycleState::Relaying
        } else {
            CycleState::PowerTransition
        },
        (CycleState::Rendering, CycleEvent::Rendered) => CycleState::PowerTransition,
        (CycleState::Relaying, CycleEvent::Relayed(outcome)) => if outcome is Completed {
            CycleState::PowerTransition
        } else {
            CycleState::Faulted
        },
        (CycleState::PowerTransition, CycleEvent::PowerSettled) => if config.mode.sleeps() {
            CycleState::Asleep
        } else {
            CycleState::Idle
        },
        _ => state,
    }
}

/// The actions that the step from `state` on `event` asks for, with each
/// payload given by its bytes.
pub open spec fn step_actions(config: NodeConfig, state: CycleState, event: CycleEvent) -> Seq<
    ActionView,
> {
    match (state, event) {
        (CycleState::Idle, CycleEvent::Wake) => seq![ActionView::ReadSensor],
        (CycleState::Sampling, CycleEvent::Sampled(outcome)) => if config.mode.shows() {
            seq![ActionView::SetAuxiliary(auxiliary_high(outcome)), ActionView::Render(outcome)]
        } else {
            match relayed_bytes(config, outcome) {
                Some(bytes) => seq![ActionView::Relay(bytes)],
                None => power_actions(config),
            }
        },
        (CycleState::Rendering, CycleEvent::Rendered) => power_actions(config),
        (CycleState::Relaying, CycleEvent::Relayed(outcome)) => if outcome is Completed {
            power_actions(config)
        } else {
            Seq::empty()
        },
        _ => Seq::empty(),
    }
}

fn power_transition(config: &NodeConfig) -> (actions: Vec<CycleAction>)
    ensures
        actions_view(actions@) == power_actions(*config),
{
    let mut actions: Vec<CycleAction> = Vec::new();
    match config.mode {
        RunMode::ContinuousDisplay => {
            actions.push(CycleAction::AwaitInterrupt);
        },
        RunMode::OneShotDisplay => {
            actions.push(CycleAction::ArmWake(config.wake.seconds));
            actions.push(CycleAction::DeepSleep);
        },
        RunMode::OneShotRelay => {
            actions.push(CycleAction::ShutDownRadio);
            actions.push(CycleAction::ArmWake(config.wake.seconds));
            actions.push(CycleAction::DeepSleep);
        },
    }
    assert(actions_view(actions@) =~= power_actions(*config));
    actions
}

/// The sequencer of one node.
#[derive(Clone, Debug)]
pub struct PowerCycleController {
    pub config: NodeConfig,
    pub state: CycleState,
}

impl PowerCycleController {
    /// The controller of a node that has just started: it waits for the wake
    /// source.
    pub fn new(config: NodeConfig) -> (controller: PowerCycleController)
        ensures
            controller.config == config,
            controller.state == CycleState::Idle,
    {
        PowerCycleController { config, state: CycleState::Idle }
    }

    /// Where the cycle stands.
    pub fn state(&self) -> (state: CycleState)
        ensures
            state == self.state,
    {
        self.state
    }

    /// Takes the step that `event` calls for and returns the actions to carry
    /// out, in order.
    pub fn handle(&mut self, event: CycleEvent) -> (actions: Vec<CycleAction>)
        ensures
            final(self).config == old(self).config,
            final(self).state == next_state(old(self).config, old(self).state, event),
            actions_view(actions@) == step_actions(old(self).config, old(self).state, event),
    {
        let mut actions: Vec<CycleAction> = Vec::new();
        match (self.state, event) {
            (CycleState::Idle, CycleEvent::Wake) => {
                actions.push(CycleAction::ReadSensor);
                self.state = CycleState::Sampling;
            },
            (CycleState::Sampling, CycleEvent::Sampled(outcome)) => {
                if self.config.mode.is_display() {
                    actions.push(CycleAction::SetAuxiliary(auxiliary_level(&outcome)));
                    actions.push(CycleAction::Render(outcome));
                    self.state = CycleState::Rendering;
                } else {
                    match outcome {
                        ReadOutcome::Success(reading) => {
                            let payload = TelemetryPayload::encode(
                                &reading,
                                self.config.byte_order,
                            );
                            actions.push(CycleAction::Relay(payload));
                            self.state = CycleState::Relaying;
                        },
                        ReadOutcome::Failure(_) => {
                            actions = power_transition(&self.config);
                            self.state = CycleState::PowerTransition;
                        },
                    }
                }
            },
            (CycleState::Rendering, CycleEvent::Rendered) => {
                actions = power_transition(&self.config);
                self.state = CycleState::PowerTransition;
            },
            (CycleState::Relaying, CycleEvent::Relayed(outcome)) => {
                match outcome {
                    RelayOutcome::Completed { .. } => {
                        actions = power_transition(&self.config);
                        self.state = CycleState::PowerTransition;
                    },
                    RelayOutcome::Aborted { .. } => {
                        self.state = CycleState::Faulted;
                    },
                }
            },
            (CycleState::PowerTransition, CycleEvent::PowerSettled) => {
                if self.config.mode.is_one_shot() {
                    self.state = CycleState::Asleep;
                } else {
                    self.state = CycleState::Idle;
                }
            },
            _ => {},
        }
        assert(actions_view(actions@) =~= step_actions(old(self).config, old(self).state, event));
        actions
    }
}

/// The state reached from `state` when the events arrive in turn.
pub open spec fn run(config: NodeConfig, state: CycleState, events: Seq<CycleEvent>) -> CycleState
    decreases events.len(),
{
    if events.len() == 0 {
        state
    } else {
        next_state(config, run(config, state, events.drop_last()), events.last())
    }
}

/// Whatever events arrive, and in whatever order, a node that shows its
/// readings never relays and a node that relays never renders: which of the
/// two stages a cycle runs is fixed by the mode.
pub proof fn lemma_stage_follows_mode(config: NodeConfig, events: Seq<CycleEvent>)
    ensures
        run(config, CycleState::Idle, events) is Rendering ==> config.mode.shows(),
        run(config, CycleState::Idle, events) is Relaying ==> !config.mode.shows(),
    decreases events.len(),
{
    if events.len() > 0 {
        lemma_stage_follows_mode(config, events.drop_last());
    }
}

/// A wake event that arrives while a cycle is under way starts nothing: the
/// cycle goes on undisturbed, so cycles never overlap.
pub proof fn lemma_wake_is_gated(config: NodeConfig, state: CycleState)
    requires
        !(state is Idle),
    ensures
        next_state(config, state, CycleEvent::Wake) == state,
        step_actions(config, state, CycleEvent::Wake) == Seq::<ActionView>::empty(),
{
}

/// Nothing leads out of deep sleep or out of a fault, and nothing is asked
/// for in either.
pub proof fn lemma_terminal_states(config: NodeConfig, state: CycleState, event: CycleEvent)
    requires
        state is Asleep || state is Faulted,
    ensures
        next_state(config, state, event) == state,
        step_actions(config, state, event) == Seq::<ActionView>::empty(),
{
}

/// The course of a cycle on a node with a display: whatever the sampling
/// yields, the auxiliary output is set for it and the display is redrawn for
/// it, once; then the node returns to its waiting state.
pub proof fn lemma_display_cycle(config: NodeConfig, outcome: ReadOutcome)
    requires
        config.mode.shows(),
    ensures
        next_state(config, CycleState::Idle, CycleEvent::Wake) == CycleState::Sampling,
        step_actions(config, CycleState::Idle, CycleEvent::Wake) == seq![ActionView::ReadSensor],
        next_state(config, CycleState::Sampling, CycleEvent::Sampled(outcome))
            == CycleState::Rendering,
        step_actions(config, CycleState::Sampling, CycleEvent::Sampled(outcome)) == seq![
            ActionView::SetAuxiliary(auxiliary_high(outcome)),
            ActionView::Render(outcome),
        ],
        next_state(config, CycleState::Rendering, CycleEvent::Rendered)
            == CycleState::PowerTransition,
        step_actions(config, CycleState::Rendering, CycleEvent::Rendered) == power_actions(config),
        next_state(config, CycleState::PowerTransition, CycleEvent::PowerSettled) == if config.mode
            is ContinuousDisplay {
            CycleState::Idle
        } else {
            CycleState::Asleep
        },
{
}

/// The course of a cycle on a relaying node: a reading is relayed as its
/// payload, and the radio is torn down before the node is put to sleep; after
/// a failed sampling nothing is relayed and the node goes straight to the
/// power transition; a relay session that was aborted ends the cycle in a
/// fault.
pub proof fn lemma_relay_cycle(config: NodeConfig, outcome: ReadOutcome, relayed: RelayOutcome)
    requires
        config.mode is OneShotRelay,
    ensures
        power_actions(config) == seq![
            ActionView::ShutDownRadio,
            ActionView::ArmWake(config.wake.seconds),
            ActionView::DeepSleep,
        ],
        outcome matches ReadOutcome::Success(reading) ==> {
            &&& next_state(config, CycleState::Sampling, CycleEvent::Sampled(outcome))
                == CycleState::Relaying
            &&& step_actions(config, CycleState::Sampling, CycleEvent::Sampled(outcome)) == seq![
                ActionView::Relay(encoding(reading, config.byte_order)),
            ]
        },
        outcome is Failure ==> {
            &&& next_state(config, CycleState::Sampling, CycleEvent::Sampled(outcome))
                == CycleState::PowerTransition
            &&& step_actions(config, CycleState::Sampling, CycleEvent::Sampled(outcome))
                == power_actions(config)
        },
        relayed is Completed ==> {
            &&& next_state(config, CycleState::Relaying, CycleEvent::Relayed(relayed))
                == CycleState::PowerTransition
            &&& step_actions(config, CycleState::Relaying, CycleEvent::Relayed(relayed))
                == power_actions(config)
        },
        relayed is Aborted ==> {
            &&& next_state(config, CycleState::Relaying, CycleEvent::Relayed(relayed))
                == CycleState::Faulted
            &&& step_actions(config, CycleState::Relaying, CycleEvent::Relayed(relayed))
                == Seq::<ActionView>::empty()
        },
        next_state(config, CycleState::PowerTransition, CycleEvent::PowerSettled)
            == CycleState::Asleep,
{
}

} // verus!
