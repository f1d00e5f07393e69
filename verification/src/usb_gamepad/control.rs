//! The USB gamepad controller's decisions: whether a start/stop/toggle
//! command spawns or stops the driver, what it reports back, when to start
//! automatically, and when to restart a driver whose report count stalled.
//!
//! Times are milliseconds on a monotonic clock.

use vstd::prelude::*;

use crate::messages::{
    UiFeedbackMotion, UiFeedbackSeverity, UiFeedbackSlot, UiFeedbackTarget,
    UiInteractionFeedback, UsbGamepadCommandMsg, UsbGamepadDriverCommandMsg, UsbGamepadStateMsg,
};

verus! {

/// A running driver whose report count has not moved for this long is
/// restarted.
pub const REPORT_STALL_RETRY_AFTER_MS: u64 = 3000;

/// What a command leads to.
#[derive(Debug, Clone, Copy, PartialEq, Eq, Structural)]
pub enum StartDecision {
    Spawn,
    Stop,
    AlreadyRunning,
    AlreadyStopped,
    MissingDevice,
    MissingModule,
}

/// Start automatically once: while the start is still pending, the HID
/// device is ready and nothing runs.
pub fn should_auto_start(auto_pending: bool, hid_ready: bool, running: bool) -> (res: bool)
    ensures
        res == (auto_pending && hid_ready && !running),
{
    auto_pending && hid_ready && !running
}

/// Restart a running driver on a ready device whose report count has not
/// changed for `REPORT_STALL_RETRY_AFTER_MS` or longer.
pub fn should_retry_report_stall(
    hid_ready: bool,
    running: bool,
    report_count: u32,
    last_report_count: u32,
    stalled_for_ms: u64,
) -> (res: bool)
    ensures
        res == (hid_ready && running && report_count == last_report_count && stalled_for_ms
            >= REPORT_STALL_RETRY_AFTER_MS),
{
    hid_ready && running && report_count == last_report_count && stalled_for_ms
        >= REPORT_STALL_RETRY_AFTER_MS
}

/// The decision for a command, given whether the HID device exists, whether
/// the driver runs, and whether the driver module is available.
pub open spec fn start_decision(
    device_exists: bool,
    running: bool,
    module_available: bool,
    command: UsbGamepadCommandMsg,
) -> StartDecision {
    match command {
        UsbGamepadCommandMsg::Stop => if running {
            StartDecision::Stop
        } else {
            StartDecision::AlreadyStopped
        },
        UsbGamepadCommandMsg::Start => if !device_exists {
            StartDecision::MissingDevice
        } else if running {
            StartDecision::AlreadyRunning
        } else if !module_available {
            StartDecision::MissingModule
        } else {
            StartDecision::Spawn
        },
        UsbGamepadCommandMsg::Toggle => if running {
            StartDecision::Stop
        } else if !device_exists {
            StartDecision::MissingDevice
        } else if !module_available {
            StartDecision::MissingModule
        } else {
            StartDecision::Spawn
        },
    }
}

/// Decides what a command does: stop requests stop a running driver; start
/// requests need the device, a stopped driver and the module, checked in
/// that order; toggles stop a running driver and otherwise start like start
/// requests.
pub fn decide_start(
    device_exists: bool,
    running: bool,
    module_available: bool,
    command: UsbGamepadCommandMsg,
) -> (res: StartDecision)
    ensures
        res == start_decision(device_exists, running, module_available, command),
        // A driver is only spawned when the device exists, nothing runs and
        // the module is available.
        res == StartDecision::Spawn ==> device_exists && !running && module_available,
        // A driver is only stopped when it runs.
        res == StartDecision::Stop ==> running,
{
    match command {
        UsbGamepadCommandMsg::Stop => {
            if running {
                StartDecision::Stop
            } else {
                StartDecision::AlreadyStopped
            }
        },
        UsbGamepadCommandMsg::Start => {
            if !device_exists {
                StartDecision::MissingDevice
            } else if running {
                StartDecision::AlreadyRunning
            } else if !module_available {
                StartDecision::MissingModule
            } else {
                StartDecision::Spawn
            }
        },
        UsbGamepadCommandMsg::Toggle => {
            if running {
                StartDecision::Stop
            } else if !device_exists {
                StartDecision::MissingDevice
            } else if !module_available {
                StartDecision::MissingModule
            } else {
                StartDecision::Spawn
            }
        },
    }
}

/// A page-level status-bar feedback message of the controller.
pub open spec fn is_control_feedback(
    f: UiInteractionFeedback,
    seq: u32,
    severity: UiFeedbackSeverity,
    motion: UiFeedbackMotion,
    message: Seq<char>,
) -> bool {
    &&& f.seq == seq
    &&& f.severity == severity
    &&& f.target == UiFeedbackTarget::Page
    &&& f.motion == motion
    &&& f.slot == UiFeedbackSlot::TopStatusBar
    &&& f.message@ == message
    &&& f.ttl_ms == 1600
}

/// A page-level status-bar feedback message shown for 1.6 s.
pub fn feedback(
    seq: u32,
    severity: UiFeedbackSeverity,
    motion: UiFeedbackMotion,
    message: &str,
) -> (res: UiInteractionFeedback)
    ensures
        is_control_feedback(res, seq, severity, motion, message@),
{
    UiInteractionFeedback {
        seq,
        severity,
        target: UiFeedbackTarget::Page,
        motion,
        slot: UiFeedbackSlot::TopStatusBar,
        message: message.to_owned(),
        ttl_ms: 1600,
    }
}

/// What handling a command sends: a stop command for the driver, a state
/// update, a feedback message, and whether to spawn a driver.
#[derive(Debug, Clone, PartialEq, Eq)]
pub struct CommandPlan {
    pub driver_command: Option<UsbGamepadDriverCommandMsg>,
    pub state_update: Option<UsbGamepadStateMsg>,
    pub feedback: Option<UiInteractionFeedback>,
    pub spawn: bool,
}

/// Plans the messages for a decision taken on `state`, with feedback
/// sequence number `seq` and the device presence `hid_ready` seen now.
/// Spawning is left to the caller, which reports its own outcome.
pub fn command_plan(
    decision: StartDecision,
    state: &UsbGamepadStateMsg,
    seq: u32,
    hid_ready: bool,
) -> (res: CommandPlan)
    ensures
        res.spawn == (decision == StartDecision::Spawn),
        decision == StartDecision::Spawn ==> res.feedback is None,
        match decision {
            StartDecision::Stop => {
                &&& res.driver_command == Some(
                    UsbGamepadDriverCommandMsg { generation: state.generation, stop: true },
                )
                &&& res.state_update matches Some(s) && s.hid_ready == hid_ready && !s.running
                    && s.report_count == state.report_count && s.generation == state.generation
                    && s.detail@ == "Stopping USB gamepad"@
            },
            _ => res.driver_command is None && res.state_update is None,
        },
        match decision {
            StartDecision::MissingDevice => res.feedback matches Some(f) && is_control_feedback(
                f,
                seq,
                UiFeedbackSeverity::Error,
                UiFeedbackMotion::ShakeX,
                "USB HID not ready: /dev/hidg0 missing"@,
            ),
            StartDecision::AlreadyRunning => res.feedback matches Some(f) && is_control_feedback(
                f,
                seq,
                UiFeedbackSeverity::Success,
                UiFeedbackMotion::Pulse,
                "USB gamepad already running"@,
            ),
            StartDecision::AlreadyStopped => res.feedback matches Some(f) && is_control_feedback(
                f,
                seq,
                UiFeedbackSeverity::Success,
                UiFeedbackMotion::Pulse,
                "USB gamepad already off"@,
            ),
            StartDecision::MissingModule => res.feedback matches Some(f) && is_control_feedback(
                f,
                seq,
                UiFeedbackSeverity::Error,
                UiFeedbackMotion::ShakeX,
                "usb_gamepad module unavailable"@,
            ),
            StartDecision::Stop => res.feedback matches Some(f) && is_control_feedback(
                f,
                seq,
                UiFeedbackSeverity::Success,
                UiFeedbackMotion::Pulse,
                "USB gamepad stopping"@,
            ),
            StartDecision::Spawn => true,
        },
{
    match decision {
        StartDecision::MissingDevice => CommandPlan {
            driver_command: None,
            state_update: None,
            feedback: Some(
                feedback(
                    seq,
                    UiFeedbackSeverity::Error,
                    UiFeedbackMotion::ShakeX,
                    "USB HID not ready: /dev/hidg0 missing",
                ),
            ),
            spawn: false,
        },
        StartDecision::AlreadyRunning => CommandPlan {
            driver_command: None,
            state_update: None,
            feedback: Some(
                feedback(
                    seq,
                    UiFeedbackSeverity::Success,
                    UiFeedbackMotion::Pulse,
                    "USB gamepad already running",
                ),
            ),
            spawn: false,
        },
        StartDecision::AlreadyStopped => CommandPlan {
            driver_command: None,
            state_update: None,
            feedback: Some(
                feedback(
                    seq,
                    UiFeedbackSeverity::Success,
                    UiFeedbackMotion::Pulse,
                    "USB gamepad already off",
                ),
            ),
            spawn: false,
        },
        StartDecision::MissingModule => CommandPlan {
            driver_command: None,
            state_update: None,
            feedback: Some(
                feedback(
                    seq,
                    UiFeedbackSeverity::Error,
                    UiFeedbackMotion::ShakeX,
                    "usb_gamepad module unavailable",
                ),
            ),
            spawn: false,
        },
        StartDecision::Stop => CommandPlan {
            driver_command: Some(UsbGamepadDriverCommandMsg { generation: state.generation, stop: true }),
            state_update: Some(
                UsbGamepadStateMsg {
                    hid_ready,
                    running: false,
                    report_count: state.report_count,
                    generation: state.generation,
                    detail: "Stopping USB gamepad".to_owned(),
                },
            ),
            feedback: Some(
                feedback(
                    seq,
                    UiFeedbackSeverity::Success,
                    UiFeedbackMotion::Pulse,
                    "USB gamepad stopping",
                ),
            ),
            spawn: false,
        },
        StartDecision::Spawn => CommandPlan {
            driver_command: None,
            state_update: None,
            feedback: None,
            spawn: true,
        },
    }
}

/// The generation after `generation`: one more, wrapping around past 0
/// (generation 0 is never handed out again).
pub open spec fn following_generation(generation: u32) -> u32 {
    if generation == u32::MAX {
        1
    } else {
        (generation + 1) as u32
    }
}

/// Hands out the next driver generation and advances the counter.
pub fn claim_generation(next_generation: &mut u32) -> (generation: u32)
    ensures
        generation == *old(next_generation),
        *final(next_generation) == following_generation(*old(next_generation)),
        *final(next_generation) >= 1,
{
    let generation = *next_generation;
    *next_generation = if generation == u32::MAX {
        1
    } else {
        generation + 1
    };
    generation
}

/// The state published when a driver of `generation` has been spawned.
pub fn spawned_state(generation: u32, detail: &str) -> (res: UsbGamepadStateMsg)
    ensures
        res.hid_ready,
        res.running,
        res.report_count == 0,
        res.generation == generation,
        res.detail@ == detail@,
{
    UsbGamepadStateMsg {
        hid_ready: true,
        running: true,
        report_count: 0,
        generation,
        detail: detail.to_owned(),
    }
}

/// The controller's first published state: nothing runs, waiting for the
/// device if it is missing.
pub fn initial_state(hid_ready: bool) -> (res: UsbGamepadStateMsg)
    ensures
        res.hid_ready == hid_ready,
        !res.running,
        res.report_count == 0,
        res.generation == 0,
        res.detail@ == (if hid_ready {
            "USB gamepad off"@
        } else {
            "Waiting for /dev/hidg0"@
        }),
{
    UsbGamepadStateMsg {
        hid_ready,
        running: false,
        report_count: 0,
        generation: 0,
        detail: if hid_ready {
            "USB gamepad off".to_owned()
        } else {
            "Waiting for /dev/hidg0".to_owned()
        },
    }
}

/// Follows the device's presence: when it changes, the state takes it over
/// (a vanished device also stops the driver) and is due to be published.
pub fn track_hid_ready(state: &mut UsbGamepadStateMsg, hid_ready: bool) -> (changed: bool)
    ensures
        changed == (old(state).hid_ready != hid_ready),
        final(state).hid_ready == hid_ready,
        final(state).report_count == old(state).report_count,
        final(state).generation == old(state).generation,
        changed && !hid_ready ==> !final(state).running && final(state).detail@
            == "Waiting for /dev/hidg0"@,
        !(changed && !hid_ready) ==> final(state).running == old(state).running
            && final(state).detail@ == old(state).detail@,
{
    if state.hid_ready != hid_ready {
        state.hid_ready = hid_ready;
        if !hid_ready {
            state.running = false;
            state.detail = "Waiting for /dev/hidg0".to_owned();
        }
        true
    } else {
        false
    }
}

/// The stall detector: the last report count seen and when it last changed.
#[derive(Debug, Clone, Copy, PartialEq, Eq)]
pub struct StallWatch {
    pub last_report_count: u32,
    pub last_change_ms: u64,
}

impl StallWatch {
    /// A detector that starts watching `report_count` at `now_ms`.
    pub fn new(report_count: u32, now_ms: u64) -> (res: Self)
        ensures
            res.last_report_count == report_count,
            res.last_change_ms == now_ms,
    {
        StallWatch { last_report_count: report_count, last_change_ms: now_ms }
    }

    /// Takes in a published state: a stopped driver or a moved report count
    /// restarts the stall clock.
    pub fn observe(&mut self, state: &UsbGamepadStateMsg, now_ms: u64)
        ensures
            (!state.running || state.report_count != old(self).last_report_count) ==> *final(self)
                == (StallWatch { last_report_count: state.report_count, last_change_ms: now_ms }),
            !(!state.running || state.report_count != old(self).last_report_count) ==> *final(self)
                == *old(self),
    {
        if !state.running || state.report_count != self.last_report_count {
            self.last_report_count = state.report_count;
            self.last_change_ms = now_ms;
        }
    }

    /// Whether the driver of `state` is stalled at `now_ms`.
    pub fn stalled(&self, state: &UsbGamepadStateMsg, now_ms: u64) -> (res: bool)
        ensures
            res == (state.hid_ready && state.running && state.report_count == self.last_report_count
                && (if now_ms >= self.last_change_ms {
                now_ms - self.last_change_ms
            } else {
                0
            }) >= REPORT_STALL_RETRY_AFTER_MS),
    {
        let stalled_for = if now_ms >= self.last_change_ms {
            now_ms - self.last_change_ms
        } else {
            0
        };
        should_retry_report_stall(
            state.hid_ready,
            state.running,
            state.report_count,
            self.last_report_count,
            stalled_for,
        )
    }

    /// Restarts the stall clock after a retry.
    pub fn reset(&mut self, now_ms: u64)
        ensures
            final(self).last_report_count == old(self).last_report_count,
            final(self).last_change_ms == now_ms,
    {
        self.last_change_ms = now_ms;
    }
}

/// The state published when a stalled driver is being stopped for a retry.
pub fn retry_stop_state(state: &UsbGamepadStateMsg) -> (res: UsbGamepadStateMsg)
    ensures
        res.hid_ready == state.hid_ready,
        !res.running,
        res.report_count == state.report_count,
        res.generation == state.generation,
        res.detail@ == "Retrying stalled USB gamepad"@,
{
    UsbGamepadStateMsg {
        hid_ready: state.hid_ready,
        running: false,
        report_count: state.report_count,
        generation: state.generation,
        detail: "Retrying stalled USB gamepad".to_owned(),
    }
}


// ---------------------------------------------------------------------------
// The controller loop's state machine
// ---------------------------------------------------------------------------

/// The feedback sequence number the controller counts up from.
pub const CONTROL_FEEDBACK_SEQ_START: u32 = 0x7600;

/// A published state as plain values.
pub struct StateView {
    pub hid_ready: bool,
    pub running: bool,
    pub report_count: u32,
    pub generation: u32,
    pub detail: Seq<char>,
}

/// A published state as plain values.
pub open spec fn state_view(s: UsbGamepadStateMsg) -> StateView {
    StateView {
        hid_ready: s.hid_ready,
        running: s.running,
        report_count: s.report_count,
        generation: s.generation,
        detail: s.detail@,
    }
}

/// A feedback message as plain values.
pub struct FeedbackView {
    pub seq: u32,
    pub severity: UiFeedbackSeverity,
    pub target: UiFeedbackTarget,
    pub motion: UiFeedbackMotion,
    pub slot: UiFeedbackSlot,
    pub message: Seq<char>,
    pub ttl_ms: u32,
}

/// A feedback message as plain values.
pub open spec fn feedback_view(f: UiInteractionFeedback) -> FeedbackView {
    FeedbackView {
        seq: f.seq,
        severity: f.severity,
        target: f.target,
        motion: f.motion,
        slot: f.slot,
        message: f.message@,
        ttl_ms: f.ttl_ms,
    }
}

/// The controller's page-level feedback as plain values (see `feedback`).
pub open spec fn control_feedback(
    seq: u32,
    severity: UiFeedbackSeverity,
    motion: UiFeedbackMotion,
    message: Seq<char>,
) -> FeedbackView {
    FeedbackView {
        seq,
        severity,
        target: UiFeedbackTarget::Page,
        motion,
        slot: UiFeedbackSlot::TopStatusBar,
        message,
        ttl_ms: 1600,
    }
}

/// What one controller step sends: driver commands, state updates and
/// feedback messages, each in order, and the generations of the drivers to
/// spawn.
#[derive(Debug, Clone, PartialEq, Eq)]
pub struct ControllerActions {
    pub driver_commands: Vec<UsbGamepadDriverCommandMsg>,
    pub states: Vec<UsbGamepadStateMsg>,
    pub feedbacks: Vec<UiInteractionFeedback>,
    pub spawns: Vec<u32>,
}

/// The actions of a controller step as plain values.
pub struct ActionsView {
    pub driver_commands: Seq<UsbGamepadDriverCommandMsg>,
    pub states: Seq<StateView>,
    pub feedbacks: Seq<FeedbackView>,
    pub spawns: Seq<u32>,
}

impl View for ControllerActions {
    type V = ActionsView;

    open spec fn view(&self) -> ActionsView {
        ActionsView {
            driver_commands: self.driver_commands@,
            states: self.states@.map_values(|s: UsbGamepadStateMsg| state_view(s)),
            feedbacks: self.feedbacks@.map_values(|f: UiInteractionFeedback| feedback_view(f)),
            spawns: self.spawns@,
        }
    }
}

/// No actions.
pub open spec fn no_actions() -> ActionsView {
    ActionsView {
        driver_commands: Seq::empty(),
        states: Seq::empty(),
        feedbacks: Seq::empty(),
        spawns: Seq::empty(),
    }
}

/// The actions of `a` followed by those of `b`.
pub open spec fn then_actions(a: ActionsView, b: ActionsView) -> ActionsView {
    ActionsView {
        driver_commands: a.driver_commands + b.driver_commands,
        states: a.states + b.states,
        feedbacks: a.feedbacks + b.feedbacks,
        spawns: a.spawns + b.spawns,
    }
}

/// The USB gamepad controller: the feedback counter, the last state it
/// saw, whether the automatic start is still pending, the next driver
/// generation, and the stall detector.
pub struct UsbGamepadController {
    pub seq: u32,
    pub state: UsbGamepadStateMsg,
    pub auto_start_pending: bool,
    pub next_generation: u32,
    pub watch: StallWatch,
}

/// The controller as plain values.
pub struct ControllerView {
    pub seq: u32,
    pub state: StateView,
    pub auto_start_pending: bool,
    pub next_generation: u32,
    pub watch: StallWatch,
}

impl View for UsbGamepadController {
    type V = ControllerView;

    open spec fn view(&self) -> ControllerView {
        ControllerView {
            seq: self.seq,
            state: state_view(self.state),
            auto_start_pending: self.auto_start_pending,
            next_generation: self.next_generation,
            watch: self.watch,
        }
    }
}

/// The feedback counter after `seq`, wrapping.
pub open spec fn next_feedback_seq(seq: u32) -> u32 {
    if seq == u32::MAX {
        0
    } else {
        (seq + 1) as u32
    }
}

/// The feedback message for a decision that spawns or stops nothing.
pub open spec fn decision_feedback(decision: StartDecision, seq: u32) -> FeedbackView {
    match decision {
        StartDecision::MissingDevice => control_feedback(
            seq,
            UiFeedbackSeverity::Error,
            UiFeedbackMotion::ShakeX,
            "USB HID not ready: /dev/hidg0 missing"@,
        ),
        StartDecision::AlreadyRunning => control_feedback(
            seq,
            UiFeedbackSeverity::Success,
            UiFeedbackMotion::Pulse,
            "USB gamepad already running"@,
        ),
        StartDecision::AlreadyStopped => control_feedback(
            seq,
            UiFeedbackSeverity::Success,
            UiFeedbackMotion::Pulse,
            "USB gamepad already off"@,
        ),
        _ => control_feedback(
            seq,
            UiFeedbackSeverity::Error,
            UiFeedbackMotion::ShakeX,
            "usb_gamepad module unavailable"@,
        ),
    }
}

/// Spawning a driver: the next generation is handed out, a running state
/// with `detail` is published, and `message` is shown.
pub open spec fn spawn_step(c: ControllerView, seq: u32, detail: Seq<char>, message: Seq<char>) -> (
    ControllerView,
    ActionsView,
) {
    let generation = c.next_generation;
    (
        ControllerView { next_generation: following_generation(generation), ..c },
        ActionsView {
            driver_commands: Seq::empty(),
            states: seq![
                StateView {
                    hid_ready: true,
                    running: true,
                    report_count: 0,
                    generation,
                    detail,
                },
            ],
            feedbacks: seq![
                control_feedback(seq, UiFeedbackSeverity::Success, UiFeedbackMotion::Pulse, message),
            ],
            spawns: seq![generation],
        },
    )
}

/// Handling a command: the feedback counter moves on, then the decision
/// (see `start_decision`) spawns a driver, stops the running one (a stop
/// command for its generation, a stopping state, feedback), or only gives
/// feedback.
pub open spec fn command_step(
    c: ControllerView,
    command: UsbGamepadCommandMsg,
    device_exists: bool,
    module_available: bool,
) -> (ControllerView, ActionsView) {
    let seq = next_feedback_seq(c.seq);
    let c1 = ControllerView { seq, ..c };
    let decision = start_decision(device_exists, c.state.running, module_available, command);
    match decision {
        StartDecision::Spawn => spawn_step(c1, seq, "Starting USB gamepad"@, "USB gamepad started"@),
        StartDecision::Stop => (
            c1,
            ActionsView {
                driver_commands: seq![
                    UsbGamepadDriverCommandMsg { generation: c.state.generation, stop: true },
                ],
                states: seq![
                    StateView {
                        hid_ready: device_exists,
                        running: false,
                        report_count: c.state.report_count,
                        generation: c.state.generation,
                        detail: "Stopping USB gamepad"@,
                    },
                ],
                feedbacks: seq![
                    control_feedback(
                        seq,
                        UiFeedbackSeverity::Success,
                        UiFeedbackMotion::Pulse,
                        "USB gamepad stopping"@,
                    ),
                ],
                spawns: Seq::empty(),
            },
        ),
        _ => (
            c1,
            ActionsView {
                driver_commands: Seq::empty(),
                states: Seq::empty(),
                feedbacks: seq![decision_feedback(decision, seq)],
                spawns: Seq::empty(),
            },
        ),
    }
}

/// The milliseconds from `then` to `now`, 0 if the clock went back.
pub open spec fn elapsed_ms(now_ms: u64, then_ms: u64) -> int {
    if now_ms >= then_ms {
        now_ms - then_ms
    } else {
        0
    }
}

/// Retrying a stalled driver: the feedback counter moves on, the driver
/// of the current generation is told to stop, a retrying state is
/// published, a new driver is spawned (or the missing module reported),
/// and the stall clock restarts.
pub open spec fn retry_step(c: ControllerView, module_available: bool, now_ms: u64) -> (
    ControllerView,
    ActionsView,
) {
    let seq = next_feedback_seq(c.seq);
    let c1 = ControllerView {
        seq,
        watch: StallWatch { last_change_ms: now_ms, ..c.watch },
        ..c
    };
    let stop = ActionsView {
        driver_commands: seq![
            UsbGamepadDriverCommandMsg { generation: c.state.generation, stop: true },
        ],
        states: seq![
            StateView {
                running: false,
                detail: "Retrying stalled USB gamepad"@,
                ..c.state
            },
        ],
        feedbacks: Seq::empty(),
        spawns: Seq::empty(),
    };
    if module_available {
        let (c2, spawned) = spawn_step(
            c1,
            seq,
            "Retrying stalled USB gamepad"@,
            "USB gamepad retrying"@,
        );
        (c2, then_actions(stop, spawned))
    } else {
        (
            c1,
            then_actions(
                stop,
                ActionsView {
                    driver_commands: Seq::empty(),
                    states: Seq::empty(),
                    feedbacks: seq![
                        control_feedback(
                            seq,
                            UiFeedbackSeverity::Error,
                            UiFeedbackMotion::ShakeX,
                            "usb_gamepad module unavailable"@,
                        ),
                    ],
                    spawns: Seq::empty(),
                },
            ),
        )
    }
}

/// One pass of the controller loop after the pending states and commands
/// were taken in: follow the device's presence (publishing the state when
/// it changed), start once automatically when the device is ready and
/// nothing runs, and retry a driver whose report count has stalled.
pub open spec fn tick_step(c: ControllerView, hid_ready: bool, module_available: bool, now_ms: u64) -> (
    ControllerView,
    ActionsView,
) {
    let changed = c.state.hid_ready != hid_ready;
    let s1 = if changed && !hid_ready {
        StateView {
            hid_ready,
            running: false,
            detail: "Waiting for /dev/hidg0"@,
            ..c.state
        }
    } else {
        StateView { hid_ready, ..c.state }
    };
    let c1 = ControllerView { state: s1, ..c };
    let a1 = ActionsView {
        states: if changed {
            seq![s1]
        } else {
            Seq::empty()
        },
        ..no_actions()
    };
    let (c2, a2) = if c1.auto_start_pending && s1.hid_ready && !s1.running {
        let (cc, aa) = command_step(c1, UsbGamepadCommandMsg::Start, hid_ready, module_available);
        (ControllerView { auto_start_pending: false, ..cc }, aa)
    } else {
        (c1, no_actions())
    };
    let stalled = s1.hid_ready && s1.running && s1.report_count == c2.watch.last_report_count
        && elapsed_ms(now_ms, c2.watch.last_change_ms) >= REPORT_STALL_RETRY_AFTER_MS;
    let (c3, a3) = if stalled {
        retry_step(c2, module_available, now_ms)
    } else {
        (c2, no_actions())
    };
    (c3, then_actions(a1, then_actions(a2, a3)))
}

fn empty_actions() -> (res: ControllerActions)
    ensures
        res@ == no_actions(),
{
    let res = ControllerActions {
        driver_commands: Vec::new(),
        states: Vec::new(),
        feedbacks: Vec::new(),
        spawns: Vec::new(),
    };
    assert(res@.states =~= Seq::<StateView>::empty());
    assert(res@.feedbacks =~= Seq::<FeedbackView>::empty());
    res
}

fn copy_state(s: &UsbGamepadStateMsg) -> (res: UsbGamepadStateMsg)
    ensures
        state_view(res) == state_view(*s),
{
    UsbGamepadStateMsg {
        hid_ready: s.hid_ready,
        running: s.running,
        report_count: s.report_count,
        generation: s.generation,
        detail: s.detail.clone(),
    }
}

impl ControllerActions {
    fn push_state(&mut self, s: UsbGamepadStateMsg)
        ensures
            final(self)@ == (ActionsView { states: old(self)@.states.push(state_view(s)), ..old(self)@ }),
    {
        self.states.push(s);
        assert(final(self)@.states =~= old(self)@.states.push(state_view(s)));
        assert(final(self)@.feedbacks =~= old(self)@.feedbacks);
    }

    fn push_feedback(&mut self, f: UiInteractionFeedback)
        ensures
            final(self)@ == (ActionsView {
                feedbacks: old(self)@.feedbacks.push(feedback_view(f)),
                ..old(self)@
            }),
    {
        self.feedbacks.push(f);
        assert(final(self)@.feedbacks =~= old(self)@.feedbacks.push(feedback_view(f)));
        assert(final(self)@.states =~= old(self)@.states);
    }

    fn push_driver_command(&mut self, cmd: UsbGamepadDriverCommandMsg)
        ensures
            final(self)@ == (ActionsView {
                driver_commands: old(self)@.driver_commands.push(cmd),
                ..old(self)@
            }),
    {
        self.driver_commands.push(cmd);
        assert(final(self)@.states =~= old(self)@.states);
        assert(final(self)@.feedbacks =~= old(self)@.feedbacks);
    }

    fn push_spawn(&mut self, generation: u32)
        ensures
            final(self)@ == (ActionsView { spawns: old(self)@.spawns.push(generation), ..old(self)@ }),
    {
        self.spawns.push(generation);
        assert(final(self)@.states =~= old(self)@.states);
        assert(final(self)@.feedbacks =~= old(self)@.feedbacks);
    }
}

impl UsbGamepadController {
    /// A controller that has just started: nothing runs, the automatic
    /// start is pending, the first driver will be generation 1, and the
    /// stall clock starts now. It also returns the first state to publish.
    pub fn new(hid_ready: bool, now_ms: u64) -> (res: (Self, UsbGamepadStateMsg))
        ensures
            res.0@.seq == CONTROL_FEEDBACK_SEQ_START,
            res.0@.state == state_view(res.1),
            res.0@.auto_start_pending,
            res.0@.next_generation == 1,
            res.0@.watch == (StallWatch { last_report_count: 0, last_change_ms: now_ms }),
            res.1.hid_ready == hid_ready,
            !res.1.running,
            res.1.report_count == 0,
            res.1.generation == 0,
            res.1.detail@ == (if hid_ready {
                "USB gamepad off"@
            } else {
                "Waiting for /dev/hidg0"@
            }),
    {
        let state = initial_state(hid_ready);
        let published = copy_state(&state);
        let ctrl = UsbGamepadController {
            seq: CONTROL_FEEDBACK_SEQ_START,
            state,
            auto_start_pending: true,
            next_generation: 1,
            watch: StallWatch::new(0, now_ms),
        };
        (ctrl, published)
    }

    /// Takes in a state the driver or the controller published: it becomes
    /// the controller's state, and a stopped driver or a moved report count
    /// restarts the stall clock.
    pub fn on_state(&mut self, next: UsbGamepadStateMsg, now_ms: u64)
        ensures
            final(self)@.state == state_view(next),
            final(self)@.seq == old(self)@.seq,
            final(self)@.auto_start_pending == old(self)@.auto_start_pending,
            final(self)@.next_generation == old(self)@.next_generation,
            (!next.running || next.report_count != old(self).watch.last_report_count)
                ==> final(self)@.watch == (StallWatch {
                last_report_count: next.report_count,
                last_change_ms: now_ms,
            }),
            !(!next.running || next.report_count != old(self).watch.last_report_count)
                ==> final(self)@.watch == old(self)@.watch,
    {
        self.watch.observe(&next, now_ms);
        self.state = next;
    }

    fn spawn(&mut self, actions: &mut ControllerActions, seq: u32, detail: &str, message: &str)
        ensures
            (final(self)@, final(actions)@) == ({
                let (c, a) = spawn_step(old(self)@, seq, detail@, message@);
                (c, then_actions(old(actions)@, a))
            }),
    {
        let generation = claim_generation(&mut self.next_generation);
        actions.push_state(spawned_state(generation, detail));
        actions.push_feedback(feedback(seq, UiFeedbackSeverity::Success, UiFeedbackMotion::Pulse, message));
        actions.push_spawn(generation);
        proof {
            let (c, a) = spawn_step(old(self)@, seq, detail@, message@);
            assert(final(actions)@.driver_commands =~= old(actions)@.driver_commands + a.driver_commands);
            assert(final(actions)@.states =~= old(actions)@.states + a.states);
            assert(final(actions)@.feedbacks =~= old(actions)@.feedbacks + a.feedbacks);
            assert(final(actions)@.spawns =~= old(actions)@.spawns + a.spawns);
        }
    }

    fn handle_command(
        &mut self,
        actions: &mut ControllerActions,
        command: UsbGamepadCommandMsg,
        device_exists: bool,
        module_available: bool,
    )
        ensures
            (final(self)@, final(actions)@) == ({
                let (c, a) = command_step(old(self)@, command, device_exists, module_available);
                (c, then_actions(old(actions)@, a))
            }),
    {
        self.seq = self.seq.wrapping_add(1);
        let seq = self.seq;
        let decision = decide_start(device_exists, self.state.running, module_available, command);
        if decision == StartDecision::Spawn {
            self.spawn(actions, seq, "Starting USB gamepad", "USB gamepad started");
        } else {
            let plan = command_plan(decision, &self.state, seq, device_exists);
            let ghost before = actions@;
            match plan.driver_command {
                Some(cmd) => actions.push_driver_command(cmd),
                None => {},
            }
            match plan.state_update {
                Some(s) => actions.push_state(s),
                None => {},
            }
            match plan.feedback {
                Some(f) => actions.push_feedback(f),
                None => {},
            }
            proof {
                let (c, a) = command_step(old(self)@, command, device_exists, module_available);
                assert(final(actions)@.driver_commands =~= before.driver_commands + a.driver_commands);
                assert(final(actions)@.states =~= before.states + a.states);
                assert(final(actions)@.feedbacks =~= before.feedbacks + a.feedbacks);
                assert(final(actions)@.spawns =~= before.spawns + a.spawns);
            }
        }
    }

    /// A command from the UI: the automatic start is no longer pending,
    /// and the command is handled (see `command_step`) with the device
    /// presence and module availability seen now.
    pub fn on_command(
        &mut self,
        command: UsbGamepadCommandMsg,
        device_exists: bool,
        module_available: bool,
    ) -> (res: ControllerActions)
        ensures
            (final(self)@, res@) == ({
                let (c, a) = command_step(
                    ControllerView { auto_start_pending: false, ..old(self)@ },
                    command,
                    device_exists,
                    module_available,
                );
                (c, a)
            }),
    {
        self.auto_start_pending = false;
        let mut actions = empty_actions();
        self.handle_command(&mut actions, command, device_exists, module_available);
        proof {
            let (c, a) = command_step(
                ControllerView { auto_start_pending: false, ..old(self)@ },
                command,
                device_exists,
                module_available,
            );
            assert(actions@.driver_commands =~= a.driver_commands);
            assert(actions@.states =~= a.states);
            assert(actions@.feedbacks =~= a.feedbacks);
            assert(actions@.spawns =~= a.spawns);
        }
        actions
    }

    /// One pass of the controller loop (see `tick_step`) with the device
    /// presence and module availability seen now.
    pub fn tick(&mut self, hid_ready: bool, module_available: bool, now_ms: u64) -> (res: ControllerActions)
        ensures
            (final(self)@, res@) == tick_step(old(self)@, hid_ready, module_available, now_ms),
    {
        let mut actions = empty_actions();
        if track_hid_ready(&mut self.state, hid_ready) {
            let published = copy_state(&self.state);
            actions.push_state(published);
        }
        let ghost a1 = actions@;
        let ghost c1 = self@;
        if should_auto_start(self.auto_start_pending, self.state.hid_ready, self.state.running) {
            self.handle_command(&mut actions, UsbGamepadCommandMsg::Start, hid_ready, module_available);
            self.auto_start_pending = false;
        }
        let ghost a2 = actions@;
        let ghost c2 = self@;
        if self.watch.stalled(&self.state, now_ms) {
            self.seq = self.seq.wrapping_add(1);
            let seq = self.seq;
            actions.push_driver_command(
                UsbGamepadDriverCommandMsg { generation: self.state.generation, stop: true },
            );
            actions.push_state(retry_stop_state(&self.state));
            self.watch.reset(now_ms);
            if module_available {
                self.spawn(
                    &mut actions,
                    seq,
                    "Retrying stalled USB gamepad",
                    "USB gamepad retrying",
                );
            } else {
                actions.push_feedback(
                    feedback(
                        seq,
                        UiFeedbackSeverity::Error,
                        UiFeedbackMotion::ShakeX,
                        "usb_gamepad module unavailable",
                    ),
                );
            }
        }
        proof {
            let (c, a) = tick_step(old(self)@, hid_ready, module_available, now_ms);
            assert(actions@.driver_commands =~= a.driver_commands);
            assert(actions@.states =~= a.states);
            assert(actions@.feedbacks =~= a.feedbacks);
            assert(actions@.spawns =~= a.spawns);
        }
        actions
    }
}


/// Driver generation 0 is never handed out: from a controller whose next
/// generation is at least 1 (as a new one is), commands and loop passes
/// spawn drivers of generation at least 1 only, and keep the next
/// generation at least 1.
pub proof fn lemma_spawned_generations_nonzero(
    c: ControllerView,
    command: UsbGamepadCommandMsg,
    device_exists: bool,
    hid_ready: bool,
    module_available: bool,
    now_ms: u64,
)
    requires
        c.next_generation >= 1,
    ensures
        command_step(c, command, device_exists, module_available).0.next_generation >= 1,
        forall|i: int|
            0 <= i < command_step(c, command, device_exists, module_available).1.spawns.len()
                ==> #[trigger] command_step(c, command, device_exists, module_available).1.spawns[i]
                >= 1,
        tick_step(c, hid_ready, module_available, now_ms).0.next_generation >= 1,
        forall|i: int|
            0 <= i < tick_step(c, hid_ready, module_available, now_ms).1.spawns.len()
                ==> #[trigger] tick_step(c, hid_ready, module_available, now_ms).1.spawns[i] >= 1,
{
}

/// The automatic start happens at most once: once it is no longer
/// pending, no command or loop pass makes it pending again.
pub proof fn lemma_auto_start_once(
    c: ControllerView,
    command: UsbGamepadCommandMsg,
    device_exists: bool,
    hid_ready: bool,
    module_available: bool,
    now_ms: u64,
)
    requires
        !c.auto_start_pending,
    ensures
        !command_step(c, command, device_exists, module_available).0.auto_start_pending,
        !tick_step(c, hid_ready, module_available, now_ms).0.auto_start_pending,
{
}

} // verus!
