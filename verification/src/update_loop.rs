//! The update loop: the decisions of the task that feeds the device.
//!
//! The task that owns an `UpdateLoop` calls `tick` once per cadence
//! interval, with the running flag and a snapshot of the store as it finds
//! them, and does what the answer says: push a frame and sleep, just sleep,
//! or leave. The loop remembers the frame that was pushed last and asks for
//! a push only when the frame has changed, so a store at rest causes no
//! traffic on the bus. Once it has seen the running flag down it never asks
//! for a push again.

use vstd::prelude::*;
use crate::buttons::ButtonState;
use crate::frame::HardwareGamepadFrame;
use crate::frame::lemma_frame_injective;
use crate::session::DeviceSession;
use crate::session::SessionStage;

verus! {

/// The time between two ticks, in milliseconds.
pub const CADENCE_MS: u64 = 10;

/// Where the loop stands in its life.
#[derive(Clone, Copy, Debug, PartialEq, Eq, Structural)]
pub enum LoopPhase {
    /// Created, not started.
    Idle,
    /// Ticking: frames are compared and pushed.
    Running,
    /// The running flag was seen down: the task is on its way out.
    Stopping,
    /// The task has left.
    Stopped,
}

/// What the task has to do after a tick.
#[derive(Clone, Copy, Debug, PartialEq, Eq, Structural)]
pub enum LoopAction {
    /// Push this frame to the device, then sleep for one cadence interval.
    /// Whether the device takes the frame is of no concern to the loop: a
    /// failed push is not repeated, the next push follows the next change.
    Push(HardwareGamepadFrame),
    /// Push nothing; sleep for one cadence interval.
    Wait,
    /// Push nothing and leave the loop.
    Exit,
}

impl LoopAction {
    /// The time to sleep once the action is carried out, in milliseconds:
    /// one cadence interval while the loop goes on, none on leaving.
    pub open spec fn pause(self) -> u64 {
        match self {
            LoopAction::Exit => 0,
            _ => CADENCE_MS,
        }
    }

    /// The time to sleep once the action is carried out, in milliseconds.
    pub fn pause_ms(&self) -> (ms: u64)
        ensures
            ms == self.pause(),
    {
        match self {
            LoopAction::Exit => 0,
            _ => CADENCE_MS,
        }
    }
}

/// What an `UpdateLoop` holds: its phase, and the frame that it last asked
/// to have pushed (the frame of a gamepad at rest before the first push).
pub struct LoopState {
    pub phase: LoopPhase,
    pub previous: HardwareGamepadFrame,
}

/// One observation of the outside by a tick: the running flag and a
/// snapshot of the store.
pub struct Observation {
    pub running: bool,
    pub snapshot: ButtonState,
}

/// What a tick answers in `state` on seeing `running` and `snapshot`.
///
/// Outside the running phase, and with the flag down, the answer is to
/// leave, whatever the store holds. Otherwise a frame that differs from the
/// previous one is pushed, and an equal one is not.
pub open spec fn tick_action(state: LoopState, running: bool, snapshot: ButtonState) -> LoopAction {
    if state.phase != LoopPhase::Running || !running {
        LoopAction::Exit
    } else if HardwareGamepadFrame::of(snapshot) != state.previous {
        LoopAction::Push(HardwareGamepadFrame::of(snapshot))
    } else {
        LoopAction::Wait
    }
}

/// The state in which a tick leaves the loop.
///
/// A running loop that sees the flag down starts stopping and keeps its
/// previous frame. A running loop that pushes takes the pushed frame as the
/// previous one. Nothing else changes anything.
pub open spec fn tick_state(state: LoopState, running: bool, snapshot: ButtonState) -> LoopState {
    if state.phase != LoopPhase::Running {
        state
    } else if !running {
        LoopState { phase: LoopPhase::Stopping, previous: state.previous }
    } else {
        LoopState { phase: LoopPhase::Running, previous: HardwareGamepadFrame::of(snapshot) }
    }
}

/// The state after a run of ticks, one for each observation, in order.
pub open spec fn state_after(state: LoopState, seen: Seq<Observation>) -> LoopState
    decreases seen.len(),
{
    if seen.len() == 0 {
        state
    } else {
        let before = state_after(state, seen.drop_last());
        tick_state(before, seen.last().running, seen.last().snapshot)
    }
}

/// The frames that a run of ticks asks to have pushed, in order.
pub open spec fn frames_pushed(state: LoopState, seen: Seq<Observation>) -> Seq<
    HardwareGamepadFrame,
>
    decreases seen.len(),
{
    if seen.len() == 0 {
        Seq::empty()
    } else {
        let before = state_after(state, seen.drop_last());
        let earlier = frames_pushed(state, seen.drop_last());
        match tick_action(before, seen.last().running, seen.last().snapshot) {
            LoopAction::Push(frame) => earlier.push(frame),
            _ => earlier,
        }
    }
}

/// The place of a phase in the life of a loop: idle, running, stopping,
/// stopped, in this order.
pub open spec fn phase_rank(phase: LoopPhase) -> nat {
    match phase {
        LoopPhase::Idle => 0,
        LoopPhase::Running => 1,
        LoopPhase::Stopping => 2,
        LoopPhase::Stopped => 3,
    }
}

/// The decisions of the task that feeds the device.
#[derive(Debug)]
pub struct UpdateLoop {
    phase: LoopPhase,
    previous: HardwareGamepadFrame,
}

impl View for UpdateLoop {
    type V = LoopState;

    closed spec fn view(&self) -> LoopState {
        LoopState { phase: self.phase, previous: self.previous }
    }
}

impl UpdateLoop {
    /// A loop that has not started. Its previous frame is that of a gamepad
    /// at rest.
    pub fn new() -> (task: UpdateLoop)
        ensures
            task@ == (LoopState {
                phase: LoopPhase::Idle,
                previous: HardwareGamepadFrame::neutral(),
            }),
    {
        UpdateLoop { phase: LoopPhase::Idle, previous: HardwareGamepadFrame::new() }
    }

    /// Starts the loop, which an idle loop does if and only if the session
    /// is ready. Says whether it did.
    pub fn start(&mut self, session: &DeviceSession) -> (started: bool)
        ensures
            started == (old(self)@.phase == LoopPhase::Idle && session@ == SessionStage::Ready),
            started ==> final(self)@ == (LoopState {
                phase: LoopPhase::Running,
                previous: old(self)@.previous,
            }),
            !started ==> final(self)@ == old(self)@,
            phase_rank(old(self)@.phase) <= phase_rank(final(self)@.phase),
    {
        if self.phase == LoopPhase::Idle && session.is_ready() {
            self.phase = LoopPhase::Running;
            true
        } else {
            false
        }
    }

    /// One tick: looks at the running flag and at a snapshot of the store,
    /// and says what the task has to do.
    pub fn tick(&mut self, running: bool, snapshot: &ButtonState) -> (action: LoopAction)
        ensures
            action == tick_action(old(self)@, running, *snapshot),
            final(self)@ == tick_state(old(self)@, running, *snapshot),
            action is Push <==> old(self)@.phase == LoopPhase::Running && running
                && HardwareGamepadFrame::of(*snapshot) != old(self)@.previous,
            action matches LoopAction::Push(frame) ==> frame == HardwareGamepadFrame::of(*snapshot)
                && final(self)@.previous == frame,
            !(action is Push) ==> final(self)@.previous == old(self)@.previous,
    {
        if self.phase != LoopPhase::Running {
            return LoopAction::Exit;
        }
        if !running {
            self.phase = LoopPhase::Stopping;
            return LoopAction::Exit;
        }
        let frame = HardwareGamepadFrame::from_state(snapshot);
        if frame != self.previous {
            self.previous = frame;
            LoopAction::Push(frame)
        } else {
            LoopAction::Wait
        }
    }

    /// Records that the task has left: a stopping loop is stopped. In any
    /// other phase nothing changes.
    pub fn finish(&mut self)
        ensures
            final(self)@.previous == old(self)@.previous,
            final(self)@.phase == (if old(self)@.phase == LoopPhase::Stopping {
                LoopPhase::Stopped
            } else {
                old(self)@.phase
            }),
            phase_rank(old(self)@.phase) <= phase_rank(final(self)@.phase),
    {
        if self.phase == LoopPhase::Stopping {
            self.phase = LoopPhase::Stopped;
        }
    }

    /// Where the loop stands in its life.
    pub fn phase(&self) -> (phase: LoopPhase)
        ensures
            phase == self@.phase,
    {
        self.phase
    }

    /// The frame that the loop last asked to have pushed.
    pub fn previous(&self) -> (frame: HardwareGamepadFrame)
        ensures
            frame == self@.previous,
    {
        self.previous
    }
}

impl Default for UpdateLoop {
    fn default() -> (task: UpdateLoop)
        ensures
            task@ == (LoopState {
                phase: LoopPhase::Idle,
                previous: HardwareGamepadFrame::neutral(),
            }),
    {
        UpdateLoop::new()
    }
}

/// No redundant push: where two ticks in a row compute the same frame, the
/// second asks for no push, whatever happened at the first.
pub proof fn lemma_no_redundant_push(
    state: LoopState,
    first: Observation,
    second: Observation,
)
    requires
        HardwareGamepadFrame::of(first.snapshot) == HardwareGamepadFrame::of(second.snapshot),
    ensures
        !(tick_action(
            tick_state(state, first.running, first.snapshot),
            second.running,
            second.snapshot,
        ) is Push),
{
}

/// A push is asked for exactly when the loop runs, the flag is up and the
/// store differs from the one behind the previous frame.
pub proof fn lemma_push_on_change(state: LoopState, before: ButtonState, snapshot: ButtonState)
    requires
        state.phase == LoopPhase::Running,
        state.previous == HardwareGamepadFrame::of(before),
    ensures
        tick_action(state, true, snapshot) is Push <==> snapshot != before,
        snapshot != before ==> tick_action(state, true, snapshot) == LoopAction::Push(
            HardwareGamepadFrame::of(snapshot),
        ),
{
    lemma_frame_injective(snapshot, before);
}

/// The tick that sees the running flag down asks for no push and leaves the
/// loop without another sleep, even where the store has changed; and so
/// does every tick after it, whatever it sees.
pub proof fn lemma_stop_is_final(state: LoopState, snapshot: ButtonState, later: Seq<Observation>)
    ensures
        tick_action(state, false, snapshot) == LoopAction::Exit,
        tick_action(state, false, snapshot).pause() == 0,
        tick_state(state, false, snapshot).previous == state.previous,
        tick_state(state, false, snapshot).phase != LoopPhase::Running,
        frames_pushed(tick_state(state, false, snapshot), later).len() == 0,
        state_after(tick_state(state, false, snapshot), later) == tick_state(
            state,
            false,
            snapshot,
        ),
    decreases later.len(),
{
    if later.len() > 0 {
        lemma_stop_is_final(state, snapshot, later.drop_last());
    }
}

/// Over any run of ticks, the frames pushed never repeat from one push to
/// the next, the first of them differs from the frame the loop began with,
/// and the loop's previous frame is the last frame pushed.
pub proof fn lemma_pushes_are_changes(state: LoopState, seen: Seq<Observation>)
    ensures
        ({
            let frames = frames_pushed(state, seen);
            &&& frames.len() <= seen.len()
            &&& frames.len() > 0 ==> frames[0] != state.previous
            &&& forall|i: int| 0 < i < frames.len() ==> frames[i] != #[trigger] frames[i - 1]
            &&& state_after(state, seen).previous == (if frames.len() == 0 {
                state.previous
            } else {
                frames.last()
            })
        }),
    decreases seen.len(),
{
    if seen.len() > 0 {
        lemma_pushes_are_changes(state, seen.drop_last());
        let earlier = frames_pushed(state, seen.drop_last());
        let frames = frames_pushed(state, seen);
        assert forall|i: int| 0 < i < frames.len() implies frames[i] != #[trigger] frames[i - 1] by {
            if i < earlier.len() {
                assert(frames[i] == earlier[i]);
                assert(frames[i - 1] == earlier[i - 1]);
            }
        }
    }
}

/// A loop goes through its phases in one direction only: no run of ticks
/// takes it back to an earlier phase, and none starts or ends it.
pub proof fn lemma_phase_only_advances(state: LoopState, seen: Seq<Observation>)
    ensures
        phase_rank(state.phase) <= phase_rank(state_after(state, seen).phase),
        state_after(state, seen).phase == LoopPhase::Idle <==> state.phase == LoopPhase::Idle,
        state_after(state, seen).phase == LoopPhase::Stopped <==> state.phase
            == LoopPhase::Stopped,
    decreases seen.len(),
{
    if seen.len() > 0 {
        lemma_phase_only_advances(state, seen.drop_last());
    }
}

/// An idle loop, and a loop that has stopped, ask for no push, whatever
/// they are shown.
pub proof fn lemma_only_running_pushes(state: LoopState, seen: Seq<Observation>)
    requires
        state.phase != LoopPhase::Running,
    ensures
        frames_pushed(state, seen).len() == 0,
        state_after(state, seen) == state,
    decreases seen.len(),
{
    if seen.len() > 0 {
        lemma_only_running_pushes(state, seen.drop_last());
    }
}

} // verus!
