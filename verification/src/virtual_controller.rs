//! The bridge facade: what callers hold.
//!
//! A `VirtualController` owns the running flag, the button store and the
//! device session. It decides; it does not act. Whoever hosts it performs
//! the operations on the bus, runs the task that ticks an `UpdateLoop`, and
//! tells the controller how things went.

use vstd::prelude::*;
use crate::buttons::ButtonState;
use crate::buttons::LogicalButton;
use crate::buttons::apply_write;
use crate::buttons::apply_writes;
use crate::buttons::button_named;
use crate::buttons::lemma_last_write_wins;
use crate::session::DeviceSession;
use crate::session::SessionStage;
use crate::update_loop::LoopAction;
use crate::update_loop::LoopState;
use crate::update_loop::tick_action;

verus! {

/// What a `VirtualController` holds.
pub struct ControllerState {
    /// The running flag: whether the update loop is to go on.
    pub running: bool,
    /// The button store.
    pub buttons: ButtonState,
    /// The stage of the device session.
    pub session: SessionStage,
}

impl ControllerState {
    /// The running flag is up only while the session is ready.
    pub open spec fn consistent(self) -> bool {
        self.running ==> self.session == SessionStage::Ready
    }

    /// The state of a controller that has just been made: not running,
    /// every button released, no session.
    pub open spec fn initial() -> ControllerState {
        ControllerState {
            running: false,
            buttons: ButtonState::released(),
            session: SessionStage::Empty,
        }
    }

    /// Whether `initialize` takes a session at `session`: the controller
    /// must not be active already, and the session must be ready.
    pub open spec fn accepts(self, session: SessionStage) -> bool {
        !self.running && session == SessionStage::Ready
    }

    /// The state after `initialize` with a session at `session`: a
    /// controller that is not active takes a ready session and becomes
    /// active. An active controller, and any session that is not ready,
    /// change nothing. The store is not touched.
    pub open spec fn after_initialize(self, session: SessionStage) -> ControllerState {
        if self.accepts(session) {
            ControllerState { running: true, buttons: self.buttons, session: SessionStage::Ready }
        } else {
            self
        }
    }

    /// The state after `shutdown`: a running controller stops and closes
    /// its session, any other stays as it is. The store is not touched.
    pub open spec fn after_shutdown(self) -> ControllerState {
        if self.running {
            ControllerState {
                running: false,
                buttons: self.buttons,
                session: SessionStage::Closed,
            }
        } else {
            self
        }
    }

    /// The state after `set_button`: the store takes the write, the rest
    /// stays.
    pub open spec fn after_set_button(self, name: Seq<char>, pressed: bool) -> ControllerState {
        ControllerState {
            running: self.running,
            buttons: apply_write(self.buttons, name, pressed),
            session: self.session,
        }
    }

    /// The state after a sequence of `set_button` calls, first to last.
    pub open spec fn after_set_buttons(self, writes: Seq<(Seq<char>, bool)>) -> ControllerState
        decreases writes.len(),
    {
        if writes.len() == 0 {
            self
        } else {
            self.after_set_buttons(writes.drop_last()).after_set_button(
                writes.last().0,
                writes.last().1,
            )
        }
    }
}

/// The bridge between button events and the virtual gamepad.
pub struct VirtualController {
    running: bool,
    button_state: ButtonState,
    session: DeviceSession,
}

impl View for VirtualController {
    type V = ControllerState;

    closed spec fn view(&self) -> ControllerState {
        ControllerState {
            running: self.running,
            buttons: self.button_state,
            session: self.session@,
        }
    }
}

impl VirtualController {
    #[verifier::type_invariant]
    spec fn running_only_when_ready(self) -> bool {
        self.running ==> self.session@ == SessionStage::Ready
    }

    /// A controller that is not active: the flag is down, every button is
    /// released, there is no session.
    pub fn new() -> (controller: VirtualController)
        ensures
            controller@ == ControllerState::initial(),
            controller@.consistent(),
    {
        VirtualController {
            running: false,
            button_state: ButtonState::new(),
            session: DeviceSession::new(),
        }
    }

    /// Takes over a session that the host has driven as far as it would
    /// go. A controller that is not active becomes active with a ready
    /// session: it keeps the session and raises the running flag, and the
    /// answer is `true`, which is the host's word to start the update loop.
    ///
    /// In every other case the answer is `false`, nothing changes and no
    /// loop is to be started. That is so for a session that is not ready,
    /// and for a controller that is active already: it has its session and
    /// its loop, and takes no second one before it has been shut down. The
    /// store is writable either way and keeps what it holds.
    pub fn initialize(&mut self, session: DeviceSession) -> (active: bool)
        ensures
            active == (!old(self)@.running && session@ == SessionStage::Ready),
            active == old(self)@.accepts(session@),
            final(self)@ == old(self)@.after_initialize(session@),
            !active ==> final(self)@ == old(self)@,
            active ==> final(self)@.running && final(self)@.session == SessionStage::Ready,
            final(self)@.buttons == old(self)@.buttons,
            final(self)@.consistent(),
    {
        proof {
            use_type_invariant(&*self);
        }
        if !self.running && session.is_ready() {
            self.session = session;
            self.running = true;
            true
        } else {
            false
        }
    }

    /// Stops an active controller: the running flag goes down and the
    /// session is closed. The answer says whether the controller was
    /// active, that is whether there is a loop to wait for and a device to
    /// unplug. On a controller that is not active this does nothing, so a
    /// second call after the first changes nothing.
    pub fn shutdown(&mut self) -> (was_active: bool)
        ensures
            was_active == old(self)@.running,
            final(self)@ == old(self)@.after_shutdown(),
            !final(self)@.running,
            final(self)@.buttons == old(self)@.buttons,
            final(self)@.consistent(),
    {
        proof {
            use_type_invariant(&*self);
        }
        if self.running {
            self.running = false;
            self.session.shutdown();
            true
        } else {
            false
        }
    }

    /// Writes `pressed` for the button called `button`. A name that no
    /// button has is ignored: the store keeps what it holds and the answer
    /// is `false`, so that the host can say so in its log.
    pub fn set_button(&mut self, button: &str, pressed: bool) -> (known: bool)
        ensures
            known == button_named(button@).is_some(),
            final(self)@ == old(self)@.after_set_button(button@, pressed),
            final(self)@.running == old(self)@.running,
            final(self)@.session == old(self)@.session,
            !known ==> final(self)@ == old(self)@,
            final(self)@.consistent(),
    {
        proof {
            use_type_invariant(&*self);
        }
        match LogicalButton::from_name(button) {
            Some(found) => {
                self.button_state.set(found, pressed);
                true
            },
            None => false,
        }
    }

    /// A copy of the store as it stands at this moment.
    pub fn snapshot(&self) -> (copy: ButtonState)
        ensures
            copy == self@.buttons,
    {
        self.button_state.snapshot()
    }

    /// The running flag. While it is up the session is ready.
    pub fn is_running(&self) -> (running: bool)
        ensures
            running == self@.running,
            running ==> self@.session == SessionStage::Ready,
    {
        proof {
            use_type_invariant(self);
        }
        self.running
    }

    /// The device session that the controller holds. While the running
    /// flag is up it is ready.
    pub fn session(&self) -> (session: &DeviceSession)
        ensures
            session@ == self@.session,
            self@.consistent(),
    {
        proof {
            use_type_invariant(self);
        }
        &self.session
    }
}

impl Default for VirtualController {
    fn default() -> (controller: VirtualController)
        ensures
            controller@ == ControllerState::initial(),
    {
        VirtualController::new()
    }
}

/// Initializing an active controller changes nothing: after one accepted
/// `initialize`, any further one, with whatever session, is refused and
/// leaves the controller with the session and the flag it has. So there is
/// at most one session, and one answer `true`, between two shutdowns.
pub proof fn lemma_initialize_once(
    state: ControllerState,
    first: SessionStage,
    second: SessionStage,
)
    requires
        first == SessionStage::Ready,
    ensures
        state.after_initialize(first).after_initialize(second) == state.after_initialize(first),
        state.after_initialize(first).running,
        !state.after_initialize(first).accepts(second),
{
}

/// An active controller takes no session: `initialize` is refused until
/// the controller has been shut down, and accepted again after that.
pub proof fn lemma_active_controller_refuses(state: ControllerState, session: SessionStage)
    requires
        state.running,
    ensures
        !state.accepts(session),
        state.after_initialize(session) == state,
        state.after_shutdown().accepts(SessionStage::Ready),
{
}

/// Shutting down twice in a row ends where shutting down once ends: not
/// running, and the session as the first call left it.
pub proof fn lemma_shutdown_idempotent(state: ControllerState)
    ensures
        state.after_shutdown().after_shutdown() == state.after_shutdown(),
        !state.after_shutdown().running,
        state.after_shutdown().consistent(),
{
}

/// Shutting down a controller that never became active changes nothing.
pub proof fn lemma_shutdown_without_initialize()
    ensures
        ControllerState::initial().after_shutdown() == ControllerState::initial(),
{
}

/// After a shutdown the next tick of any update loop that reads this
/// controller asks for no push and leaves without another sleep, whatever
/// has been written to the store in between.
pub proof fn lemma_shutdown_stops_loop(
    state: ControllerState,
    writes: Seq<(Seq<char>, bool)>,
    task: LoopState,
)
    ensures
        ({
            let seen = state.after_shutdown().after_set_buttons(writes);
            &&& !seen.running
            &&& tick_action(task, seen.running, seen.buttons) == LoopAction::Exit
            &&& tick_action(task, seen.running, seen.buttons).pause() == 0
        }),
{
    lemma_set_buttons(state.after_shutdown(), writes);
}

/// A tick that reads the flag of a consistent controller asks for a push
/// only while the session is ready: never before the device has reported
/// ready, never after it was shut down.
pub proof fn lemma_push_needs_ready_session(
    state: ControllerState,
    task: LoopState,
    snapshot: ButtonState,
)
    requires
        state.consistent(),
    ensures
        tick_action(task, state.running, snapshot) is Push ==> state.session
            == SessionStage::Ready,
{
}

/// A failed initialize on a fresh controller leaves it not active, and the
/// store still takes writes.
pub proof fn lemma_failed_initialize_keeps_store_writable(
    session: SessionStage,
    name: Seq<char>,
    pressed: bool,
)
    requires
        session != SessionStage::Ready,
    ensures
        ControllerState::initial().after_initialize(session) == ControllerState::initial(),
        !ControllerState::initial().after_initialize(session).running,
        ControllerState::initial().after_initialize(session).after_set_button(
            name,
            pressed,
        ).buttons == apply_write(ButtonState::released(), name, pressed),
{
}

/// After any sequence of `set_button` calls a snapshot holds, for every
/// button, the value of the last call that named it, and for a button that
/// no call named the value it held before. Calls under unknown names count
/// for nothing.
pub proof fn lemma_snapshot_holds_last_writes(
    state: ControllerState,
    writes: Seq<(Seq<char>, bool)>,
    button: LogicalButton,
)
    ensures
        forall|i: int|
            0 <= i < writes.len() && #[trigger] writes[i].0 == button.name_spec() && (forall|j: int|
                i < j < writes.len() ==> #[trigger] writes[j].0 != button.name_spec())
                ==> state.after_set_buttons(writes).buttons.pressed(button) == writes[i].1,
        (forall|i: int| 0 <= i < writes.len() ==> #[trigger] writes[i].0 != button.name_spec())
            ==> state.after_set_buttons(writes).buttons.pressed(button) == state.buttons.pressed(
            button,
        ),
{
    lemma_set_buttons(state, writes);
    lemma_last_write_wins(state.buttons, writes, button);
}

/// Writes reach the store and nothing else: after any sequence of
/// `set_button` calls the flag and the session are as before, and the store
/// is the old store with the writes applied in order.
pub proof fn lemma_set_buttons(state: ControllerState, writes: Seq<(Seq<char>, bool)>)
    ensures
        state.after_set_buttons(writes).running == state.running,
        state.after_set_buttons(writes).session == state.session,
        state.after_set_buttons(writes).buttons == apply_writes(state.buttons, writes),
    decreases writes.len(),
{
    if writes.len() > 0 {
        lemma_set_buttons(state, writes.drop_last());
    }
}

} // verus!
