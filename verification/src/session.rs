//! The device session: the life of one connection to the virtual bus.
//!
//! A session starts empty and is taken to readiness by three operations on
//! the bus, in order: connect, plug the gamepad in, wait until the system
//! reports it ready. The session itself performs none of them. It says
//! which one is due, is told how that one went, and keeps the stage. The
//! first failure closes the session for good: nothing is retried inside a
//! session, a new attempt starts with a new one.

use vstd::prelude::*;

verus! {

/// How far a session has come.
#[derive(Clone, Copy, Debug, PartialEq, Eq, Structural)]
pub enum SessionStage {
    /// Nothing has been done yet.
    Empty,
    /// The bus has accepted the connection.
    Connected,
    /// The gamepad is registered and plugged in.
    PluggedIn,
    /// The system has reported the gamepad ready: frames may be pushed.
    Ready,
    /// The session has failed or has been shut down, and is of no more use.
    Closed,
}

/// An operation on the bus.
#[derive(Clone, Copy, Debug, PartialEq, Eq, Structural)]
pub enum SessionStep {
    /// Connect to the bus driver.
    Connect,
    /// Register the gamepad and plug it in.
    PlugIn,
    /// Wait until the system reports the gamepad ready.
    WaitReady,
}

/// Why a session did not advance.
#[derive(Clone, Copy, Debug, PartialEq, Eq, Structural)]
pub enum SessionError {
    /// The bus driver is absent or refused the connection.
    ConnectFailed,
    /// The gamepad could not be plugged in.
    PlugInFailed,
    /// The gamepad did not become ready.
    WaitReadyFailed,
    /// No operation was due: the session is ready already, or closed.
    NothingDue,
}

/// The operation that is due at `stage`, if any.
pub open spec fn step_due(stage: SessionStage) -> Option<SessionStep> {
    match stage {
        SessionStage::Empty => Some(SessionStep::Connect),
        SessionStage::Connected => Some(SessionStep::PlugIn),
        SessionStage::PluggedIn => Some(SessionStep::WaitReady),
        SessionStage::Ready => None,
        SessionStage::Closed => None,
    }
}

/// The stage that follows `stage` once the operation due there has been
/// tried: one further on success, closed on failure. Where nothing is due
/// the stage stays.
pub open spec fn stage_after(stage: SessionStage, succeeded: bool) -> SessionStage {
    match stage {
        SessionStage::Empty => if succeeded {
            SessionStage::Connected
        } else {
            SessionStage::Closed
        },
        SessionStage::Connected => if succeeded {
            SessionStage::PluggedIn
        } else {
            SessionStage::Closed
        },
        SessionStage::PluggedIn => if succeeded {
            SessionStage::Ready
        } else {
            SessionStage::Closed
        },
        SessionStage::Ready => SessionStage::Ready,
        SessionStage::Closed => SessionStage::Closed,
    }
}

/// What `advance` answers at `stage` for an operation that went as
/// `succeeded` says.
pub open spec fn advance_result(stage: SessionStage, succeeded: bool) -> Result<(), SessionError> {
    match step_due(stage) {
        None => Err(SessionError::NothingDue),
        Some(step) => if succeeded {
            Ok(())
        } else {
            Err(
                match step {
                    SessionStep::Connect => SessionError::ConnectFailed,
                    SessionStep::PlugIn => SessionError::PlugInFailed,
                    SessionStep::WaitReady => SessionError::WaitReadyFailed,
                },
            )
        },
    }
}

/// The stage after a run of operations whose outcomes are `outcomes`, each
/// reported in turn.
pub open spec fn stage_after_all(stage: SessionStage, outcomes: Seq<bool>) -> SessionStage
    decreases outcomes.len(),
{
    if outcomes.len() == 0 {
        stage
    } else {
        stage_after(stage_after_all(stage, outcomes.drop_last()), outcomes.last())
    }
}

/// One connection to the virtual bus and the gamepad registered on it.
#[derive(Debug)]
pub struct DeviceSession {
    stage: SessionStage,
}

impl View for DeviceSession {
    type V = SessionStage;

    closed spec fn view(&self) -> SessionStage {
        self.stage
    }
}

impl DeviceSession {
    /// A session on which nothing has been done yet.
    pub fn new() -> (session: DeviceSession)
        ensures
            session@ == SessionStage::Empty,
    {
        DeviceSession { stage: SessionStage::Empty }
    }

    /// How far the session has come.
    pub fn stage(&self) -> (stage: SessionStage)
        ensures
            stage == self@,
    {
        self.stage
    }

    /// The operation to perform next, or `None` where the session is ready
    /// or closed.
    pub fn next_step(&self) -> (step: Option<SessionStep>)
        ensures
            step == step_due(self@),
    {
        match self.stage {
            SessionStage::Empty => Some(SessionStep::Connect),
            SessionStage::Connected => Some(SessionStep::PlugIn),
            SessionStage::PluggedIn => Some(SessionStep::WaitReady),
            SessionStage::Ready => None,
            SessionStage::Closed => None,
        }
    }

    /// Records how the operation that was due went. On success the session
    /// moves one stage on. On failure it is closed, and the error names the
    /// operation that failed. Where no operation was due nothing changes.
    pub fn advance(&mut self, succeeded: bool) -> (result: Result<(), SessionError>)
        ensures
            final(self)@ == stage_after(old(self)@, succeeded),
            result == advance_result(old(self)@, succeeded),
            result is Ok <==> succeeded && step_due(old(self)@) is Some,
    {
        match self.stage {
            SessionStage::Empty => {
                if succeeded {
                    self.stage = SessionStage::Connected;
                    Ok(())
                } else {
                    self.stage = SessionStage::Closed;
                    Err(SessionError::ConnectFailed)
                }
            },
            SessionStage::Connected => {
                if succeeded {
                    self.stage = SessionStage::PluggedIn;
                    Ok(())
                } else {
                    self.stage = SessionStage::Closed;
                    Err(SessionError::PlugInFailed)
                }
            },
            SessionStage::PluggedIn => {
                if succeeded {
                    self.stage = SessionStage::Ready;
                    Ok(())
                } else {
                    self.stage = SessionStage::Closed;
                    Err(SessionError::WaitReadyFailed)
                }
            },
            SessionStage::Ready => Err(SessionError::NothingDue),
            SessionStage::Closed => Err(SessionError::NothingDue),
        }
    }

    /// Whether frames may be pushed through this session.
    pub fn is_ready(&self) -> (ready: bool)
        ensures
            ready == (self@ == SessionStage::Ready),
    {
        self.stage == SessionStage::Ready
    }

    /// Ends the session. Afterwards nothing is due and nothing may be
    /// pushed. Ending a session that has ended already changes nothing.
    pub fn shutdown(&mut self)
        ensures
            final(self)@ == SessionStage::Closed,
        no_unwind
    {
        self.stage = SessionStage::Closed;
    }
}

impl Default for DeviceSession {
    fn default() -> (session: DeviceSession)
        ensures
            session@ == SessionStage::Empty,
    {
        DeviceSession::new()
    }
}

/// A session becomes ready in exactly one way: connect, plug-in and wait
/// all succeed, in this order, with nothing failing before them.
pub proof fn lemma_ready_needs_three_successes(outcomes: Seq<bool>)
    ensures
        stage_after_all(SessionStage::Empty, outcomes) == SessionStage::Ready <==> outcomes.len()
            >= 3 && outcomes[0] && outcomes[1] && outcomes[2],
{
    lemma_stage_by_prefix(outcomes);
}

/// The stage reached from an empty session is fixed by the first three
/// outcomes reported, and by how many there are where they are fewer.
proof fn lemma_stage_by_prefix(outcomes: Seq<bool>)
    ensures
        stage_after_all(SessionStage::Empty, outcomes) == (if outcomes.len() == 0 {
            SessionStage::Empty
        } else if !outcomes[0] {
            SessionStage::Closed
        } else if outcomes.len() == 1 {
            SessionStage::Connected
        } else if !outcomes[1] {
            SessionStage::Closed
        } else if outcomes.len() == 2 {
            SessionStage::PluggedIn
        } else if !outcomes[2] {
            SessionStage::Closed
        } else {
            SessionStage::Ready
        }),
    decreases outcomes.len(),
{
    if outcomes.len() > 0 {
        let earlier = outcomes.drop_last();
        lemma_stage_by_prefix(earlier);
        if earlier.len() > 0 {
            assert(earlier[0] == outcomes[0]);
        }
        if earlier.len() > 1 {
            assert(earlier[1] == outcomes[1]);
        }
        if earlier.len() > 2 {
            assert(earlier[2] == outcomes[2]);
        }
    }
}

/// A closed session stays closed whatever is reported to it.
pub proof fn lemma_closed_is_final(outcomes: Seq<bool>)
    ensures
        stage_after_all(SessionStage::Closed, outcomes) == SessionStage::Closed,
    decreases outcomes.len(),
{
    if outcomes.len() > 0 {
        lemma_closed_is_final(outcomes.drop_last());
    }
}

} // verus!
