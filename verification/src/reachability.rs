//! The link to the remote endpoint, as far as the bridge cares about it.
//!
//! A host probes a remote endpoint from time to time and keeps one flag,
//! "connected". Button events reach the controller only while the flag is
//! up. An operator can force the flag up, and then no probe is made. The
//! probing itself is the host's business; what the flag becomes, what is
//! worth a line in the log and whether an event goes through is decided
//! here.

use vstd::prelude::*;
use crate::virtual_controller::VirtualController;
use crate::buttons::button_named;

verus! {

/// The time between two probes, in seconds.
pub const PING_INTERVAL_SECS: u64 = 15;

/// The time a probe may take to connect, in seconds.
pub const CONNECT_TIMEOUT_SECS: u64 = 2;

/// How a probe ended.
#[derive(Clone, Copy, Debug, PartialEq, Eq, Structural)]
pub enum ProbeOutcome {
    /// The endpoint accepted the connection.
    Reached,
    /// The endpoint did not answer in time.
    TimedOut,
    /// The endpoint refused the connection.
    Refused,
    /// The probe failed in some other way.
    Failed,
}

/// A change of the link that is worth a line in the log.
#[derive(Clone, Copy, Debug, PartialEq, Eq, Structural)]
pub enum LinkNotice {
    /// The link came up.
    Established,
    /// The link went down: the endpoint did not answer in time.
    TimedOut,
    /// The link went down: the endpoint refused the connection.
    Refused,
    /// The link went down for some other reason.
    Failed,
}

/// What became of a button event.
#[derive(Clone, Copy, Debug, PartialEq, Eq, Structural)]
pub enum ButtonEventOutcome {
    /// The link is down: the event was dropped before it reached the
    /// controller.
    NotConnected,
    /// The event reached the controller, which knows no button of that
    /// name.
    UnknownButton,
    /// The event reached the controller and was written to the store.
    Stored,
}

/// The notice that a probe outcome calls for, given the flag as it stood:
/// one on each change of the flag, none while it stays.
pub open spec fn notice_for(connected: bool, outcome: ProbeOutcome) -> Option<LinkNotice> {
    match outcome {
        ProbeOutcome::Reached => if connected {
            None
        } else {
            Some(LinkNotice::Established)
        },
        ProbeOutcome::TimedOut => if connected {
            Some(LinkNotice::TimedOut)
        } else {
            None
        },
        ProbeOutcome::Refused => if connected {
            Some(LinkNotice::Refused)
        } else {
            None
        },
        ProbeOutcome::Failed => if connected {
            Some(LinkNotice::Failed)
        } else {
            None
        },
    }
}

/// The connected flag and the operator's override.
#[derive(Clone, Copy, Debug, PartialEq, Eq, Structural)]
pub struct LinkState {
    /// Whether button events go through.
    pub connected: bool,
    /// Whether the operator has forced the flag up.
    pub force_connected: bool,
}

impl LinkState {
    /// The state after a probe that ended as `outcome`. Under the
    /// operator's override the flag is up whatever the probe says.
    pub open spec fn after_probe(self, outcome: ProbeOutcome) -> LinkState {
        LinkState {
            connected: self.force_connected || outcome == ProbeOutcome::Reached,
            force_connected: self.force_connected,
        }
    }

    /// The state after the operator has flipped the override. Forcing
    /// raises the flag at once; releasing leaves it for the next probe to
    /// settle.
    pub open spec fn after_toggle(self) -> LinkState {
        LinkState {
            connected: !self.force_connected || self.connected,
            force_connected: !self.force_connected,
        }
    }

    /// A link that is down and not forced.
    pub fn new() -> (link: LinkState)
        ensures
            link == (LinkState { connected: false, force_connected: false }),
    {
        LinkState { connected: false, force_connected: false }
    }

    /// Whether a probe is due, `elapsed_ms` milliseconds after the last
    /// one, where one is to be made every `interval_ms`.
    pub fn ping_due(elapsed_ms: u64, interval_ms: u64) -> (due: bool)
        ensures
            due == (elapsed_ms >= interval_ms),
    {
        elapsed_ms >= interval_ms
    }

    /// Opens a ping. Under the operator's override the flag is raised and
    /// no probe is to be made; otherwise nothing changes and the answer
    /// asks for a probe.
    pub fn begin_ping(&mut self) -> (probe: bool)
        ensures
            probe == !old(self).force_connected,
            final(self).force_connected == old(self).force_connected,
            final(self).connected == (old(self).force_connected || old(self).connected),
    {
        if self.force_connected {
            self.connected = true;
            false
        } else {
            true
        }
    }

    /// Takes in the outcome of a probe. The flag follows the outcome, and
    /// the answer is a notice exactly when the flag has changed. Under the
    /// operator's override the flag is up, and there is no notice.
    pub fn record_probe(&mut self, outcome: ProbeOutcome) -> (notice: Option<LinkNotice>)
        ensures
            *final(self) == old(self).after_probe(outcome),
            notice == (if old(self).force_connected {
                None
            } else {
                notice_for(old(self).connected, outcome)
            }),
            !old(self).force_connected ==> (notice is Some <==> final(self).connected != old(
                self,
            ).connected),
    {
        if self.force_connected {
            self.connected = true;
            return None;
        }
        match outcome {
            ProbeOutcome::Reached => {
                if !self.connected {
                    self.connected = true;
                    Some(LinkNotice::Established)
                } else {
                    None
                }
            },
            ProbeOutcome::TimedOut => {
                if self.connected {
                    self.connected = false;
                    Some(LinkNotice::TimedOut)
                } else {
                    None
                }
            },
            ProbeOutcome::Refused => {
                if self.connected {
                    self.connected = false;
                    Some(LinkNotice::Refused)
                } else {
                    None
                }
            },
            ProbeOutcome::Failed => {
                if self.connected {
                    self.connected = false;
                    Some(LinkNotice::Failed)
                } else {
                    None
                }
            },
        }
    }

    /// Flips the operator's override. Forcing raises the flag at once and
    /// needs no probe. Releasing keeps the flag for the moment and asks for
    /// a probe to settle it.
    pub fn toggle_force_connected(&mut self) -> (probe: bool)
        ensures
            *final(self) == old(self).after_toggle(),
            probe == old(self).force_connected,
    {
        self.force_connected = !self.force_connected;
        if self.force_connected {
            self.connected = true;
            false
        } else {
            true
        }
    }

    /// Hands a button event to the controller if the link is up, and drops
    /// it if not. A dropped event leaves the controller as it was.
    pub fn forward_button(
        &self,
        controller: &mut VirtualController,
        name: &str,
        pressed: bool,
    ) -> (outcome: ButtonEventOutcome)
        ensures
            final(controller)@ == (if self.connected {
                old(controller)@.after_set_button(name@, pressed)
            } else {
                old(controller)@
            }),
            outcome == (if !self.connected {
                ButtonEventOutcome::NotConnected
            } else if button_named(name@).is_some() {
                ButtonEventOutcome::Stored
            } else {
                ButtonEventOutcome::UnknownButton
            }),
    {
        if !self.connected {
            ButtonEventOutcome::NotConnected
        } else if controller.set_button(name, pressed) {
            ButtonEventOutcome::Stored
        } else {
            ButtonEventOutcome::UnknownButton
        }
    }
}

impl Default for LinkState {
    fn default() -> (link: LinkState)
        ensures
            link == (LinkState { connected: false, force_connected: false }),
    {
        LinkState::new()
    }
}

/// While the operator forces the link, it is up after every ping, whatever
/// the probes say.
pub proof fn lemma_forced_link_stays_up(link: LinkState, outcome: ProbeOutcome)
    requires
        link.force_connected,
    ensures
        link.after_probe(outcome).connected,
        link.after_probe(outcome).force_connected,
{
}

} // verus!
