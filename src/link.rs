//! The Wi-Fi link keeper: starts the driver, joins the network, waits for an
//! address, and rejoins after a disconnection, at constant retry intervals.
//! The caller performs each action and reports what came of it.

use vstd::prelude::*;

verus! {

/// Pause before the first start, and between failed starts, in milliseconds.
pub const START_RETRY_MS: u64 = 1000;

/// Pause before each new attempt to join, in milliseconds.
pub const CONNECT_RETRY_MS: u64 = 2000;

/// Longest wait for an address to be assigned or released, in milliseconds.
pub const ADDRESS_TIMEOUT_MS: u64 = 30000;

/// Where the link stands between events.
#[derive(Clone, Copy, Debug, PartialEq, Eq, Structural)]
pub enum LinkPhase {
    /// The driver is being started.
    Starting,
    /// Joining the network.
    Connecting,
    /// Joined; waiting for an address.
    AwaitingAddress,
    /// Joined; waiting for a disconnection.
    Online,
    /// Disconnected; waiting for the address to be released.
    Releasing,
}

/// What the caller reports back.
#[derive(Clone, Copy, Debug, PartialEq, Eq, Structural)]
pub enum LinkEvent {
    Started,
    StartFailed,
    Connected,
    ConnectFailed,
    AddressUp,
    AddressTimedOut,
    Disconnected,
    /// The wait for the address to be released ended, in time or not.
    Released,
}

/// What the caller does next.
#[derive(Clone, Copy, Debug, PartialEq, Eq, Structural)]
pub enum LinkAction {
    /// Sleep `after_ms`, then start the driver.
    StartDriver { after_ms: u64 },
    /// Sleep `after_ms`, then join the network.
    Connect { after_ms: u64 },
    /// Wait up to `timeout_ms` for an address.
    AwaitAddress { timeout_ms: u64 },
    /// Wait until the link drops.
    AwaitDisconnect,
    /// Wait up to `timeout_ms` for the address to be released.
    AwaitRelease { timeout_ms: u64 },
}

/// The action to perform in a phase, having come to it through `e`.
pub open spec fn link_action(p: LinkPhase, e: LinkEvent) -> LinkAction {
    match p {
        LinkPhase::Starting => LinkAction::StartDriver { after_ms: START_RETRY_MS },
        LinkPhase::Connecting => if e == LinkEvent::Started {
            LinkAction::Connect { after_ms: 0 }
        } else {
            LinkAction::Connect { after_ms: CONNECT_RETRY_MS }
        },
        LinkPhase::AwaitingAddress => LinkAction::AwaitAddress { timeout_ms: ADDRESS_TIMEOUT_MS },
        LinkPhase::Online => LinkAction::AwaitDisconnect,
        LinkPhase::Releasing => LinkAction::AwaitRelease { timeout_ms: ADDRESS_TIMEOUT_MS },
    }
}

/// The phase after `e` in phase `p`. An event that the phase does not expect
/// leaves it as it is.
pub open spec fn next_link_phase(p: LinkPhase, e: LinkEvent) -> LinkPhase {
    match p {
        LinkPhase::Starting => if e == LinkEvent::Started {
            LinkPhase::Connecting
        } else {
            p
        },
        LinkPhase::Connecting => if e == LinkEvent::Connected {
            LinkPhase::AwaitingAddress
        } else {
            p
        },
        LinkPhase::AwaitingAddress => if e == LinkEvent::AddressUp || e
            == LinkEvent::AddressTimedOut {
            LinkPhase::Online
        } else {
            p
        },
        LinkPhase::Online => if e == LinkEvent::Disconnected {
            LinkPhase::Releasing
        } else {
            p
        },
        LinkPhase::Releasing => if e == LinkEvent::Released {
            LinkPhase::Connecting
        } else {
            p
        },
    }
}

/// The Wi-Fi link keeper.
#[derive(Clone, Copy, Debug, PartialEq, Eq, Structural)]
pub struct WifiLink {
    pub phase: LinkPhase,
}

impl WifiLink {
    /// A link whose driver is not started yet, and the first action.
    pub fn new() -> (r: (WifiLink, LinkAction))
        ensures
            r.0.phase == LinkPhase::Starting,
            r.1 == (LinkAction::StartDriver { after_ms: START_RETRY_MS }),
    {
        (WifiLink { phase: LinkPhase::Starting }, LinkAction::StartDriver { after_ms: START_RETRY_MS })
    }

    /// Takes the event that ended the current action and returns the next
    /// action. Failed starts and failed or lost connections are retried after
    /// a pause that does not grow.
    pub fn on_event(&mut self, event: LinkEvent) -> (r: LinkAction)
        ensures
            final(self).phase == next_link_phase(old(self).phase, event),
            r == link_action(final(self).phase, event),
    {
        let next = match self.phase {
            LinkPhase::Starting => if event == LinkEvent::Started {
                LinkPhase::Connecting
            } else {
                self.phase
            },
            LinkPhase::Connecting => if event == LinkEvent::Connected {
                LinkPhase::AwaitingAddress
            } else {
                self.phase
            },
            LinkPhase::AwaitingAddress => if event == LinkEvent::AddressUp || event
                == LinkEvent::AddressTimedOut {
                LinkPhase::Online
            } else {
                self.phase
            },
            LinkPhase::Online => if event == LinkEvent::Disconnected {
                LinkPhase::Releasing
            } else {
                self.phase
            },
            LinkPhase::Releasing => if event == LinkEvent::Released {
                LinkPhase::Connecting
            } else {
                self.phase
            },
        };
        self.phase = next;
        match next {
            LinkPhase::Starting => LinkAction::StartDriver { after_ms: START_RETRY_MS },
            LinkPhase::Connecting => if event == LinkEvent::Started {
                LinkAction::Connect { after_ms: 0 }
            } else {
                LinkAction::Connect { after_ms: CONNECT_RETRY_MS }
            },
            LinkPhase::AwaitingAddress => LinkAction::AwaitAddress { timeout_ms: ADDRESS_TIMEOUT_MS },
            LinkPhase::Online => LinkAction::AwaitDisconnect,
            LinkPhase::Releasing => LinkAction::AwaitRelease { timeout_ms: ADDRESS_TIMEOUT_MS },
        }
    }
}

} // verus!
