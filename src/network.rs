//! Decisions of the network actor: discovery of the controller, the
//! keepalive and reconnect state machine of a session, and the connection
//! state shown on the indicator. The application owns the sockets and the
//! clock and performs the actions that these decisions name.
use vstd::prelude::*;
use crate::driving::elapsed;
use crate::protocol::{be16, reply_port};

verus! {

/// Milliseconds of silence after which the tracks are stopped.
pub const STOP_TIMEOUT_MS: u64 = 300;
/// Milliseconds of silence after which the session is abandoned.
pub const DISCONNECT_TIMEOUT_MS: u64 = 5000;
/// Well-known port that discovery probes are broadcast to.
pub const DISCOVERY_PORT: u16 = 7500;

/// Connection state, shown on the status indicator.
#[derive(Clone, Copy, Debug, PartialEq, Eq, Structural)]
pub enum ConnectionState {
    Disconnected,
    Connected,
    Connecting,
    Reconnecting,
}

/// An outbound command for the network actor.
#[derive(Clone, Copy, Debug, PartialEq, Eq, Structural)]
pub enum NetworkCommand {
    /// Send a sensor color, followed by the power fraction.
    Color(u8, u8, u8),
    /// End the actor's loop.
    Stop,
}

/// Phase of one run of the network actor.
#[derive(Clone, Copy, Debug, PartialEq, Eq, Structural)]
pub enum LinkPhase {
    /// Broadcasting probes until a controller answers.
    Discovering,
    /// Talking to the controller at this service port.
    Session(u16),
}

/// State of one run of the network actor.
#[derive(Clone, Copy, Debug, PartialEq, Eq, Structural)]
pub struct Link {
    pub phase: LinkPhase,
    pub connection: ConnectionState,
    /// Time of the last packet from the controller, in milliseconds.
    pub last_contact: u64,
    /// A receive has timed out since the last packet.
    pub stopped: bool,
}

/// What the application does after a receive timed out.
#[derive(Clone, Copy, Debug, PartialEq, Eq, Structural)]
pub enum TimeoutAction {
    /// Abandon the session; discovery starts over.
    Disconnect,
    /// Send the empty probe again, after forwarding a zero track command
    /// where `safety_stop` is set.
    Probe { safety_stop: bool },
}

/// The state after a discovery probe got `reply` (`None`: no reply).
pub open spec fn after_discovery(s: Link, reply: Option<Seq<u8>>) -> Link {
    match (s.phase, reply) {
        (LinkPhase::Discovering, Some(b)) => if b.len() >= 4 {
            Link {
                phase: LinkPhase::Session(be16(b[2], b[3]) as u16),
                connection: ConnectionState::Connecting,
                ..s
            }
        } else {
            s
        },
        _ => s,
    }
}

/// The state after a packet arrived at `now`.
pub open spec fn after_packet(s: Link, now: u64) -> Link {
    Link {
        last_contact: now,
        stopped: false,
        connection: if s.stopped {
            ConnectionState::Connected
        } else {
            s.connection
        },
        ..s
    }
}

/// The action after a receive timed out at `now`.
pub open spec fn timeout_action(s: Link, now: u64) -> TimeoutAction {
    if elapsed(s.last_contact, now) > DISCONNECT_TIMEOUT_MS {
        TimeoutAction::Disconnect
    } else {
        TimeoutAction::Probe { safety_stop: elapsed(s.last_contact, now) > STOP_TIMEOUT_MS }
    }
}

/// The state after a receive timed out at `now`.
pub open spec fn after_timeout(s: Link, now: u64) -> Link {
    if elapsed(s.last_contact, now) > DISCONNECT_TIMEOUT_MS {
        Link { connection: ConnectionState::Disconnected, ..s }
    } else if elapsed(s.last_contact, now) > STOP_TIMEOUT_MS {
        Link { connection: ConnectionState::Reconnecting, stopped: true, ..s }
    } else {
        Link { stopped: true, ..s }
    }
}

impl Link {
    /// A run that starts by discovering the controller.
    pub fn new() -> (r: Link)
        ensures
            r.phase == LinkPhase::Discovering,
            r.connection == ConnectionState::Disconnected,
            !r.stopped,
    {
        Link {
            phase: LinkPhase::Discovering,
            connection: ConnectionState::Disconnected,
            last_contact: 0,
            stopped: false,
        }
    }

    /// Takes the outcome of one discovery probe. A reply of at least four
    /// bytes names the controller's service port and ends discovery.
    pub fn on_discovery(&mut self, reply: Option<&[u8]>)
        ensures
            *final(self) == after_discovery(
                *old(self),
                match reply {
                    Some(b) => Some(b@),
                    None => None,
                },
            ),
    {
        if let LinkPhase::Discovering = self.phase {
            if let Some(b) = reply {
                if let Some(port) = reply_port(b) {
                    self.phase = LinkPhase::Session(port);
                    self.connection = ConnectionState::Connecting;
                }
            }
        }
    }

    /// The session socket is up and the greeting sent at `now`.
    pub fn connected(&mut self, now: u64)
        ensures
            final(self).phase == old(self).phase,
            final(self).connection == ConnectionState::Connected,
            final(self).last_contact == now,
            !final(self).stopped,
    {
        self.connection = ConnectionState::Connected;
        self.last_contact = now;
        self.stopped = false;
    }

    /// A packet arrived at `now`: contact is renewed, and a link that had
    /// timed out counts as connected again.
    pub fn on_packet(&mut self, now: u64)
        ensures
            *final(self) == after_packet(*old(self), now),
    {
        if self.stopped {
            self.stopped = false;
            self.connection = ConnectionState::Connected;
        }
        self.last_contact = now;
    }

    /// A receive timed out at `now`. Past the disconnect threshold the
    /// session ends; past the stop threshold the tracks are stopped and the
    /// link is reconnecting; below it the probe is sent again.
    pub fn on_timeout(&mut self, now: u64) -> (r: TimeoutAction)
        ensures
            r == timeout_action(*old(self), now),
            *final(self) == after_timeout(*old(self), now),
    {
        let silent = if now >= self.last_contact { now - self.last_contact } else { 0 };
        if silent > DISCONNECT_TIMEOUT_MS {
            self.connection = ConnectionState::Disconnected;
            TimeoutAction::Disconnect
        } else {
            let safety_stop = silent > STOP_TIMEOUT_MS;
            if safety_stop {
                self.connection = ConnectionState::Reconnecting;
            }
            self.stopped = true;
            TimeoutAction::Probe { safety_stop }
        }
    }
}

/// The state after a sequence of discovery probes with these replies.
pub open spec fn discovery_run(s: Link, replies: Seq<Option<Seq<u8>>>) -> Link
    decreases replies.len(),
{
    if replies.len() == 0 {
        s
    } else {
        after_discovery(discovery_run(s, replies.drop_last()), replies.last())
    }
}

/// Probes that get no reply leave the actor discovering, however many there
/// are.
pub proof fn lemma_discovery_without_reply(s: Link, replies: Seq<Option<Seq<u8>>>)
    requires
        s.phase == LinkPhase::Discovering,
        forall|i: int| 0 <= i < replies.len() ==> #[trigger] replies[i] is None,
    ensures
        discovery_run(s, replies) == s,
    decreases replies.len(),
{
    if replies.len() > 0 {
        let front = replies.drop_last();
        assert forall|i: int| 0 <= i < front.len() implies #[trigger] front[i] is None by {
            assert(front[i] == replies[i]);
        }
        lemma_discovery_without_reply(s, front);
        assert(replies[replies.len() - 1] is None);
    }
}

/// Silence on a session: past the stop threshold and up to the disconnect
/// threshold a timeout forwards a safety stop and marks the link
/// reconnecting; below the stop threshold it only re-probes; past the
/// disconnect threshold the session ends as disconnected.
pub proof fn lemma_silence(s: Link, now: u64)
    requires
        now >= s.last_contact,
    ensures
        now - s.last_contact <= STOP_TIMEOUT_MS ==> timeout_action(s, now)
            == (TimeoutAction::Probe { safety_stop: false }) && after_timeout(s, now).connection
            == s.connection,
        STOP_TIMEOUT_MS < now - s.last_contact <= DISCONNECT_TIMEOUT_MS ==> timeout_action(s, now)
            == (TimeoutAction::Probe { safety_stop: true }) && after_timeout(s, now).connection
            == ConnectionState::Reconnecting,
        now - s.last_contact > DISCONNECT_TIMEOUT_MS ==> timeout_action(s, now)
            == TimeoutAction::Disconnect && after_timeout(s, now).connection
            == ConnectionState::Disconnected,
        after_timeout(s, now).last_contact == s.last_contact,
{
}

/// A packet after silence brings a reconnecting link back to connected.
pub proof fn lemma_packet_reconnects(s: Link, t: u64, now: u64)
    requires
        t >= s.last_contact,
        t - s.last_contact <= DISCONNECT_TIMEOUT_MS,
    ensures
        after_packet(after_timeout(s, t), now).connection == ConnectionState::Connected,
        after_packet(after_timeout(s, t), now).last_contact == now,
{
}

} // verus!
