//! The control channel's handshake and read-loop decisions, as a state
//! machine from state and event to next state and action.

use vstd::prelude::*;
use vstd::string::StringExecFns;
use crate::endpoint::{uri, Endpoint};
use crate::router::{decode_bundle, inbound_of, route, route_result, RouteAction};
use crate::text::{has_prefix, same_text, starts_with};

verus! {

#[derive(Clone, Copy, Debug, PartialEq, Eq, Structural)]
pub enum ChannelState {
    Connecting,
    HandshakeModePending,
    HandshakeSubscribePending,
    Ready,
    Closed,
    Failed,
}

/// What the daemon hands the reader.
#[derive(Debug)]
pub enum ChannelEvent {
    Opened,
    Text(String),
    Binary(Vec<u8>),
    /// The transport closed or failed.
    Closed,
}

/// What the reader does next.
#[derive(Debug)]
pub enum ChannelAction {
    /// Send this text frame to the daemon.
    SendText(String),
    /// Hand these bytes to the inbound bundle router.
    Route(Vec<u8>),
    /// Show this unexpected frame as a warning; the session goes on.
    Warn(String),
    /// The session cannot go on; the text says why.
    Fatal(String),
    /// The session ended after it was ready.
    Stop,
    /// Nothing to do.
    Nothing,
}

/// The framing of the daemon's control protocol.
#[derive(Debug)]
pub struct HandshakeProfile {
    /// Command that selects the delivery mode (`/bundle`).
    pub mode_command: String,
    /// Prefix of the daemon's answer to it.
    pub mode_ack: String,
    /// Prefix of the daemon's answer to a subscription.
    pub subscribe_ack: String,
}

impl HandshakeProfile {
    /// Raw bundle delivery: `/bundle`, answered by `200 tx mode: bundle`.
    pub fn bundle() -> (r: HandshakeProfile)
        ensures
            r.mode_command@ == "/bundle"@,
            r.mode_ack@ == "200 tx mode: bundle"@,
            r.subscribe_ack@ == "200 subscribed"@,
    {
        HandshakeProfile {
            mode_command: String::from_str("/bundle"),
            mode_ack: String::from_str("200 tx mode: bundle"),
            subscribe_ack: String::from_str("200 subscribed"),
        }
    }

    /// Self-describing data delivery: `/data`, answered by
    /// `200 tx mode: data`.
    pub fn data() -> (r: HandshakeProfile)
        ensures
            r.mode_command@ == "/data"@,
            r.mode_ack@ == "200 tx mode: data"@,
            r.subscribe_ack@ == "200 subscribed"@,
    {
        HandshakeProfile {
            mode_command: String::from_str("/data"),
            mode_ack: String::from_str("200 tx mode: data"),
            subscribe_ack: String::from_str("200 subscribed"),
        }
    }
}

/// Prefix of every success answer of the daemon.
pub open spec fn success_prefix() -> Seq<char> {
    "200"@
}

/// The subscription command for an endpoint URI.
pub open spec fn subscribe_command(u: Seq<char>) -> Seq<char> {
    "/subscribe "@ + u
}

pub open spec fn unsubscribe_command(u: Seq<char>) -> Seq<char> {
    "/unsubscribe "@ + u
}

/// The next state after an event.
pub open spec fn next_state(p: &HandshakeProfile, s: ChannelState, e: &ChannelEvent) -> ChannelState {
    match (s, e) {
        (ChannelState::Connecting, ChannelEvent::Opened) => ChannelState::HandshakeModePending,
        (ChannelState::Closed, _) => ChannelState::Closed,
        (ChannelState::Failed, _) => ChannelState::Failed,
        (ChannelState::HandshakeModePending, ChannelEvent::Text(t)) => if t@ == p.mode_ack@ {
            ChannelState::HandshakeSubscribePending
        } else {
            ChannelState::Failed
        },
        (ChannelState::HandshakeSubscribePending, ChannelEvent::Text(t)) => if t@ == p.subscribe_ack@ {
            ChannelState::Ready
        } else {
            ChannelState::Failed
        },
        (ChannelState::Ready, ChannelEvent::Closed) => ChannelState::Closed,
        (ChannelState::Ready, ChannelEvent::Text(_)) => ChannelState::Ready,
        (ChannelState::Ready, ChannelEvent::Binary(_)) => ChannelState::Ready,
        _ => ChannelState::Failed,
    }
}

/// The action an event calls for; `local` is the URI of the local endpoint.
pub open spec fn action_fits(
    p: &HandshakeProfile,
    local: Seq<char>,
    s: ChannelState,
    e: &ChannelEvent,
    a: &ChannelAction,
) -> bool {
    match (s, e) {
        (ChannelState::Closed, _) | (ChannelState::Failed, _) => a is Nothing,
        (ChannelState::Connecting, ChannelEvent::Opened) => a matches ChannelAction::SendText(c)
            && c@ == p.mode_command@,
        (ChannelState::HandshakeModePending, ChannelEvent::Text(t)) => if t@ == p.mode_ack@ {
            a matches ChannelAction::SendText(c) && c@ == subscribe_command(local)
        } else {
            a is Fatal
        },
        (ChannelState::HandshakeSubscribePending, ChannelEvent::Text(t)) => if t@ == p.subscribe_ack@ {
            a is Nothing
        } else {
            a is Fatal
        },
        (ChannelState::Ready, ChannelEvent::Closed) => a is Stop,
        (ChannelState::Ready, ChannelEvent::Text(t)) => if has_prefix(t@, success_prefix()) {
            a is Nothing
        } else {
            a matches ChannelAction::Warn(w) && w@ == t@
        },
        (ChannelState::Ready, ChannelEvent::Binary(b)) => a matches ChannelAction::Route(r) && r@
            == b@,
        _ => a is Fatal,
    }
}

/// One control channel: its state, its framing, the local endpoint it
/// subscribes to, and whether messages from that endpoint are shown.
#[derive(Debug)]
pub struct ChatConnection {
    pub state: ChannelState,
    pub profile: HandshakeProfile,
    pub localnode: Endpoint,
    pub verbose: bool,
}

impl ChatConnection {
    /// A channel that waits for its connection to open.
    pub fn new(profile: HandshakeProfile, localnode: Endpoint, verbose: bool) -> (r: ChatConnection)
        ensures
            r.state == ChannelState::Connecting,
            r.profile == profile,
            r.localnode == localnode,
            r.verbose == verbose,
    {
        ChatConnection { state: ChannelState::Connecting, profile, localnode, verbose }
    }

    /// Whether the handshake has ended with a subscription.
    pub fn subscribed(&self) -> (r: bool)
        ensures
            r == (self.state == ChannelState::Ready),
    {
        self.state == ChannelState::Ready
    }

    /// Routes one inbound bundle frame: bytes that hold no bundle are
    /// dropped as malformed. The connection is left as it is, whatever the
    /// bytes hold.
    pub fn on_bundle(&self, raw: &[u8]) -> (r: RouteAction)
        ensures
            match inbound_of(raw@) {
                None => r is Malformed,
                Some(m) => route_result(m, self.localnode@, self.verbose, r),
            },
    {
        match decode_bundle(raw) {
            Err(_) => RouteAction::Malformed,
            Ok(b) => route(b, &self.localnode, self.verbose),
        }
    }

    /// Decides what an event does to the channel and what to do next.
    pub fn on_event(&mut self, e: ChannelEvent) -> (r: ChannelAction)
        ensures
            final(self).state == next_state(&old(self).profile, old(self).state, &e),
            final(self).profile == old(self).profile,
            final(self).localnode == old(self).localnode,
            final(self).verbose == old(self).verbose,
            action_fits(&old(self).profile, uri(old(self).localnode@), old(self).state, &e, &r),
    {
        match self.state {
            ChannelState::Closed | ChannelState::Failed => {
                return ChannelAction::Nothing;
            },
            _ => {},
        }
        match e {
            ChannelEvent::Opened => {
                if self.state == ChannelState::Connecting {
                    self.state = ChannelState::HandshakeModePending;
                    ChannelAction::SendText(self.profile.mode_command.clone())
                } else {
                    self.state = ChannelState::Failed;
                    ChannelAction::Fatal(String::from_str("connection opened twice"))
                }
            },
            ChannelEvent::Text(t) => {
                if self.state == ChannelState::HandshakeModePending {
                    if same_text(t.as_str(), self.profile.mode_ack.as_str()) {
                        self.state = ChannelState::HandshakeSubscribePending;
                        let u = self.localnode.format();
                        ChannelAction::SendText(String::from_str("/subscribe ").concat(u.as_str()))
                    } else {
                        self.state = ChannelState::Failed;
                        ChannelAction::Fatal(String::from_str("failed to set the delivery mode"))
                    }
                } else if self.state == ChannelState::HandshakeSubscribePending {
                    if same_text(t.as_str(), self.profile.subscribe_ack.as_str()) {
                        self.state = ChannelState::Ready;
                        ChannelAction::Nothing
                    } else {
                        self.state = ChannelState::Failed;
                        ChannelAction::Fatal(String::from_str("failed to subscribe"))
                    }
                } else if self.state == ChannelState::Ready {
                    if starts_with(t.as_str(), "200") {
                        ChannelAction::Nothing
                    } else {
                        ChannelAction::Warn(t)
                    }
                } else {
                    self.state = ChannelState::Failed;
                    ChannelAction::Fatal(String::from_str("text before the connection opened"))
                }
            },
            ChannelEvent::Binary(b) => {
                if self.state == ChannelState::Ready {
                    ChannelAction::Route(b)
                } else {
                    self.state = ChannelState::Failed;
                    ChannelAction::Fatal(String::from_str("bundle before the handshake ended"))
                }
            },
            ChannelEvent::Closed => {
                if self.state == ChannelState::Ready {
                    self.state = ChannelState::Closed;
                    ChannelAction::Stop
                } else {
                    self.state = ChannelState::Failed;
                    ChannelAction::Fatal(String::from_str("connection closed during the handshake"))
                }
            },
        }
    }
}

/// Right after the connection opens, the daemon's answer to the mode
/// command moves the handshake on to the subscription, and any other text
/// fails it.
pub proof fn lemma_mode_ack(p: &HandshakeProfile, t: String)
    ensures
        next_state(p, ChannelState::Connecting, &ChannelEvent::Opened) == ChannelState::HandshakeModePending,
        t@ == p.mode_ack@ ==> next_state(p, ChannelState::HandshakeModePending, &ChannelEvent::Text(t))
            == ChannelState::HandshakeSubscribePending,
        t@ != p.mode_ack@ ==> next_state(p, ChannelState::HandshakeModePending, &ChannelEvent::Text(t))
            == ChannelState::Failed,
{
}

/// A binary frame leaves a ready channel ready, whatever it holds, so the
/// next frame is read as before.
pub proof fn lemma_binary_keeps_ready(p: &HandshakeProfile, b: Vec<u8>)
    ensures
        next_state(p, ChannelState::Ready, &ChannelEvent::Binary(b)) == ChannelState::Ready,
{
}

} // verus!
