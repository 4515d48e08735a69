//! Per-connection session state machine.
//!
//! A session bridges one websocket client to one serial device.  Its
//! event loop multiplexes three sources — inbound client frames, a
//! periodic heartbeat tick, and lines drained from the response queue —
//! into outbound client frames and device commands.  [`session_step`]
//! is the whole transition relation; the executable [`Session`] is
//! proved to follow it exactly.  The hosting process performs the
//! returned actions and, once the session reaches `Terminated`, drops
//! the command sender, which is the sole trigger for the serial link's
//! teardown.

use vstd::prelude::*;

verus! {

/// Heartbeat tick interval, in time-units.
pub const HEARTBEAT_INTERVAL: u64 = 5;

/// Silence tolerated from the client before the session is closed, in
/// time-units: two missed heartbeat intervals.
pub const CLIENT_TIMEOUT: u64 = 10;

/// The lifecycle of a session: normal operation, a close handshake or
/// observed error in progress, and resources released.
#[derive(Clone, Copy, PartialEq, Eq, Structural, Debug)]
pub enum SessionState {
    Active,
    Closing,
    Terminated,
}

/// One occurrence the session's event loop multiplexes: a client
/// frame, a heartbeat tick, a device line, or a task-level fault.
#[derive(Debug)]
pub enum SessionEvent {
    /// A client ping frame, with its payload.
    ClientPing(Vec<u8>),
    /// A client pong frame.
    ClientPong,
    /// A client close frame, with its optional reason.
    ClientClose(Option<String>),
    /// A client text frame carrying a device command.
    ClientText(String),
    /// Any other client frame: binary or malformed, a protocol
    /// violation.
    ClientUnsupported,
    /// The periodic heartbeat tick.
    HeartbeatTick,
    /// A device line drained from the response queue.
    DeviceLine(String),
    /// The response queue's sending side is gone: the reader exited.
    DeviceClosed,
    /// The forwarding of a command could not complete because the
    /// command queue is permanently closed: the writer is gone.
    CommandSendFailed,
}

/// What the hosting process must do after a transition, in order.
#[derive(Debug, PartialEq)]
pub enum SessionAction {
    /// Reply to a ping with a pong carrying the identical payload.
    SendPong(Vec<u8>),
    /// Probe the client with a ping.
    SendPing,
    /// Echo a close frame with the identical reason.
    EchoClose(Option<String>),
    /// Hand a command to the command queue, bytes untouched.
    ForwardCommand(String),
    /// Send a device line to the client as a text frame, verbatim.
    SendText(String),
}

/// Mathematical image of a [`SessionEvent`].
#[verifier::ext_equal]
pub enum EventModel {
    ClientPing(Seq<u8>),
    ClientPong,
    ClientClose(Option<Seq<char>>),
    ClientText(Seq<char>),
    ClientUnsupported,
    HeartbeatTick,
    DeviceLine(Seq<char>),
    DeviceClosed,
    CommandSendFailed,
}

/// Mathematical image of a [`SessionAction`].
#[verifier::ext_equal]
pub enum ActionModel {
    SendPong(Seq<u8>),
    SendPing,
    EchoClose(Option<Seq<char>>),
    ForwardCommand(Seq<char>),
    SendText(Seq<char>),
}

/// Mathematical image of a [`Session`].
#[verifier::ext_equal]
pub struct SessionModel {
    pub state: SessionState,
    pub last_heartbeat: nat,
    pub heartbeat_interval: nat,
    pub client_timeout: nat,
}

/// A transition's outcome: the state after it and the actions owed.
#[verifier::ext_equal]
pub struct StepModel {
    pub post: SessionModel,
    pub actions: Seq<ActionModel>,
}

impl View for SessionEvent {
    type V = EventModel;

    closed spec fn view(&self) -> EventModel {
        match self {
            SessionEvent::ClientPing(p) => EventModel::ClientPing(p@),
            SessionEvent::ClientPong => EventModel::ClientPong,
            SessionEvent::ClientClose(r) => EventModel::ClientClose(
                match r {
                    Some(s) => Some(s@),
                    None => None,
                },
            ),
            SessionEvent::ClientText(t) => EventModel::ClientText(t@),
            SessionEvent::ClientUnsupported => EventModel::ClientUnsupported,
            SessionEvent::HeartbeatTick => EventModel::HeartbeatTick,
            SessionEvent::DeviceLine(l) => EventModel::DeviceLine(l@),
            SessionEvent::DeviceClosed => EventModel::DeviceClosed,
            SessionEvent::CommandSendFailed => EventModel::CommandSendFailed,
        }
    }
}

impl View for SessionAction {
    type V = ActionModel;

    closed spec fn view(&self) -> ActionModel {
        match self {
            SessionAction::SendPong(p) => ActionModel::SendPong(p@),
            SessionAction::SendPing => ActionModel::SendPing,
            SessionAction::EchoClose(r) => ActionModel::EchoClose(
                match r {
                    Some(s) => Some(s@),
                    None => None,
                },
            ),
            SessionAction::ForwardCommand(c) => ActionModel::ForwardCommand(c@),
            SessionAction::SendText(l) => ActionModel::SendText(l@),
        }
    }
}

/// The whole transition relation of an active session: what one event
/// does to the session and which actions it owes the hosting process.
///
/// - ping: record liveness, answer with a pong carrying the same
///   payload;
/// - pong: record liveness only;
/// - close: echo the reason, terminate;
/// - text: forward the payload untouched to the command queue;
/// - any other frame: protocol violation, terminate at once;
/// - tick: terminate without further I/O when the client has been
///   silent longer than the timeout, otherwise ping it;
/// - device line: pass it on verbatim as a text frame;
/// - device end-of-stream: nothing — it only ends device-originated
///   messages;
/// - failed command forward: the writer side is gone, terminate.
pub open spec fn session_step(pre: SessionModel, event: EventModel, now: nat) -> StepModel {
    match event {
        EventModel::ClientPing(payload) => StepModel {
            post: SessionModel { last_heartbeat: now, ..pre },
            actions: seq![ActionModel::SendPong(payload)],
        },
        EventModel::ClientPong => StepModel {
            post: SessionModel { last_heartbeat: now, ..pre },
            actions: seq![],
        },
        EventModel::ClientClose(reason) => StepModel {
            post: SessionModel { state: SessionState::Terminated, ..pre },
            actions: seq![ActionModel::EchoClose(reason)],
        },
        EventModel::ClientText(payload) => StepModel {
            post: pre,
            actions: seq![ActionModel::ForwardCommand(payload)],
        },
        EventModel::ClientUnsupported => StepModel {
            post: SessionModel { state: SessionState::Terminated, ..pre },
            actions: seq![],
        },
        EventModel::HeartbeatTick => if now > pre.last_heartbeat + pre.client_timeout {
            StepModel {
                post: SessionModel { state: SessionState::Terminated, ..pre },
                actions: seq![],
            }
        } else {
            StepModel { post: pre, actions: seq![ActionModel::SendPing] }
        },
        EventModel::DeviceLine(line) => StepModel {
            post: pre,
            actions: seq![ActionModel::SendText(line)],
        },
        EventModel::DeviceClosed => StepModel { post: pre, actions: seq![] },
        EventModel::CommandSendFailed => StepModel {
            post: SessionModel { state: SessionState::Terminated, ..pre },
            actions: seq![],
        },
    }
}

/// Per-connection state: where the session stands in its lifecycle and
/// when the client last showed life, against the configured heartbeat.
pub struct Session {
    state: SessionState,
    last_heartbeat: u64,
    heartbeat_interval: u64,
    client_timeout: u64,
}

impl Session {
    /// The session as its mathematical image.
    pub closed spec fn model(&self) -> SessionModel {
        SessionModel {
            state: self.state,
            last_heartbeat: self.last_heartbeat as nat,
            heartbeat_interval: self.heartbeat_interval as nat,
            client_timeout: self.client_timeout as nat,
        }
    }

    /// A fresh session with the given heartbeat configuration, active,
    /// counting the client as alive at `now`.
    pub fn with_config(heartbeat_interval: u64, client_timeout: u64, now: u64) -> (s: Session)
        ensures
            s.model() == (SessionModel {
                state: SessionState::Active,
                last_heartbeat: now as nat,
                heartbeat_interval: heartbeat_interval as nat,
                client_timeout: client_timeout as nat,
            }),
    {
        Session { state: SessionState::Active, last_heartbeat: now, heartbeat_interval, client_timeout }
    }

    /// A fresh session with the default heartbeat configuration.
    pub fn new(now: u64) -> (s: Session)
        ensures
            s.model() == (SessionModel {
                state: SessionState::Active,
                last_heartbeat: now as nat,
                heartbeat_interval: HEARTBEAT_INTERVAL as nat,
                client_timeout: CLIENT_TIMEOUT as nat,
            }),
    {
        Session::with_config(HEARTBEAT_INTERVAL, CLIENT_TIMEOUT, now)
    }

    /// Where the session stands in its lifecycle.
    pub fn state(&self) -> (s: SessionState)
        ensures
            s == self.model().state,
    {
        self.state
    }

    /// Handles one event at time `now`: mutates the session and
    /// returns the actions owed, exactly as [`session_step`] says.
    /// The clock never runs backwards past the last recorded
    /// heartbeat.
    pub fn on_event(&mut self, event: SessionEvent, now: u64) -> (actions: Vec<SessionAction>)
        requires
            old(self).model().state == SessionState::Active,
            old(self).model().last_heartbeat <= now as nat,
        ensures
            final(self).model() == session_step(old(self).model(), event@, now as nat).post,
            actions@.map_values(|a: SessionAction| a@) == session_step(
                old(self).model(),
                event@,
                now as nat,
            ).actions,
    {
        let ghost pre = self.model();
        let mut actions: Vec<SessionAction> = Vec::new();
        match event {
            SessionEvent::ClientPing(payload) => {
                self.last_heartbeat = now;
                actions.push(SessionAction::SendPong(payload));
            },
            SessionEvent::ClientPong => {
                self.last_heartbeat = now;
            },
            SessionEvent::ClientClose(reason) => {
                self.state = SessionState::Terminated;
                actions.push(SessionAction::EchoClose(reason));
            },
            SessionEvent::ClientText(payload) => {
                actions.push(SessionAction::ForwardCommand(payload));
            },
            SessionEvent::ClientUnsupported => {
                self.state = SessionState::Terminated;
            },
            SessionEvent::HeartbeatTick => {
                if now - self.last_heartbeat > self.client_timeout {
                    self.state = SessionState::Terminated;
                } else {
                    actions.push(SessionAction::SendPing);
                }
            },
            SessionEvent::DeviceLine(line) => {
                actions.push(SessionAction::SendText(line));
            },
            SessionEvent::DeviceClosed => {},
            SessionEvent::CommandSendFailed => {
                self.state = SessionState::Terminated;
            },
        }
        proof {
            assert(self.model() =~= session_step(pre, event@, now as nat).post);
            assert(actions@.map_values(|a: SessionAction| a@) =~~= session_step(
                pre,
                event@,
                now as nat,
            ).actions);
        }
        actions
    }
}

/// Heartbeat timeout law: the tick that first observes the client
/// silent for longer than the configured timeout terminates the
/// session at once, with no further I/O; any earlier tick leaves it
/// active and probes the client with a ping.
pub proof fn lemma_heartbeat_timeout(pre: SessionModel, now: nat)
    requires
        pre.state == SessionState::Active,
    ensures
        now > pre.last_heartbeat + pre.client_timeout ==> session_step(
            pre,
            EventModel::HeartbeatTick,
            now,
        ) == (StepModel {
            post: SessionModel { state: SessionState::Terminated, ..pre },
            actions: Seq::<ActionModel>::empty(),
        }),
        now <= pre.last_heartbeat + pre.client_timeout ==> session_step(
            pre,
            EventModel::HeartbeatTick,
            now,
        ) == (StepModel { post: pre, actions: seq![ActionModel::SendPing] }),
{
    if now > pre.last_heartbeat + pre.client_timeout {
        assert(session_step(pre, EventModel::HeartbeatTick, now) =~~= StepModel {
            post: SessionModel { state: SessionState::Terminated, ..pre },
            actions: Seq::<ActionModel>::empty(),
        });
    }
}

/// Payload fidelity law, session side: a client text frame leaves the
/// session unchanged and owes exactly one action — forwarding the very
/// same characters to the command queue, nothing added, nothing
/// removed.
pub proof fn lemma_payload_fidelity(pre: SessionModel, payload: Seq<char>, now: nat)
    requires
        pre.state == SessionState::Active,
    ensures
        session_step(pre, EventModel::ClientText(payload), now).post == pre,
        session_step(pre, EventModel::ClientText(payload), now).actions == seq![
            ActionModel::ForwardCommand(payload),
        ],
{
}

} // verus!
