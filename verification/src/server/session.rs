use vstd::prelude::*;
use super::error::Error;

verus! {

/// Seconds a new connection may stay silent before it fails with
/// `ConnectionTimeout`, unless the handler chooses another timeout.
pub const DEFAULT_HANDSHAKE_TIMEOUT_SECS: u64 = 3;

/// Whether a handler asks for a handshake unless it chooses otherwise.
pub const DEFAULT_WITH_HANDSHAKE: bool = false;

/// Where a server connection stands.
#[derive(Debug, Clone, Copy, PartialEq, Eq, Structural)]
pub enum Phase {
    /// Waiting for the first message, which goes to the handler's handshake.
    Handshake,
    /// Relaying messages between the peer and the handler.
    Open,
    /// The connection is over.
    Finished,
}

/// The kind of a websocket message read from the peer.
#[derive(Debug, Clone, Copy, PartialEq, Eq, Structural)]
pub enum FrameKind {
    Text,
    Binary,
    Close,
    Ping,
    Pong,
    Frame,
}

/// What happened on a server connection.
#[derive(Debug, Clone, Copy, PartialEq, Eq, Structural)]
pub enum SessionEvent {
    /// A message of this kind was read from the peer.
    Received(FrameKind),
    /// Reading from the peer failed.
    ReadFailed,
    /// The peer's stream ended.
    StreamEnded,
    /// The timeout for the first message passed.
    TimedOut,
    /// The handler queued a message for the peer.
    Outgoing,
}

/// What the server does next on a connection.
pub enum SessionAction {
    /// Pass the message to the handler's handshake.
    Handshake,
    /// End the connection with this error.
    Fail(Error),
    /// Pass the message to the handler.
    Deliver,
    /// Pass the message to the handler, then end the connection normally.
    DeliverThenClose,
    /// Write the queued message to the peer.
    SendToPeer,
    /// Nothing to do.
    Ignore,
    /// End the connection normally.
    Finish,
}

/// The model of a server connection.
pub struct SessionView {
    /// Where the connection stands.
    pub phase: Phase,
    /// Whether any message has been read from the peer.
    pub heard: bool,
}

/// The model of a new connection.
pub open spec fn initial_session(with_handshake: bool) -> SessionView {
    SessionView {
        phase: if with_handshake { Phase::Handshake } else { Phase::Open },
        heard: false,
    }
}

/// The model of `Session::on_event`: the next model and the action. A peer
/// that has sent nothing when the timeout passes fails the connection with
/// `ConnectionTimeout`, with or without a handshake.
pub open spec fn session_step(v: SessionView, event: SessionEvent) -> (SessionView, SessionAction) {
    match v.phase {
        Phase::Handshake => match event {
            SessionEvent::Received(_) => (
                SessionView { phase: Phase::Open, heard: true },
                SessionAction::Handshake,
            ),
            SessionEvent::ReadFailed | SessionEvent::StreamEnded => (
                SessionView { phase: Phase::Finished, ..v },
                SessionAction::Fail(Error::MalformedHandshake),
            ),
            SessionEvent::TimedOut => (
                SessionView { phase: Phase::Finished, ..v },
                SessionAction::Fail(Error::ConnectionTimeout),
            ),
            SessionEvent::Outgoing => (v, SessionAction::SendToPeer),
        },
        Phase::Open => match event {
            SessionEvent::Received(kind) => match kind {
                FrameKind::Text | FrameKind::Binary => (
                    SessionView { heard: true, ..v },
                    SessionAction::Deliver,
                ),
                FrameKind::Close => (
                    SessionView { phase: Phase::Finished, heard: true },
                    SessionAction::DeliverThenClose,
                ),
                FrameKind::Ping | FrameKind::Pong | FrameKind::Frame => (
                    SessionView { heard: true, ..v },
                    SessionAction::Ignore,
                ),
            },
            SessionEvent::ReadFailed | SessionEvent::StreamEnded => (
                SessionView { phase: Phase::Finished, ..v },
                SessionAction::Finish,
            ),
            SessionEvent::TimedOut => if v.heard {
                (v, SessionAction::Ignore)
            } else {
                (SessionView { phase: Phase::Finished, ..v }, SessionAction::Fail(Error::ConnectionTimeout))
            },
            SessionEvent::Outgoing => (v, SessionAction::SendToPeer),
        },
        Phase::Finished => (v, SessionAction::Finish),
    }
}

/// The model after a sequence of events.
pub open spec fn session_run(v: SessionView, events: Seq<SessionEvent>) -> SessionView
    decreases events.len(),
{
    if events.len() == 0 {
        v
    } else {
        session_run(session_step(v, events[0]).0, events.drop_first())
    }
}

/// The decisions of one server connection.
pub struct Session {
    phase: Phase,
    heard: bool,
}

impl View for Session {
    type V = SessionView;

    closed spec fn view(&self) -> SessionView {
        SessionView { phase: self.phase, heard: self.heard }
    }
}

impl Session {
    /// A new connection: it waits for a handshake when the handler asks for
    /// one, otherwise it relays messages right away; nothing has been read
    /// yet.
    pub fn new(with_handshake: bool) -> (r: Self)
        ensures
            r@ == initial_session(with_handshake),
    {
        if with_handshake {
            Session { phase: Phase::Handshake, heard: false }
        } else {
            Session { phase: Phase::Open, heard: false }
        }
    }

    /// The phase of the connection.
    pub fn phase(&self) -> (r: Phase)
        ensures
            r == self@.phase,
    {
        self.phase
    }

    /// Whether the timeout still applies: no message has been read and the
    /// connection is not over.
    pub fn awaits_first_message(&self) -> (r: bool)
        ensures
            r == (!self@.heard && !(self@.phase is Finished)),
    {
        !self.heard && !matches!(self.phase, Phase::Finished)
    }

    /// Takes in what happened on the connection and says what to do next.
    pub fn on_event(&mut self, event: SessionEvent) -> (r: SessionAction)
        ensures
            (final(self)@, r) == session_step(old(self)@, event),
    {
        match self.phase {
            Phase::Handshake => match event {
                SessionEvent::Received(_) => {
                    self.phase = Phase::Open;
                    self.heard = true;
                    SessionAction::Handshake
                },
                SessionEvent::ReadFailed | SessionEvent::StreamEnded => {
                    self.phase = Phase::Finished;
                    SessionAction::Fail(Error::MalformedHandshake)
                },
                SessionEvent::TimedOut => {
                    self.phase = Phase::Finished;
                    SessionAction::Fail(Error::ConnectionTimeout)
                },
                SessionEvent::Outgoing => SessionAction::SendToPeer,
            },
            Phase::Open => match event {
                SessionEvent::Received(kind) => {
                    self.heard = true;
                    match kind {
                        FrameKind::Text | FrameKind::Binary => SessionAction::Deliver,
                        FrameKind::Close => {
                            self.phase = Phase::Finished;
                            SessionAction::DeliverThenClose
                        },
                        FrameKind::Ping | FrameKind::Pong | FrameKind::Frame => SessionAction::Ignore,
                    }
                },
                SessionEvent::ReadFailed | SessionEvent::StreamEnded => {
                    self.phase = Phase::Finished;
                    SessionAction::Finish
                },
                SessionEvent::TimedOut => {
                    if self.heard {
                        SessionAction::Ignore
                    } else {
                        self.phase = Phase::Finished;
                        SessionAction::Fail(Error::ConnectionTimeout)
                    }
                },
                SessionEvent::Outgoing => SessionAction::SendToPeer,
            },
            Phase::Finished => SessionAction::Finish,
        }
    }
}

/// A finished connection stays finished whatever happens afterwards.
pub proof fn lemma_finished_is_final(v: SessionView, events: Seq<SessionEvent>)
    requires
        v.phase is Finished,
    ensures
        session_run(v, events).phase is Finished,
    decreases events.len(),
{
    if events.len() > 0 {
        lemma_finished_is_final(session_step(v, events[0]).0, events.drop_first());
    }
}

/// A peer that sends nothing before the timeout fails the connection with
/// `ConnectionTimeout`, with or without a handshake, and once a message has
/// arrived the timeout no longer matters.
pub proof fn lemma_silent_peer_times_out(with_handshake: bool, v: SessionView)
    ensures
        session_step(initial_session(with_handshake), SessionEvent::TimedOut)
            == (SessionView { phase: Phase::Finished, heard: false }, SessionAction::Fail(Error::ConnectionTimeout)),
        v.heard && v.phase is Open ==> session_step(v, SessionEvent::TimedOut) == (v, SessionAction::Ignore),
{
}

/// With a handshake, the first message from the peer goes to the
/// handshake and never to the message handler; a failed or ended stream
/// fails the connection with `MalformedHandshake`.
pub proof fn lemma_handshake_comes_first(kind: FrameKind)
    ensures
        session_step(initial_session(true), SessionEvent::Received(kind))
            == (SessionView { phase: Phase::Open, heard: true }, SessionAction::Handshake),
        session_step(initial_session(true), SessionEvent::ReadFailed).1 == SessionAction::Fail(Error::MalformedHandshake),
        session_step(initial_session(true), SessionEvent::StreamEnded).1 == SessionAction::Fail(Error::MalformedHandshake),
{
}

/// Without a handshake, every text and binary message goes to the handler,
/// and a close message goes to the handler before the connection ends.
pub proof fn lemma_messages_reach_handler(kind: FrameKind, v: SessionView)
    requires
        v.phase is Open,
    ensures
        (kind is Text || kind is Binary) ==> session_step(v, SessionEvent::Received(kind))
            == (SessionView { phase: Phase::Open, heard: true }, SessionAction::Deliver),
        kind is Close ==> session_step(v, SessionEvent::Received(kind))
            == (SessionView { phase: Phase::Finished, heard: true }, SessionAction::DeliverThenClose),
{
}

/// When the peer's stream ends or a read fails, the connection is over in
/// every state: an open connection finishes normally, one waiting for its
/// handshake fails with `MalformedHandshake`, and no later event revives it.
pub proof fn lemma_stream_end_finishes(v: SessionView, events: Seq<SessionEvent>)
    ensures
        v.phase is Open ==> session_step(v, SessionEvent::StreamEnded)
            == (SessionView { phase: Phase::Finished, ..v }, SessionAction::Finish),
        v.phase is Open ==> session_step(v, SessionEvent::ReadFailed)
            == (SessionView { phase: Phase::Finished, ..v }, SessionAction::Finish),
        v.phase is Handshake ==> session_step(v, SessionEvent::StreamEnded)
            == (SessionView { phase: Phase::Finished, ..v }, SessionAction::Fail(Error::MalformedHandshake)),
        session_step(v, SessionEvent::StreamEnded).0.phase is Finished,
        session_step(v, SessionEvent::ReadFailed).0.phase is Finished,
        session_run(session_step(v, SessionEvent::StreamEnded).0, events).phase is Finished,
        session_run(session_step(v, SessionEvent::ReadFailed).0, events).phase is Finished,
{
    lemma_finished_is_final(session_step(v, SessionEvent::StreamEnded).0, events);
    lemma_finished_is_final(session_step(v, SessionEvent::ReadFailed).0, events);
}

} // verus!
