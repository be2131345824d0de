use vstd::prelude::*;
use workflow_core::channel::Receiver as AckReceiver;
use super::error::Error;
use super::message::{ack_channel_pair, Ack, DispatchMessage, Message};

verus! {

/// Milliseconds the connection task waits after a failed attempt to connect
/// before it decides whether to try again.
pub const RECONNECT_DELAY_MS: u64 = 1000;

/// The model of a client connection.
pub struct ConnectionView {
    /// The URL the connection task connects to.
    pub url: Seq<char>,
    /// Whether the connection task keeps reconnecting after the connection
    /// ends.
    pub reconnect: bool,
    /// Whether a socket is connected and its dispatcher runs.
    pub open: bool,
    /// Whether the connection holds a socket (from a successful connect
    /// until its dispatcher exits normally or the connection is closed).
    pub active: bool,
}

/// What happened to a connection task.
pub enum LinkEvent {
    /// An attempt to connect succeeded.
    Connected,
    /// An attempt to connect failed.
    ConnectFailed,
    /// The dispatcher of the connected socket returned normally.
    DispatcherExited,
    /// The dispatcher of the connected socket returned with an error; the
    /// connection still counts as holding its socket until the next
    /// successful connect or a close.
    DispatcherFailed,
    /// The delay that followed a failed attempt has passed.
    DelayElapsed,
}

/// What the connection task does next.
pub enum LinkAction {
    /// Run the dispatcher on the new socket; first wake the caller of the
    /// `connect` call behind the connection task when `signal_connected`
    /// holds.
    StartDispatcher { signal_connected: bool },
    /// Wait this many milliseconds, then report `DelayElapsed`.
    Sleep(u64),
    /// Attempt to connect again.
    Reconnect,
    /// End the connection task.
    Stop,
}

/// What closing the connection asks of the runtime.
pub enum CloseAction {
    /// Ask the dispatcher to close the socket and stop.
    ShutdownDispatcher,
    /// There was no socket to close; the runtime reports this.
    NotInitialized,
}

/// A connection task, begun by one call of `connect`: it remembers whether
/// the caller of that call still waits for the task's first successful
/// connection.
pub struct ConnectTask {
    waiting: bool,
}

impl ConnectTask {
    /// Whether the caller of the `connect` call behind the connection task
    /// still waits to be woken.
    pub closed spec fn is_waiting(self) -> bool {
        self.waiting
    }
}

/// The model of `Connection::on_event`: the next model of the connection,
/// whether the task's caller still waits, and the action.
pub open spec fn link_step(v: ConnectionView, waiting: bool, event: LinkEvent) -> (ConnectionView, bool, LinkAction) {
    match event {
        LinkEvent::Connected => (
            ConnectionView { open: true, active: true, ..v },
            false,
            LinkAction::StartDispatcher { signal_connected: waiting },
        ),
        LinkEvent::ConnectFailed => (v, waiting, LinkAction::Sleep(RECONNECT_DELAY_MS)),
        LinkEvent::DispatcherExited => (
            ConnectionView { open: false, active: false, ..v },
            waiting,
            if v.reconnect { LinkAction::Reconnect } else { LinkAction::Stop },
        ),
        LinkEvent::DispatcherFailed => (
            ConnectionView { open: false, ..v },
            waiting,
            if v.reconnect { LinkAction::Reconnect } else { LinkAction::Stop },
        ),
        LinkEvent::DelayElapsed => (
            v,
            waiting,
            if v.reconnect { LinkAction::Reconnect } else { LinkAction::Stop },
        ),
    }
}

/// The model of `Connection::close`.
pub open spec fn close_step(v: ConnectionView) -> (ConnectionView, CloseAction) {
    if v.active {
        (ConnectionView { active: false, ..v }, CloseAction::ShutdownDispatcher)
    } else {
        (v, CloseAction::NotInitialized)
    }
}

/// The model of the connection after a sequence of events of one task.
pub open spec fn link_run(v: ConnectionView, waiting: bool, events: Seq<LinkEvent>) -> ConnectionView
    decreases events.len(),
{
    if events.len() == 0 {
        v
    } else {
        let (w, still_waiting, _) = link_step(v, waiting, events[0]);
        link_run(w, still_waiting, events.drop_first())
    }
}

/// The actions one connection task takes over a sequence of events.
pub open spec fn link_actions(v: ConnectionView, waiting: bool, events: Seq<LinkEvent>) -> Seq<LinkAction>
    decreases events.len(),
{
    if events.len() == 0 {
        Seq::empty()
    } else {
        let (w, still_waiting, a) = link_step(v, waiting, events[0]);
        seq![a] + link_actions(w, still_waiting, events.drop_first())
    }
}

/// How many times the caller of `connect` is woken over a sequence of
/// actions.
pub open spec fn signal_count(actions: Seq<LinkAction>) -> nat
    decreases actions.len(),
{
    if actions.len() == 0 {
        0
    } else {
        let here: nat = if actions[0] matches LinkAction::StartDispatcher { signal_connected: true } {
            1
        } else {
            0
        };
        here + signal_count(actions.drop_first())
    }
}

/// A connection task takes one action per event.
pub proof fn lemma_link_actions_len(v: ConnectionView, waiting: bool, events: Seq<LinkEvent>)
    ensures
        link_actions(v, waiting, events).len() == events.len(),
    decreases events.len(),
{
    if events.len() > 0 {
        let (w, still_waiting, _) = link_step(v, waiting, events[0]);
        lemma_link_actions_len(w, still_waiting, events.drop_first());
    }
}

/// A connection task wakes the caller of the `connect` that started it at
/// most once, however often it reconnects; a task whose caller has been
/// woken (or never waited) wakes nobody.
pub proof fn lemma_connect_wakes_caller_at_most_once(v: ConnectionView, waiting: bool, events: Seq<LinkEvent>)
    ensures
        signal_count(link_actions(v, waiting, events)) <= 1,
        !waiting ==> signal_count(link_actions(v, waiting, events)) == 0,
    decreases events.len(),
{
    if events.len() > 0 {
        let (w, still_waiting, a) = link_step(v, waiting, events[0]);
        lemma_connect_wakes_caller_at_most_once(w, still_waiting, events.drop_first());
        let acts = link_actions(v, waiting, events);
        assert(acts.drop_first() =~= link_actions(w, still_waiting, events.drop_first()));
        assert(acts[0] == a);
    }
}

/// Once reconnection is off (as `disconnect` leaves it), no sequence of
/// events of a connection task leads to another attempt to connect, and
/// reconnection stays off.
pub proof fn lemma_no_reconnect_once_disabled(v: ConnectionView, waiting: bool, events: Seq<LinkEvent>)
    requires
        !v.reconnect,
    ensures
        forall|i: int| 0 <= i < events.len() ==> !(#[trigger] link_actions(v, waiting, events)[i] is Reconnect),
        !link_run(v, waiting, events).reconnect,
    decreases events.len(),
{
    if events.len() > 0 {
        let (w, still_waiting, a) = link_step(v, waiting, events[0]);
        lemma_no_reconnect_once_disabled(w, still_waiting, events.drop_first());
        lemma_link_actions_len(v, waiting, events);
        let acts = link_actions(v, waiting, events);
        assert(acts.drop_first() =~= link_actions(w, still_waiting, events.drop_first()));
        assert forall|i: int| 0 <= i < events.len() implies !(#[trigger] acts[i] is Reconnect) by {
            if i > 0 {
                assert(acts[i] == acts.drop_first()[i - 1]);
            }
        }
    }
}

/// While reconnection is on, the connection task tries again after every
/// end of a connection and after every failed attempt (once the delay has
/// passed).
pub proof fn lemma_reconnects_until_disconnected(v: ConnectionView, waiting: bool)
    requires
        v.reconnect,
    ensures
        link_step(v, waiting, LinkEvent::DispatcherExited).2 is Reconnect,
        link_step(v, waiting, LinkEvent::DispatcherFailed).2 is Reconnect,
        link_step(v, waiting, LinkEvent::ConnectFailed).2 == LinkAction::Sleep(RECONNECT_DELAY_MS),
        link_step(link_step(v, waiting, LinkEvent::ConnectFailed).0, waiting, LinkEvent::DelayElapsed).2 is Reconnect,
{
}

/// Closing a connection (what `reconnect` does) keeps reconnection on: the
/// dispatcher's exit that follows leads to a new attempt.
pub proof fn lemma_close_leads_to_reconnect(v: ConnectionView, waiting: bool)
    requires
        v.reconnect,
    ensures
        close_step(v).0.reconnect,
        link_step(close_step(v).0, waiting, LinkEvent::DispatcherExited).2 is Reconnect,
{
}

/// The outcome of `send` from what the acknowledgement channel gave: the
/// dispatcher's acknowledgement, or `DispatchChannelAck` when the channel
/// closed without one (the request was dropped).
pub open spec fn send_outcome_spec(received: Option<Ack>) -> Ack {
    match received {
        Some(ack) => ack,
        None => Err(Error::DispatchChannelAck),
    }
}

/// The outcome of `send` from what the acknowledgement channel gave.
pub fn send_outcome(received: Option<Ack>) -> (r: Ack)
    ensures
        r == send_outcome_spec(received),
{
    match received {
        Some(ack) => ack,
        None => Err(Error::DispatchChannelAck),
    }
}

/// The state of a client connection that the connection tasks, the
/// dispatcher and the user's calls share.
pub struct Connection {
    url: String,
    reconnect: bool,
    open: bool,
    active: bool,
}

impl View for Connection {
    type V = ConnectionView;

    closed spec fn view(&self) -> ConnectionView {
        ConnectionView {
            url: self.url@,
            reconnect: self.reconnect,
            open: self.open,
            active: self.active,
        }
    }
}

impl Connection {
    /// A connection to `url` that has not connected yet and reconnects by
    /// default.
    pub fn new(url: &str) -> (r: Self)
        ensures
            r@ == (ConnectionView { url: url@, reconnect: true, open: false, active: false }),
    {
        Connection { url: url.to_owned(), reconnect: true, open: false, active: false }
    }

    /// The URL the connection connects to.
    pub fn url(&self) -> (r: String)
        ensures
            r@ == self@.url,
    {
        self.url.clone()
    }

    /// Changes the URL; the next attempt to connect uses it.
    pub fn set_url(&mut self, url: &str)
        ensures
            final(self)@ == (ConnectionView { url: url@, ..old(self)@ }),
    {
        self.url = url.to_owned();
    }

    /// Whether a socket is connected.
    pub fn is_open(&self) -> (r: bool)
        ensures
            r == self@.open,
    {
        self.open
    }

    /// Whether a connection task goes on after the connection ends.
    pub fn keeps_reconnecting(&self) -> (r: bool)
        ensures
            r == self@.reconnect,
    {
        self.reconnect
    }

    /// Starts connecting: refused with `AlreadyConnected` while a socket is
    /// held, in which case nothing changes; otherwise reconnection is turned
    /// on and a new connection task starts whose caller waits for its first
    /// successful connection.
    pub fn connect(&mut self) -> (r: Result<ConnectTask, Error>)
        ensures
            old(self)@.active ==> (r matches Err(Error::AlreadyConnected) && final(self)@ == old(self)@),
            !old(self)@.active ==> (r matches Ok(task) && task.is_waiting()
                && final(self)@ == (ConnectionView { reconnect: true, ..old(self)@ })),
    {
        if self.active {
            return Err(Error::AlreadyConnected);
        }
        self.reconnect = true;
        Ok(ConnectTask { waiting: true })
    }

    /// Takes in what happened to a connection task and says what it does
    /// next.
    pub fn on_event(&mut self, task: &mut ConnectTask, event: LinkEvent) -> (r: LinkAction)
        ensures
            (final(self)@, final(task).is_waiting(), r) == link_step(old(self)@, old(task).is_waiting(), event),
    {
        match event {
            LinkEvent::Connected => {
                let signal_connected = task.waiting;
                self.open = true;
                self.active = true;
                task.waiting = false;
                LinkAction::StartDispatcher { signal_connected }
            },
            LinkEvent::ConnectFailed => LinkAction::Sleep(RECONNECT_DELAY_MS),
            LinkEvent::DispatcherExited => {
                self.open = false;
                self.active = false;
                if self.reconnect {
                    LinkAction::Reconnect
                } else {
                    LinkAction::Stop
                }
            },
            LinkEvent::DispatcherFailed => {
                self.open = false;
                if self.reconnect {
                    LinkAction::Reconnect
                } else {
                    LinkAction::Stop
                }
            },
            LinkEvent::DelayElapsed => {
                if self.reconnect {
                    LinkAction::Reconnect
                } else {
                    LinkAction::Stop
                }
            },
        }
    }

    /// Closes the socket if one is held; the connection task then reconnects
    /// unless reconnection is off.
    pub fn close(&mut self) -> (r: CloseAction)
        ensures
            (final(self)@, r) == close_step(old(self)@),
    {
        if self.active {
            self.active = false;
            CloseAction::ShutdownDispatcher
        } else {
            CloseAction::NotInitialized
        }
    }

    /// Turns reconnection off, then closes the socket if one is held.
    pub fn disconnect(&mut self) -> (r: CloseAction)
        ensures
            (final(self)@, r) == close_step(ConnectionView { reconnect: false, ..old(self)@ }),
    {
        self.reconnect = false;
        self.close()
    }

    /// The request that queues `message` for sending: refused with
    /// `NotConnected` unless a socket is connected.
    pub fn post(&self, message: Message) -> (r: Result<DispatchMessage, Error>)
        ensures
            self@.open ==> r == Ok::<DispatchMessage, Error>(DispatchMessage::Post(message)),
            !self@.open ==> r matches Err(Error::NotConnected),
    {
        if !self.open {
            return Err(Error::NotConnected);
        }
        Ok(DispatchMessage::new(message))
    }

    /// The request that sends `message` with acknowledgement, and the
    /// receiver of that acknowledgement: refused with `NotConnected` unless a
    /// socket is connected.
    pub fn send(&self, message: Message) -> (r: Result<(DispatchMessage, AckReceiver<Ack>), Error>)
        ensures
            self@.open ==> (r matches Ok((d, receiver)) && d matches DispatchMessage::WithAck(m, s) && m == message
                && ack_channel_pair(s, receiver)),
            !self@.open ==> r matches Err(Error::NotConnected),
    {
        if !self.open {
            return Err(Error::NotConnected);
        }
        Ok(DispatchMessage::new_with_ack(message))
    }
}

/// Whenever the dispatcher returns, the connection is no longer open,
/// whatever the reconnect flag and the waiting caller; after a normal exit it
/// holds no socket either. The rest of the model is kept.
pub proof fn lemma_dispatcher_end_closes(v: ConnectionView, waiting: bool)
    ensures
        !link_step(v, waiting, LinkEvent::DispatcherExited).0.open,
        !link_step(v, waiting, LinkEvent::DispatcherExited).0.active,
        !link_step(v, waiting, LinkEvent::DispatcherFailed).0.open,
        link_step(v, waiting, LinkEvent::DispatcherExited).0.url == v.url,
        link_step(v, waiting, LinkEvent::DispatcherExited).0.reconnect == v.reconnect,
        link_step(v, waiting, LinkEvent::DispatcherFailed).0.reconnect == v.reconnect,
        link_step(v, waiting, LinkEvent::DispatcherFailed).0.active == v.active,
{
}

/// `send` passes the dispatcher's acknowledgement through unchanged, a
/// failed hand-off included, and fails with `DispatchChannelAck` exactly
/// when no acknowledgement came.
pub proof fn lemma_send_outcome_is_acknowledgement(ack: Ack)
    ensures
        send_outcome_spec(Some(ack)) == ack,
        send_outcome_spec(None) matches Err(Error::DispatchChannelAck),
{
}

} // verus!
