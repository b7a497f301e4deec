//! The client's side of a connection to the relay.
//!
//! A client connects, and connects again whenever that fails or the
//! connection drops: it waits a fixed interval and retries, for ever. To its
//! own consumers it presents two lifecycle signals and the text messages that
//! arrive. As with the relay, the decisions are here and the caller does the
//! input and output.

use vstd::prelude::*;
use crate::endpoint::{Endpoint, EndpointView};
use crate::message::Frame;

verus! {

/// The interval between two attempts to connect, in seconds, where nothing
/// else is asked for.
pub const DEFAULT_RETRY_SECS: u64 = 5;

/// A lifecycle signal that a client shows to its consumers.
#[derive(Clone, Copy, PartialEq, Eq, Debug, Structural)]
pub enum Signal {
    Connected,
    Disconnected,
}

/// Where a client stands.
#[derive(Clone, Copy, PartialEq, Eq, Debug, Structural)]
pub enum Phase {
    /// An attempt to connect is under way.
    Connecting,
    /// The connection stands.
    Connected,
    /// The last attempt failed or the connection dropped; the client waits
    /// before it tries again.
    Waiting,
}

/// What happened to a client.
#[derive(PartialEq, Eq, Debug)]
pub enum ClientEvent {
    /// The attempt to connect succeeded.
    ConnectSucceeded,
    /// The attempt to connect failed.
    ConnectFailed,
    /// A frame arrived from the relay.
    FrameReceived(Frame),
    /// Reading from the relay failed, or the stream ended.
    ReceiveFailed,
    /// A consumer asks to send this text.
    SendRequested(String),
    /// Writing to the relay failed.
    SendFailed,
    /// The wait before the next attempt is over.
    RetryDue,
}

/// What a client does next.
#[derive(PartialEq, Eq, Debug)]
pub enum ClientAction {
    /// Try to connect to the endpoint.
    Connect,
    /// Show this signal to the consumers.
    Announce(Signal),
    /// Show this signal to the consumers, then wait this many seconds.
    AnnounceAndWait(Signal, u64),
    /// Wait this many seconds.
    Wait(u64),
    /// Show this text message from the relay to the consumers.
    Surface(Vec<u8>),
    /// Send this text to the relay as a text frame.
    Transmit(String),
    /// There is no connection to send this text on; keep it for later.
    Defer(String),
    /// Nothing to do.
    Nothing,
}

/// The phase of a client after `event`.
///
/// A successful attempt leads to `Connected`. A failed attempt, a failed read
/// and a failed write all lead to `Waiting`, and the end of the wait leads
/// back to `Connecting`. An event that does not belong to the phase the client
/// is in changes nothing.
pub open spec fn next_phase(phase: Phase, event: ClientEvent) -> Phase {
    match (phase, event) {
        (Phase::Connecting, ClientEvent::ConnectSucceeded) => Phase::Connected,
        (Phase::Connecting, ClientEvent::ConnectFailed) => Phase::Waiting,
        (Phase::Connected, ClientEvent::ReceiveFailed) => Phase::Waiting,
        (Phase::Connected, ClientEvent::SendFailed) => Phase::Waiting,
        (Phase::Waiting, ClientEvent::RetryDue) => Phase::Connecting,
        _ => phase,
    }
}

/// What a client in `phase` does on `event`, where it waits `retry_secs`
/// seconds between attempts.
///
/// The client announces `Connected` when an attempt succeeds and
/// `Disconnected` when one fails. While connected it shows the text frames
/// that arrive, passes over all other frames, and sends what its consumers
/// ask it to send. A text that it is asked to send while there is no
/// connection is handed back.
pub open spec fn action_for(phase: Phase, retry_secs: u64, event: ClientEvent) -> ClientAction {
    match (phase, event) {
        (Phase::Connecting, ClientEvent::ConnectSucceeded) => ClientAction::Announce(
            Signal::Connected,
        ),
        (Phase::Connecting, ClientEvent::ConnectFailed) => ClientAction::AnnounceAndWait(
            Signal::Disconnected,
            retry_secs,
        ),
        (Phase::Connected, ClientEvent::FrameReceived(Frame::Text(text))) => ClientAction::Surface(
            text,
        ),
        (Phase::Connected, ClientEvent::ReceiveFailed) => ClientAction::Wait(retry_secs),
        (Phase::Connected, ClientEvent::SendRequested(text)) => ClientAction::Transmit(text),
        (Phase::Connected, ClientEvent::SendFailed) => ClientAction::Wait(retry_secs),
        (Phase::Waiting, ClientEvent::RetryDue) => ClientAction::Connect,
        (_, ClientEvent::SendRequested(text)) => ClientAction::Defer(text),
        _ => ClientAction::Nothing,
    }
}

/// The mathematical value of a [`Client`].
pub struct ClientView {
    pub endpoint: EndpointView,
    pub phase: Phase,
    pub retry_secs: u64,
}

/// A client of the relay that reconnects with a fixed back-off.
#[derive(PartialEq, Eq, Debug)]
pub struct Client {
    endpoint: Endpoint,
    phase: Phase,
    retry_secs: u64,
}

impl View for Client {
    type V = ClientView;

    closed spec fn view(&self) -> ClientView {
        ClientView { endpoint: self.endpoint@, phase: self.phase, retry_secs: self.retry_secs }
    }
}

impl Client {
    /// A client for the relay at `endpoint` that waits `retry_secs` seconds
    /// between two attempts. It starts out with its first attempt to connect.
    pub fn new(endpoint: Endpoint, retry_secs: u64) -> (client: Client)
        ensures
            client@ == (ClientView { endpoint: endpoint@, phase: Phase::Connecting, retry_secs }),
    {
        Client { endpoint, phase: Phase::Connecting, retry_secs }
    }

    /// The relay that this client connects to.
    pub fn endpoint(&self) -> (endpoint: &Endpoint)
        ensures
            endpoint@ == self@.endpoint,
    {
        &self.endpoint
    }

    pub fn phase(&self) -> (phase: Phase)
        ensures
            phase == self@.phase,
    {
        self.phase
    }

    /// The interval between two attempts to connect, in seconds.
    pub fn retry_secs(&self) -> (secs: u64)
        ensures
            secs == self@.retry_secs,
    {
        self.retry_secs
    }

    /// Takes note of `event` and says what to do next.
    pub fn on_event(&mut self, event: ClientEvent) -> (action: ClientAction)
        ensures
            final(self)@.endpoint == old(self)@.endpoint,
            final(self)@.retry_secs == old(self)@.retry_secs,
            final(self)@.phase == next_phase(old(self)@.phase, event),
            action == action_for(old(self)@.phase, old(self)@.retry_secs, event),
    {
        match self.phase {
            Phase::Connecting => match event {
                ClientEvent::ConnectSucceeded => {
                    self.phase = Phase::Connected;
                    ClientAction::Announce(Signal::Connected)
                },
                ClientEvent::ConnectFailed => {
                    self.phase = Phase::Waiting;
                    ClientAction::AnnounceAndWait(Signal::Disconnected, self.retry_secs)
                },
                ClientEvent::SendRequested(text) => ClientAction::Defer(text),
                _ => ClientAction::Nothing,
            },
            Phase::Connected => match event {
                ClientEvent::FrameReceived(Frame::Text(text)) => ClientAction::Surface(text),
                ClientEvent::SendRequested(text) => ClientAction::Transmit(text),
                ClientEvent::ReceiveFailed | ClientEvent::SendFailed => {
                    self.phase = Phase::Waiting;
                    ClientAction::Wait(self.retry_secs)
                },
                _ => ClientAction::Nothing,
            },
            Phase::Waiting => match event {
                ClientEvent::RetryDue => {
                    self.phase = Phase::Connecting;
                    ClientAction::Connect
                },
                ClientEvent::SendRequested(text) => ClientAction::Defer(text),
                _ => ClientAction::Nothing,
            },
        }
    }
}

/// The client retries for ever: whatever phase it is in, a failure leaves it
/// waiting or leaves it as it was, and a client that waits goes back to
/// connecting when the wait is over, with the order to connect. No event ends
/// the cycle.
pub proof fn lemma_client_always_retries(phase: Phase, retry_secs: u64, event: ClientEvent)
    ensures
        event is ConnectFailed || event is ReceiveFailed || event is SendFailed ==> next_phase(
            phase,
            event,
        ) == Phase::Waiting || next_phase(phase, event) == phase,
        next_phase(Phase::Waiting, ClientEvent::RetryDue) == Phase::Connecting,
        action_for(Phase::Waiting, retry_secs, ClientEvent::RetryDue) == ClientAction::Connect,
        next_phase(phase, event) == Phase::Waiting && phase != Phase::Waiting ==> action_for(
            phase,
            retry_secs,
            event,
        ) == ClientAction::Wait(retry_secs) || action_for(phase, retry_secs, event)
            == ClientAction::AnnounceAndWait(Signal::Disconnected, retry_secs),
{
}

/// The client speaks to the relay only while connected, and loses no text
/// that it is asked to send: the text is transmitted if the connection stands
/// and handed back if not.
pub proof fn lemma_client_sends_only_when_connected(phase: Phase, retry_secs: u64, event: ClientEvent)
    ensures
        action_for(phase, retry_secs, event) is Transmit ==> phase == Phase::Connected,
        action_for(phase, retry_secs, event) is Surface ==> phase == Phase::Connected,
        event matches ClientEvent::SendRequested(text) ==> action_for(phase, retry_secs, event) == (
        if phase == Phase::Connected {
            ClientAction::Transmit(text)
        } else {
            ClientAction::Defer(text)
        }),
{
}

} // verus!
