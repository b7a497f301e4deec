//! Frames and the messages that the relay forwards.

use vstd::prelude::*;

verus! {

/// The two kinds of frame that carry application data.
#[derive(Clone, Copy, PartialEq, Eq, Debug, Structural)]
pub enum FrameKind {
    Text,
    Binary,
}

/// A message on its way through the relay.
///
/// The payload is opaque to the relay and is forwarded byte for byte; the kind
/// of the frame it arrived in is the kind of the frame it leaves in.
#[derive(PartialEq, Eq, Debug)]
pub struct Message {
    /// The session that sent the message; `None` for one that the relay itself
    /// originates.
    pub sender_id: Option<u64>,
    pub kind: FrameKind,
    pub payload: Vec<u8>,
}

/// The mathematical value of a [`Message`].
pub struct MessageView {
    pub sender_id: Option<u64>,
    pub kind: FrameKind,
    pub payload: Seq<u8>,
}

impl View for Message {
    type V = MessageView;

    open spec fn view(&self) -> MessageView {
        MessageView { sender_id: self.sender_id, kind: self.kind, payload: self.payload@ }
    }
}

impl Message {
    /// A message with the given sender, kind and payload.
    pub fn new(sender_id: Option<u64>, kind: FrameKind, payload: Vec<u8>) -> (m: Message)
        ensures
            m@ == (MessageView { sender_id, kind, payload: payload@ }),
    {
        Message { sender_id, kind, payload }
    }

    /// A copy of the message with the same sender, kind and bytes.
    pub fn duplicate(&self) -> (m: Message)
        ensures
            m@ == self@,
    {
        let payload = self.payload.clone();
        assert(payload@ =~= self.payload@);
        Message { sender_id: self.sender_id, kind: self.kind, payload }
    }
}

/// One frame as the transport hands it to a session's inbound loop.
#[derive(PartialEq, Eq, Debug)]
pub enum Frame {
    /// A text frame with its bytes.
    Text(Vec<u8>),
    /// A binary frame with its bytes.
    Binary(Vec<u8>),
    /// A keep-alive probe.
    Ping,
    /// The answer to a keep-alive probe.
    Pong,
    /// The peer asks to close the connection.
    Close,
}

} // verus!
