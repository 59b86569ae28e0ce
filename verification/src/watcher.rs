use vstd::prelude::*;

use crate::socket_actor::WsMessage;

verus! {

/// A change that the clients of the watcher socket are told about.
#[derive(Clone, Debug, PartialEq, Eq)]
pub struct ChangeEvent(pub String);

/// What the watcher socket answers to a message.
#[derive(Clone, Debug, PartialEq, Eq)]
pub enum ChangesReply {
    Pong(Vec<u8>),
    Text(String),
    Binary(Vec<u8>),
    Stop,
    Nothing,
}

impl ChangeEvent {
    /// The text sent for a change.
    pub fn text(&self) -> (r: String)
        ensures
            r@ == "reload: "@ + self.0@,
    {
        let mut s = "reload: ".to_owned();
        s.append(self.0.as_str());
        s
    }
}

/// The watcher socket answers pings with pongs of the same payload, echoes
/// text and binary frames, and closes on a close frame.
pub fn changes_reply(msg: WsMessage) -> (r: ChangesReply)
    ensures
        match msg {
            WsMessage::Ping(p) => r matches ChangesReply::Pong(q) && q@ == p@,
            WsMessage::Text(t) => r matches ChangesReply::Text(s) && s@ == t@,
            WsMessage::Binary(b) => r matches ChangesReply::Binary(c) && c@ == b@,
            WsMessage::Close => r is Stop,
            WsMessage::Pong(_) => r is Nothing,
            WsMessage::Other => r is Nothing,
        },
{
    match msg {
        WsMessage::Ping(p) => ChangesReply::Pong(p),
        WsMessage::Text(t) => ChangesReply::Text(t),
        WsMessage::Binary(b) => ChangesReply::Binary(b),
        WsMessage::Close => ChangesReply::Stop,
        WsMessage::Pong(_) => ChangesReply::Nothing,
        WsMessage::Other => ChangesReply::Nothing,
    }
}

} // verus!
