use vstd::prelude::*;

use crate::auth::cookie_view;
use crate::clock::{current_time, Elapsed, Timestamp};
use crate::dto::{CookieStruct, CookieView, ResponseToClient, SessionEntry};
use crate::ids::{base64_decoding, socket_id_of, UniversalIdType};
use crate::session::SessionTable;
use crate::sockets::{
    registry_insert, registry_remove, user_names_of, OpenSocketData, SocketEntry, SocketRegistry,
};

verus! {

/// The part of a chat socket that decides: who is on it, under which
/// session, and the id it is registered under.
#[derive(Clone, Debug, PartialEq, Eq)]
pub struct WebSocketActor {
    pub signed_in_user: String,
    pub session_id: String,
    pub socket_id: UniversalIdType,
}

/// A message that arrives on a web socket.
#[derive(Clone, Debug, PartialEq, Eq)]
pub enum WsMessage {
    Text(String),
    Binary(Vec<u8>),
    Ping(Vec<u8>),
    Pong(Vec<u8>),
    Close,
    /// Continuation and no-op frames, and protocol errors.
    Other,
}

/// What a chat socket does with a message.
#[derive(Clone, Debug, PartialEq, Eq)]
pub enum SocketAction {
    /// Close the socket.
    Stop,
    /// Do nothing.
    Ignore,
    /// Record the heartbeat and send the client the full state of the chat.
    Refresh,
    /// Store this chat message and answer with the new state.
    Chat(String),
    /// Report an unexpected binary frame.
    UnexpectedBinary,
}

/// What the heartbeat timer does.
#[derive(Clone, Debug, PartialEq, Eq)]
pub enum HeartbeatAction {
    /// The client has been silent too long: close the socket.
    Stop,
    /// Ping the client.
    Ping,
}

/// The session table after a client uses session `key` at `now`: an unknown
/// session is left alone, an expired one is closed, a live one is renewed.
pub open spec fn touch_session(
    m: Map<Seq<char>, SessionEntry>,
    key: Seq<char>,
    now: Timestamp,
) -> Map<Seq<char>, SessionEntry> {
    if !m.contains_key(key) {
        m
    } else if m[key].expiry.precedes(now) {
        m.remove(key)
    } else {
        m.insert(key, SessionEntry { user_name: m[key].user_name, expiry: now.session_end() })
    }
}

/// Session `key` is open and has not expired at `now`.
pub open spec fn session_usable(m: Map<Seq<char>, SessionEntry>, key: Seq<char>, now: Timestamp) -> bool {
    m.contains_key(key) && !m[key].expiry.precedes(now)
}

/// The session table after a socket is requested with `cookie` at `now`.
pub open spec fn admit_table(
    m: Map<Seq<char>, SessionEntry>,
    now: Timestamp,
    cookie: Option<CookieView>,
) -> Map<Seq<char>, SessionEntry> {
    match cookie {
        Some(c) => touch_session(m, c.id, now),
        None => m,
    }
}

/// A socket is opened for `cookie` at `now`.
pub open spec fn admits(m: Map<Seq<char>, SessionEntry>, now: Timestamp, cookie: Option<CookieView>) -> bool {
    cookie matches Some(c) && session_usable(m, c.id, now)
}

/// The socket that a usable session opens: it belongs to the cookie's user
/// and is registered under the bytes that the session id encodes.
pub open spec fn opened_for(a: WebSocketActor, c: CookieView) -> bool {
    &&& a.session_id@ == c.id
    &&& a.signed_in_user@ == c.user_name
    &&& Some(a.socket_id@) == base64_decoding(c.id)
}

/// Decides whether a socket may open for the session cookie at `now`: it may
/// where the cookie names a session that has not expired, which is then
/// renewed; an expired session is closed.
pub fn admit_socket(table: &mut SessionTable, now: Timestamp, cookie: Option<CookieStruct>) -> (r:
    Option<WebSocketActor>)
    requires
        old(table).wf(),
        now.in_clock_range(),
    ensures
        final(table).wf(),
        final(table)@ == admit_table(old(table)@, now, cookie_view(cookie)),
        r is Some <==> admits(old(table)@, now, cookie_view(cookie)),
        r matches Some(a) ==> cookie matches Some(c) && opened_for(a, c@),
        r matches Some(a) ==> final(table)@.contains_key(a.session_id@)
            && final(table)@[a.session_id@].user_name == old(table)@[a.session_id@].user_name
            && final(table)@[a.session_id@].expiry.secs == now.secs + 300
            && final(table)@[a.session_id@].expiry.nanos == now.nanos,
        cookie matches Some(c) ==> (old(table)@.contains_key(c.id@) && old(table)@[c.id@].expiry.precedes(
            now,
        ) ==> r is None && final(table)@ == old(table)@.remove(c.id@)),
        cookie matches Some(c) ==> (!old(table)@.contains_key(c.id@) ==> r is None && final(table)@
            == old(table)@),
{
    match cookie {
        None => None,
        Some(c) => {
            let expiry = match table.get(&c.id) {
                None => {
                    return None;
                },
                Some(data) => data.expiry,
            };
            if expiry.is_before(&now) {
                let _ = table.remove(&c.id);
                return None;
            }
            proof {
                table.lemma_keys_are_session_ids();
            }
            assert(table@.contains_key(c.id@));
            let renewed = now.plus_session_lifetime();
            table.set_expiry(&c.id, renewed);
            match socket_id_of(c.id.as_str()) {
                Some(id) => Some(
                    WebSocketActor {
                        signed_in_user: c.user_name,
                        session_id: c.id,
                        socket_id: id,
                    },
                ),
                None => None,
            }
        },
    }
}

/// The web socket endpoint's decision at the current time.
pub fn ws_index(table: &mut SessionTable, cookie: Option<CookieStruct>) -> (r: Option<WebSocketActor>)
    requires
        old(table).wf(),
    ensures
        final(table).wf(),
        exists|now: Timestamp|
            now.in_clock_range() && now.nanos < 1_000_000_000 && final(table)@ == admit_table(old(table)@, now, cookie_view(cookie))
                && (r is Some <==> admits(old(table)@, now, cookie_view(cookie))),
        r matches Some(a) ==> cookie matches Some(c) && opened_for(a, c@),
{
    let now = current_time();
    let ghost c = cookie_view(cookie);
    let r = admit_socket(table, now, cookie);
    assert(final(table)@ == admit_table(old(table)@, now, c) && (r is Some <==> admits(
        old(table)@,
        now,
        c,
    )));
    r
}

/// The state of the chat for `user_name`: the stored messages and the users
/// of all open sockets.
pub fn full_update<A>(
    user_name: String,
    is_update: bool,
    all_messages: String,
    sockets: &SocketRegistry<A>,
) -> (r: ResponseToClient)
    ensures
        r.user_name@ == user_name@,
        r.all_messages@ == all_messages@,
        r.message_to_client@ == Seq::<char>::empty(),
        r.is_update == is_update,
        r.all_online_users@.map_values(|s: String| s@) == user_names_of(sockets@),
{
    ResponseToClient {
        user_name,
        all_messages,
        message_to_client: String::new(),
        is_update,
        all_online_users: sockets.user_names(),
    }
}

impl WebSocketActor {
    /// Registers this socket, reachable at `addr`, as open.
    pub fn started<A>(&self, sockets: &mut SocketRegistry<A>, addr: A)
        requires
            old(sockets).wf(),
        ensures
            final(sockets).wf(),
            final(sockets)@ == registry_insert(
                old(sockets)@,
                SocketEntry { id: self.socket_id@, addr, user_name: self.signed_in_user@ },
            ),
    {
        sockets.insert(self.socket_id, OpenSocketData { addr, user_name: self.signed_in_user.clone() });
    }

    /// Drops this socket from the open sockets.
    pub fn stopping<A>(&self, sockets: &mut SocketRegistry<A>)
        requires
            old(sockets).wf(),
        ensures
            final(sockets).wf(),
            final(sockets)@ == registry_remove(old(sockets)@, self.socket_id@),
    {
        let _ = sockets.remove(&self.socket_id);
    }

    /// The heartbeat: a client silent for longer than the client timeout is dropped.
    pub fn hb(&self, since_last_pong: Elapsed) -> (r: HeartbeatAction)
        ensures
            r is Stop <==> since_last_pong.exceeds(Elapsed::client_timeout()),
            r is Ping <==> !since_last_pong.exceeds(Elapsed::client_timeout()),
            since_last_pong.nanos < 1_000_000_000 ==> (r is Stop <==> since_last_pong.secs * 1_000_000_000
                + since_last_pong.nanos > 10 * 1_000_000_000),
    {
        if since_last_pong.exceeds_client_timeout() {
            HeartbeatAction::Stop
        } else {
            HeartbeatAction::Ping
        }
    }

    /// What a message on a socket whose session is live does.
    pub open spec fn live_action(msg: WsMessage, action: SocketAction) -> bool {
        match msg {
            WsMessage::Ping(_) => action is Ignore,
            WsMessage::Close => action is Stop,
            WsMessage::Pong(_) => action is Refresh,
            WsMessage::Text(t) => action matches SocketAction::Chat(s) && s@ == t@,
            WsMessage::Binary(_) => action is UnexpectedBinary,
            WsMessage::Other => action is Ignore,
        }
    }

    /// Handles a message at `now`: each message first checks the session;
    /// a missing or expired session closes the socket (an expired one is also
    /// removed), a live one is renewed and the message is dispatched.
    pub fn handle_at(&self, table: &mut SessionTable, now: Timestamp, msg: WsMessage) -> (r: SocketAction)
        requires
            old(table).wf(),
            now.in_clock_range(),
        ensures
            final(table).wf(),
            final(table)@ == touch_session(old(table)@, self.session_id@, now),
            !session_usable(old(table)@, self.session_id@, now) ==> r is Stop,
            session_usable(old(table)@, self.session_id@, now) ==> Self::live_action(msg, r),
            !old(table)@.contains_key(self.session_id@) ==> r is Stop && final(table)@ == old(table)@,
            old(table)@.contains_key(self.session_id@) && old(table)@[self.session_id@].expiry.precedes(now)
                ==> r is Stop && final(table)@ == old(table)@.remove(self.session_id@),
            old(table)@.contains_key(self.session_id@) && !old(table)@[self.session_id@].expiry.precedes(now)
                ==> final(table)@.contains_key(self.session_id@)
                && final(table)@[self.session_id@].user_name == old(table)@[self.session_id@].user_name
                && final(table)@[self.session_id@].expiry.secs == now.secs + 300
                && final(table)@[self.session_id@].expiry.nanos == now.nanos,
    {
        let expiry = match table.get(&self.session_id) {
            None => {
                return SocketAction::Stop;
            },
            Some(data) => data.expiry,
        };
        if expiry.is_before(&now) {
            let _ = table.remove(&self.session_id);
            return SocketAction::Stop;
        }
        let renewed = now.plus_session_lifetime();
        table.set_expiry(&self.session_id, renewed);
        match msg {
            WsMessage::Ping(_) => SocketAction::Ignore,
            WsMessage::Close => SocketAction::Stop,
            WsMessage::Pong(_) => SocketAction::Refresh,
            WsMessage::Text(t) => SocketAction::Chat(t),
            WsMessage::Binary(_) => SocketAction::UnexpectedBinary,
            WsMessage::Other => SocketAction::Ignore,
        }
    }

    /// Handles a message at the current time.
    pub fn handle(&self, table: &mut SessionTable, msg: WsMessage) -> (r: SocketAction)
        requires
            old(table).wf(),
        ensures
            final(table).wf(),
            exists|now: Timestamp|
                now.in_clock_range() && now.nanos < 1_000_000_000 && final(table)@ == touch_session(old(table)@, self.session_id@, now)
                    && (!session_usable(old(table)@, self.session_id@, now) ==> r is Stop)
                    && (session_usable(old(table)@, self.session_id@, now) ==> Self::live_action(msg, r)),
    {
        let now = current_time();
        let ghost m = msg;
        let r = self.handle_at(table, now, msg);
        assert(final(table)@ == touch_session(old(table)@, self.session_id@, now)
            && (!session_usable(old(table)@, self.session_id@, now) ==> r is Stop)
            && (session_usable(old(table)@, self.session_id@, now) ==> Self::live_action(m, r)));
        r
    }
}

} // verus!
