use vstd::prelude::*;

use crate::clock::Timestamp;
pub use crate::ids::UniversalIdType;

verus! {

/// Name of the cookie that carries a client's session.
pub const COOKIE_NAME: &'static str = "rusty_cookie";

/// The one chat room that messages go to.
pub const DEFAULT_ROOM: &'static str = "lobby";

/// A session id: the base64 text of a socket id.
pub type SessionID = String;

/// What the session cookie holds.
#[derive(Clone, Debug, PartialEq, Eq)]
pub struct CookieStruct {
    pub id: String,
    pub user_name: String,
}

impl View for CookieStruct {
    type V = CookieView;

    open spec fn view(&self) -> CookieView {
        CookieView { id: self.id@, user_name: self.user_name@ }
    }
}

/// The contents of a session cookie, as text.
pub struct CookieView {
    pub id: Seq<char>,
    pub user_name: Seq<char>,
}

/// One session: who is signed in, and until when.
#[derive(Clone, Debug, PartialEq, Eq)]
pub struct SessionData {
    pub user_name: String,
    pub expiry: Timestamp,
}

impl View for SessionData {
    type V = SessionEntry;

    open spec fn view(&self) -> SessionEntry {
        SessionEntry { user_name: self.user_name@, expiry: self.expiry }
    }
}

/// A session as the contracts speak of it.
pub struct SessionEntry {
    pub user_name: Seq<char>,
    pub expiry: Timestamp,
}

/// The name and password that a client signs up or logs in with.
#[derive(Clone, Debug, PartialEq, Eq)]
pub struct SignInSignUp {
    pub user_name: String,
    pub password: String,
}

/// The state of the chat that a client is sent.
#[derive(Clone, Debug, PartialEq, Eq)]
pub struct ResponseToClient {
    pub user_name: String,
    pub all_messages: String,
    pub message_to_client: String,
    pub is_update: bool,
    pub all_online_users: Vec<String>,
}

} // verus!
