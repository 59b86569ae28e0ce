//! The shared names of sessions, cookies and sockets.

use vstd::prelude::*;

pub use crate::clock::{CLIENT_TIMEOUT_SECS, HEARTBEAT_INTERVAL_SECS};
pub use crate::dto::{CookieStruct, SessionData, SessionID, COOKIE_NAME};
pub use crate::sockets::OpenSocketData;

verus! {

/// A socket id.
pub type SocketId = crate::ids::UniversalIdType;

} // verus!
