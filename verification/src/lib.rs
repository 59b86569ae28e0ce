//! Session, socket and authentication logic of a live chat server,
//! with its contracts proved by Verus.

pub mod clock;
pub mod ids;
pub mod dto;
pub mod session;
pub mod sockets;
pub mod password;
pub mod auth;
pub mod socket_actor;
pub mod watcher;
pub mod laws;
pub mod common;
pub mod socket_actor_structs;
