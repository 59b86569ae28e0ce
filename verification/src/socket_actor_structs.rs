//! The messages that a chat socket sends.

pub use crate::dto::ResponseToClient;
