//! The world server connection: the handshake that follows the auth session and the
//! decisions of the network loop.

pub mod auth;
pub mod network;
pub mod session;

pub use session::{decode_server_header, ServerHeaderInfo, WorldSession};
