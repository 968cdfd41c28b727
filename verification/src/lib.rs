//! Client-side networking core for a vanilla World of Warcraft client:
//! the Warden stream ciphers, the Warden packet format and the decisions
//! taken while authenticating against the login and world servers.

pub mod auth;
pub mod crypto;
pub mod error;
pub mod warden;
pub mod world;

pub use error::NetError;
