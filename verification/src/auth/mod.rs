//! Authentication with the login server.

pub mod error;
pub mod server;
pub mod session;

pub use error::{AuthError, CredentialError};
pub use server::{
    auth_session, check_logon_challenge, finish_logon, normalize_credentials, start_logon,
    LogonChallengeReply, LogonProof, LogonProofReply, ServerCrypto,
};
pub use session::AuthSession;
