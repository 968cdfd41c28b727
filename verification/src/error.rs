use vstd::prelude::*;

use crate::auth::AuthError;
use crate::auth::CredentialError;
use crate::warden::WardenError;

verus! {

/// What can go wrong in the networking core.
#[derive(Debug, Clone, Copy, PartialEq, Eq, Structural)]
pub enum NetError {
    /// A packet ended before all of its fields were read.
    UnexpectedEof,
    /// A username or password is not one that the login protocol accepts.
    StringError(CredentialError),
    /// Authentication with the login server failed.
    Auth(AuthError),
    /// A Warden packet could not be handled.
    Warden(WardenError),
}

} // verus!
