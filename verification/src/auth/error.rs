use vstd::prelude::*;

verus! {

/// Why authentication with the login server failed.
#[derive(Debug, Clone, Copy, PartialEq, Eq, Structural)]
pub enum AuthError {
    /// The proofs did not match.
    ProofsMismatch,
    /// The server's proof could not be verified.
    ServerVerificationFailed,
    /// The server sent invalid crypto information.
    ServerCryptoInformation,
}

/// Why a username or password was refused.
#[derive(Debug, Clone, Copy, PartialEq, Eq, Structural)]
pub enum CredentialError {
    /// The string holds this character, which is not printable ASCII.
    CharacterNotAllowed(char),
    /// The string is empty or longer than sixteen bytes.
    StringTooLong,
}

} // verus!
