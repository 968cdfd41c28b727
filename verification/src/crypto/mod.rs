//! Stream ciphers and the SHA-1 based key generator used by Warden.

pub mod sarc4;

pub use sarc4::SARC4;
pub mod sha1randx;

pub use sha1randx::Sha1Randx;
