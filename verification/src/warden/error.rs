use vstd::prelude::*;

verus! {

/// Why a Warden packet could not be handled.
#[derive(Debug, Clone, Copy, PartialEq, Eq, Structural)]
pub enum WardenError {
    /// The packet starts with an opcode that Warden does not know.
    InvalidWardenOpcode(u8),
}

} // verus!
