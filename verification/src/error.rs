//! Errors surfaced by caller initialization.

use vstd::prelude::*;

verus! {

/// One initialization either succeeds whole or aborts with exactly one of
/// these; nothing is partially applied.
#[derive(Clone, Copy, Debug, PartialEq, Eq, Structural)]
pub enum ErrorCode {
    /// The payer cannot fund a new account at the persistence threshold it
    /// needs to remain valid.
    CallerRent,
    /// A target address already holds a payload (or two targets collide), so
    /// allocation refuses to overwrite. A repeated initialization for the same
    /// owner surfaces this way.
    AllocationFailed,
    /// The bounded bump search found no valid derived address for some seed
    /// tuple; a configuration error, not an expected runtime condition.
    DerivationFailed,
    /// The metadata registrar rejected its input.
    RegistrarRejected,
    /// The asset minter rejected its input.
    MinterRejected,
}

} // verus!
