use vstd::prelude::*;

verus! {

/// Every way an operation of this library can fail.
#[derive(Debug, Clone, Copy, PartialEq, Eq, Structural)]
pub enum MemeError {
    /// No bump byte put the derived identifier off the curve, or the seeds
    /// were too many or too long to derive from.
    DerivationExhausted,
    /// The vanity search used its whole attempt budget without a match.
    VanitySearchExhausted,
    /// The secure random source failed.
    EntropyUnavailable,
    /// The operation needs a vault and no handshake has succeeded yet.
    VaultNotInitialized,
    /// A handshake was asked for when the session already has its vault.
    VaultAlreadyInitialized,
}

} // verus!
