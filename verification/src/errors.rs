use vstd::prelude::*;

verus! {

/// Why the gateway refused a request. Every check is terminal: the first
/// failing check aborts the whole instruction with its error, and no later
/// step is applied.
#[derive(Clone, Copy, Debug, PartialEq, Eq, Structural)]
pub enum GatewayError {
    /// The claimed authority did not sign the request.
    MissingSignature,
    /// The claimed authority is not the stored authority.
    AuthorityMismatch,
    /// The supplied address is not the canonical derived address.
    AddressMismatch,
    /// The callee program is not in the trusted registry.
    UntrustedCallee,
    /// A packed record buffer does not have the fixed layout size.
    InvalidLength,
    /// The requested amount exceeds the vault balance.
    InsufficientBalance,
    /// No bump in range yields an off-curve address for the seeds.
    DerivationExhausted,
}

} // verus!
