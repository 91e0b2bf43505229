use vstd::prelude::*;

use crate::errors::GatewayError;
use crate::ids::AccountId;

verus! {

/// Contract of authority verification, with its rules checked in order and
/// short-circuiting on the first failure: the claimed authority must have
/// signed, and must equal the stored authority byte for byte. Verification
/// is all-or-nothing and has no side effects on failure.
pub fn verify(claimed: &AccountId, is_signer: bool, stored: &AccountId) -> (r: Result<
    (),
    GatewayError,
>)
    ensures
        r is Ok <==> (is_signer && claimed@ == stored@),
        !is_signer ==> r == Err::<(), GatewayError>(GatewayError::MissingSignature),
        (is_signer && claimed@ != stored@) ==> r == Err::<(), GatewayError>(
            GatewayError::AuthorityMismatch,
        ),
{
    if !is_signer {
        return Err(GatewayError::MissingSignature);
    }
    if !claimed.eq_id(stored) {
        return Err(GatewayError::AuthorityMismatch);
    }
    Ok(())
}

} // verus!
