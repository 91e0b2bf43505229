use vstd::prelude::*;

use crate::authority;
use crate::derivation::{canonical_derivation, valid_seeds};
use crate::errors::GatewayError;
use crate::ids::{copy_bytes, AccountId, ID_LEN};
use crate::state::{u64_le_bytes, ProgramState};

verus! {

/// The namespace tag prefixed to every vault derivation: the bytes of
/// `vault`.
pub open spec fn vault_tag() -> Seq<u8> {
    seq![118u8, 97u8, 117u8, 108u8, 116u8]
}

/// The seed set a vault derives from: the namespace tag, then the owning
/// authority's identity bytes.
pub open spec fn vault_seeds(authority: Seq<u8>) -> Seq<Seq<u8>> {
    seq![vault_tag(), authority]
}

/// A vault seed set is always within the derivation limits.
pub proof fn lemma_vault_seeds_valid(authority: Seq<u8>)
    requires
        authority.len() == ID_LEN,
    ensures
        valid_seeds(vault_seeds(authority)),
{
    assert(vault_seeds(authority)[0].len() == 5);
    assert(vault_seeds(authority)[1].len() == ID_LEN);
}

/// Builds the vault seed set for an authority.
pub fn make_vault_seeds(authority: &AccountId) -> (r: Vec<Vec<u8>>)
    ensures
        r.deep_view() == vault_seeds(authority@),
{
    let mut tag: Vec<u8> = Vec::new();
    tag.push(118);
    tag.push(97);
    tag.push(117);
    tag.push(108);
    tag.push(116);
    proof {
        assert(tag@ =~= vault_tag());
    }
    let auth = copy_bytes(authority.as_bytes());
    let mut out: Vec<Vec<u8>> = Vec::new();
    out.push(tag);
    out.push(auth);
    proof {
        assert(out.deep_view()[0] =~= vault_tag());
        assert(out.deep_view()[1] =~= authority@);
        assert(out.deep_view() =~= vault_seeds(authority@));
    }
    out
}

/// The process-wide allowlist of callee programs the guard may dispatch to:
/// consulted on every request, never mutated.
#[derive(Debug)]
pub struct TrustedProgramRegistry {
    pub trusted: Vec<AccountId>,
}

impl TrustedProgramRegistry {
    /// Whether this callee identity is trusted.
    pub open spec fn spec_contains(&self, id: Seq<u8>) -> bool {
        exists|i: int| 0 <= i < self.trusted@.len() && (#[trigger] self.trusted@[i])@ == id
    }

    pub fn contains(&self, id: &AccountId) -> (r: bool)
        ensures
            r == self.spec_contains(id@),
    {
        let n = self.trusted.len();
        for i in 0..n
            invariant
                n == self.trusted@.len(),
                forall|j: int| 0 <= j < i ==> (#[trigger] self.trusted@[j])@ != id@,
        {
            if self.trusted[i].eq_id(id) {
                return true;
            }
        }
        false
    }
}

/// One transfer request: transient, constructed per call, never persisted.
#[derive(Debug)]
pub struct InvocationRequest {
    pub source_account: AccountId,
    pub destination_account: AccountId,
    pub claimed_authority: AccountId,
    pub amount: u64,
    pub callee_program_id: AccountId,
}

impl InvocationRequest {
    pub open spec fn wf(&self) -> bool {
        &&& self.source_account.wf()
        &&& self.destination_account.wf()
        &&& self.claimed_authority.wf()
        &&& self.callee_program_id.wf()
    }
}

/// The signing capability attached to one dispatch: exactly the seeds, the
/// canonical bump, the amount and the destination of this call. It is
/// constructed fresh per call and is not reusable for a different amount or
/// destination.
#[derive(Debug)]
pub struct SigningCapability {
    pub seeds: Vec<Vec<u8>>,
    pub bump: u8,
    pub amount: u64,
    pub destination: AccountId,
}

/// A fully validated transfer, ready for the external transfer primitive:
/// the trusted callee, the accounts, the amount, and the capability that
/// signs on behalf of the derived authority.
#[derive(Debug)]
pub struct GuardedDispatch {
    pub callee_program_id: AccountId,
    pub source: AccountId,
    pub destination: AccountId,
    pub authority: AccountId,
    pub amount: u64,
    pub capability: SigningCapability,
}

impl GuardedDispatch {
    pub open spec fn wf(&self) -> bool {
        &&& self.callee_program_id.wf()
        &&& self.source.wf()
        &&& self.destination.wf()
        &&& self.authority.wf()
    }
}

/// The verdict the guard owes for a request: the error of the first failing
/// check, in the fixed order — callee allowlist, canonical re-derivation of
/// the source, signer and authority, balance — or success.
pub open spec fn guard_verdict(
    request: InvocationRequest,
    registry: TrustedProgramRegistry,
    vault: ProgramState,
    is_signer: bool,
    program_id: Seq<u8>,
) -> Result<(), GatewayError> {
    if !registry.spec_contains(request.callee_program_id@) {
        Err(GatewayError::UntrustedCallee)
    } else {
        match canonical_derivation(vault_seeds(request.claimed_authority@), program_id) {
            Option::None => Err(GatewayError::DerivationExhausted),
            Option::Some(p) => if p.0 != request.source_account@ {
                Err(GatewayError::AddressMismatch)
            } else if !is_signer {
                Err(GatewayError::MissingSignature)
            } else if request.claimed_authority@ != vault.admin@ {
                Err(GatewayError::AuthorityMismatch)
            } else if request.amount > vault.vault_amount {
                Err(GatewayError::InsufficientBalance)
            } else {
                Ok(())
            },
        }
    }
}

/// Contract of the guarded transfer: every check of the verdict is applied
/// in order and the first failure aborts the whole instruction with that
/// error and no state change; on success the debit and the credit happen
/// together, and the returned dispatch carries the request's accounts and a
/// capability scoped to exactly this call's seeds, bump, amount and
/// destination.
pub fn guarded_transfer(
    request: &InvocationRequest,
    registry: &TrustedProgramRegistry,
    vault: &mut ProgramState,
    destination_balance: &mut u64,
    is_signer: bool,
    program_id: &AccountId,
) -> (r: Result<GuardedDispatch, GatewayError>)
    requires
        request.wf(),
        old(vault).wf(),
        program_id.wf(),
        *old(destination_balance) + request.amount <= u64::MAX,
    ensures
        final(vault).admin@ == old(vault).admin@,
        final(vault).wf(),
        match guard_verdict(*request, *registry, *old(vault), is_signer, program_id@) {
            Result::Err(e) => {
                &&& r == Err::<GuardedDispatch, GatewayError>(e)
                &&& *final(vault) == *old(vault)
                &&& *final(destination_balance) == *old(destination_balance)
            },
            Result::Ok(_) => r matches Ok(d) && {
                &&& final(vault).vault_amount == old(vault).vault_amount - request.amount
                &&& *final(destination_balance) == *old(destination_balance) + request.amount
                &&& d.wf()
                &&& d.callee_program_id@ == request.callee_program_id@
                &&& d.source@ == request.source_account@
                &&& d.destination@ == request.destination_account@
                &&& d.authority@ == request.source_account@
                &&& d.amount == request.amount
                &&& d.capability.seeds.deep_view() == vault_seeds(request.claimed_authority@)
                &&& Some((d.authority@, d.capability.bump)) == canonical_derivation(
                    vault_seeds(request.claimed_authority@),
                    program_id@,
                )
                &&& d.capability.amount == request.amount
                &&& d.capability.destination@ == request.destination_account@
            },
        },
{
    if !registry.contains(&request.callee_program_id) {
        return Err(GatewayError::UntrustedCallee);
    }
    let seeds = make_vault_seeds(&request.claimed_authority);
    proof {
        lemma_vault_seeds_valid(request.claimed_authority@);
    }
    let derived = match crate::derivation::derive(&seeds, program_id) {
        Ok(d) => d,
        Err(e) => {
            return Err(e);
        },
    };
    if !derived.address.eq_id(&request.source_account) {
        return Err(GatewayError::AddressMismatch);
    }
    match authority::verify(&request.claimed_authority, is_signer, &vault.admin) {
        Ok(_) => {},
        Err(e) => {
            return Err(e);
        },
    }
    if request.amount > vault.vault_amount {
        return Err(GatewayError::InsufficientBalance);
    }
    vault.vault_amount = vault.vault_amount - request.amount;
    *destination_balance = *destination_balance + request.amount;
    let capability = SigningCapability {
        seeds: derived.seeds,
        bump: derived.bump,
        amount: request.amount,
        destination: request.destination_account.dup(),
    };
    Ok(
        GuardedDispatch {
            callee_program_id: request.callee_program_id.dup(),
            source: request.source_account.dup(),
            destination: request.destination_account.dup(),
            authority: derived.address,
            amount: request.amount,
            capability,
        },
    )
}

/// Whether `spl_token::check_program_account` accepts this program identity.
/// The token instruction builder succeeds exactly for the one token program
/// id it serves.
pub uninterp spec fn spl_token_program_check(id: Seq<u8>) -> bool;

/// Relies on `spl_token::instruction::transfer`: it refuses every program id
/// but the token program's own, and on success returns an instruction whose
/// data bytes are the transfer tag `3` followed by the amount in
/// little-endian order.
#[verifier::external_body]
#[allow(deprecated)]
fn build_transfer_data(
    token_program: &AccountId,
    source: &AccountId,
    destination: &AccountId,
    authority: &AccountId,
    amount: u64,
) -> (r: Option<Vec<u8>>)
    requires
        token_program.wf(),
        source.wf(),
        destination.wf(),
        authority.wf(),
    ensures
        r is Some <==> spl_token_program_check(token_program@),
        r matches Some(d) ==> d@ == seq![3u8] + u64_le_bytes(amount),
{
    let tp = spl_token::solana_program::pubkey::Pubkey::try_from(token_program.bytes.as_slice())
        .unwrap();
    let src = spl_token::solana_program::pubkey::Pubkey::try_from(source.bytes.as_slice()).unwrap();
    let dst = spl_token::solana_program::pubkey::Pubkey::try_from(destination.bytes.as_slice())
        .unwrap();
    let auth = spl_token::solana_program::pubkey::Pubkey::try_from(authority.bytes.as_slice())
        .unwrap();
    match spl_token::instruction::transfer(&tp, &src, &dst, &auth, &[], amount) {
        Ok(ix) => Some(ix.data),
        Err(_) => None,
    }
}

/// A token transfer instruction as the external transfer primitive takes
/// it: the callee, the three accounts in their fixed order, and the raw
/// instruction data.
#[derive(Debug)]
pub struct TokenTransferInstruction {
    pub program_id: AccountId,
    pub source: AccountId,
    pub destination: AccountId,
    pub authority: AccountId,
    pub data: Vec<u8>,
}

/// Encodes a validated dispatch for the external transfer primitive. The
/// builder accepts exactly the token program's own identity; for any other
/// callee — trusted or not — it yields `None` and nothing may be dispatched.
pub fn encode_transfer_instruction(dispatch: &GuardedDispatch) -> (r: Option<
    TokenTransferInstruction,
>)
    requires
        dispatch.wf(),
    ensures
        r is Some <==> spl_token_program_check(dispatch.callee_program_id@),
        r matches Some(ix) ==> {
            &&& ix.program_id@ == dispatch.callee_program_id@
            &&& ix.source@ == dispatch.source@
            &&& ix.destination@ == dispatch.destination@
            &&& ix.authority@ == dispatch.authority@
            &&& ix.data@ == seq![3u8] + u64_le_bytes(dispatch.amount)
        },
{
    match build_transfer_data(
        &dispatch.callee_program_id,
        &dispatch.source,
        &dispatch.destination,
        &dispatch.authority,
        dispatch.amount,
    ) {
        Some(data) => Some(
            TokenTransferInstruction {
                program_id: dispatch.callee_program_id.dup(),
                source: dispatch.source.dup(),
                destination: dispatch.destination.dup(),
                authority: dispatch.authority.dup(),
                data,
            },
        ),
        None => None,
    }
}

} // verus!
