use vstd::prelude::*;

use crate::errors::GatewayError;
use crate::ids::{copy_bytes, AccountId};

verus! {

/// Most seed slices one derivation may pass to the hasher, the bump included.
pub const MAX_SEEDS: usize = 16;

/// Longest single seed the hasher accepts.
pub const MAX_SEED_LEN: usize = 32;

/// What `Pubkey::create_program_address` returns for these seeds, this bump
/// and this program namespace: `None` when the derived hash lands on the
/// curve (the candidate is reachable by normal key generation and must be
/// rejected), otherwise the derived address. The result is a function of the
/// arguments alone.
pub uninterp spec fn derived_candidate(
    seeds: Seq<Seq<u8>>,
    bump: u8,
    program_id: Seq<u8>,
) -> Option<Seq<u8>>;

/// A seed set the derivation accepts: few enough slices that the bump still
/// fits, none longer than the hasher allows.
pub open spec fn valid_seeds(seeds: Seq<Seq<u8>>) -> bool {
    &&& seeds.len() < MAX_SEEDS
    &&& forall|i: int| 0 <= i < seeds.len() ==> (#[trigger] seeds[i]).len() <= MAX_SEED_LEN
}

/// Whether this bump's candidate address passes the off-curve check.
pub open spec fn bump_off_curve(seeds: Seq<Seq<u8>>, bump: u8, program_id: Seq<u8>) -> bool {
    derived_candidate(seeds, bump, program_id) is Some
}

/// The canonical bump at or below `hi`: the first bump the descending search
/// finds whose candidate address is off-curve.
pub open spec fn canonical_bump_from(seeds: Seq<Seq<u8>>, program_id: Seq<u8>, hi: nat) -> Option<
    u8,
>
    recommends
        hi <= 255,
    decreases hi,
{
    if bump_off_curve(seeds, hi as u8, program_id) {
        Some(hi as u8)
    } else if hi == 0 {
        None
    } else {
        canonical_bump_from(seeds, program_id, (hi - 1) as nat)
    }
}

/// The canonical derivation for a seed set: the single (address, bump) pair
/// the descending bump search yields, if any bump in range is off-curve.
pub open spec fn canonical_derivation(seeds: Seq<Seq<u8>>, program_id: Seq<u8>) -> Option<
    (Seq<u8>, u8),
> {
    match canonical_bump_from(seeds, program_id, 255) {
        Some(b) => Some((derived_candidate(seeds, b, program_id).unwrap(), b)),
        None => None,
    }
}

/// Whether secure validation accepts `address` for this seed set: it must be
/// exactly the canonical derivation's address. No caller-supplied bump takes
/// part in the decision.
pub open spec fn validation_accepts(
    seeds: Seq<Seq<u8>>,
    program_id: Seq<u8>,
    address: Seq<u8>,
) -> bool {
    canonical_derivation(seeds, program_id) matches Some(p) && p.0 == address
}

/// Relies on `solana_program::pubkey::Pubkey::create_program_address`: the
/// result is the SHA-256 hash of the seeds, the bump, the program id and the
/// derivation marker, a function of the arguments alone; it is `Err` exactly
/// when that hash is a curve point, and the seed-count and seed-length
/// limits, which the caller must respect, are the only other refusals.
#[verifier::external_body]
fn create_candidate(seeds: &Vec<Vec<u8>>, bump: u8, program_id: &AccountId) -> (r: Option<
    AccountId,
>)
    requires
        valid_seeds(seeds.deep_view()),
        program_id.wf(),
    ensures
        r is Some <==> derived_candidate(seeds.deep_view(), bump, program_id@) is Some,
        r matches Some(a) ==> a.wf() && a@ == derived_candidate(
            seeds.deep_view(),
            bump,
            program_id@,
        ).unwrap(),
{
    let pid = solana_program::pubkey::Pubkey::try_from(program_id.bytes.as_slice()).unwrap();
    let mut refs: Vec<&[u8]> = seeds.iter().map(|s| s.as_slice()).collect();
    let bump_seed = [bump];
    refs.push(&bump_seed);
    match solana_program::pubkey::Pubkey::create_program_address(&refs, &pid) {
        Ok(pk) => Some(AccountId { bytes: pk.to_bytes().to_vec() }),
        Err(_) => None,
    }
}

/// A canonical derivation result: the seed set, the single bump the search
/// accepted, and the derived address.
#[derive(Debug)]
pub struct DerivedAddress {
    pub seeds: Vec<Vec<u8>>,
    pub bump: u8,
    pub address: AccountId,
}

/// Copies a seed set element by element.
pub fn clone_seeds(seeds: &Vec<Vec<u8>>) -> (r: Vec<Vec<u8>>)
    ensures
        r.deep_view() == seeds.deep_view(),
{
    let mut out: Vec<Vec<u8>> = Vec::new();
    let n = seeds.len();
    for i in 0..n
        invariant
            n == seeds@.len(),
            out@.len() == i,
            forall|j: int| 0 <= j < i ==> #[trigger] out@[j]@ == seeds@[j]@,
    {
        out.push(copy_bytes(&seeds[i]));
    }
    proof {
        assert forall|j: int| 0 <= j < out@.len() implies #[trigger] out.deep_view()[j]
            == seeds.deep_view()[j] by {
            assert(out@[j]@ == seeds@[j]@);
            assert(out.deep_view()[j] =~= out@[j]@);
            assert(seeds.deep_view()[j] =~= seeds@[j]@);
        }
        assert(out.deep_view() =~= seeds.deep_view());
    }
    out
}

/// If the descending search saw only on-curve candidates above `b` and `b`
/// itself is off-curve, the canonical bump is `b`.
proof fn lemma_canonical_bump_found(seeds: Seq<Seq<u8>>, program_id: Seq<u8>, b: u8, hi: nat)
    requires
        b <= hi <= 255,
        bump_off_curve(seeds, b, program_id),
        forall|j: u8| b < j <= hi ==> !bump_off_curve(seeds, j, program_id),
    ensures
        canonical_bump_from(seeds, program_id, hi) == Some(b),
    decreases hi,
{
    if hi == b {
    } else {
        assert(!bump_off_curve(seeds, hi as u8, program_id));
        lemma_canonical_bump_found(seeds, program_id, b, (hi - 1) as nat);
    }
}

/// If no bump at or below `hi` is off-curve, the search finds nothing.
proof fn lemma_canonical_bump_missing(seeds: Seq<Seq<u8>>, program_id: Seq<u8>, hi: nat)
    requires
        hi <= 255,
        forall|j: u8| j <= hi ==> !bump_off_curve(seeds, j, program_id),
    ensures
        canonical_bump_from(seeds, program_id, hi) is None,
    decreases hi,
{
    assert(!bump_off_curve(seeds, hi as u8, program_id));
    if hi > 0 {
        lemma_canonical_bump_missing(seeds, program_id, (hi - 1) as nat);
    }
}

/// If any bump at or below `hi` is off-curve, the search finds one.
proof fn lemma_canonical_bump_present(seeds: Seq<Seq<u8>>, program_id: Seq<u8>, b: u8, hi: nat)
    requires
        b <= hi <= 255,
        bump_off_curve(seeds, b, program_id),
    ensures
        canonical_bump_from(seeds, program_id, hi) is Some,
    decreases hi,
{
    if bump_off_curve(seeds, hi as u8, program_id) {
    } else {
        assert(b != hi);
        lemma_canonical_bump_present(seeds, program_id, b, (hi - 1) as nat);
    }
}

/// Contract of `derive`: starting at bump 255 and decrementing, accept the
/// first candidate that passes the off-curve check; with no acceptable bump
/// in range, fail with `DerivationExhausted`.
pub fn derive(seeds: &Vec<Vec<u8>>, program_id: &AccountId) -> (r: Result<
    DerivedAddress,
    GatewayError,
>)
    requires
        valid_seeds(seeds.deep_view()),
        program_id.wf(),
    ensures
        match r {
            Ok(d) => {
                &&& d.seeds.deep_view() == seeds.deep_view()
                &&& d.address.wf()
                &&& canonical_derivation(seeds.deep_view(), program_id@) == Some(
                    (d.address@, d.bump),
                )
            },
            Err(e) => {
                &&& e == GatewayError::DerivationExhausted
                &&& canonical_derivation(seeds.deep_view(), program_id@) is None
            },
        },
{
    let ghost sv = seeds.deep_view();
    let mut bump: u8 = 255;
    loop
        invariant
            valid_seeds(sv),
            sv == seeds.deep_view(),
            program_id.wf(),
            forall|j: u8| bump < j ==> !bump_off_curve(sv, j, program_id@),
        decreases bump as int,
    {
        match create_candidate(seeds, bump, program_id) {
            Some(address) => {
                proof {
                    lemma_canonical_bump_found(sv, program_id@, bump, 255);
                }
                return Ok(DerivedAddress { seeds: clone_seeds(seeds), bump, address });
            },
            None => {},
        }
        if bump == 0 {
            proof {
                lemma_canonical_bump_missing(sv, program_id@, 255);
            }
            return Err(GatewayError::DerivationExhausted);
        }
        bump = bump - 1;
    }
}

/// Contract of secure `validate`: recompute the canonical derivation and
/// compare the provided address against that single result; any bump a
/// caller might claim is ignored.
pub fn validate(provided: &AccountId, seeds: &Vec<Vec<u8>>, program_id: &AccountId) -> (r: Result<
    (),
    GatewayError,
>)
    requires
        valid_seeds(seeds.deep_view()),
        program_id.wf(),
    ensures
        r is Ok <==> validation_accepts(seeds.deep_view(), program_id@, provided@),
        canonical_derivation(seeds.deep_view(), program_id@) is None ==> r == Err::<
            (),
            GatewayError,
        >(GatewayError::DerivationExhausted),
        (canonical_derivation(seeds.deep_view(), program_id@) matches Some(p) && p.0 != provided@)
            ==> r == Err::<(), GatewayError>(GatewayError::AddressMismatch),
{
    match derive(seeds, program_id) {
        Ok(d) => {
            if d.address.eq_id(provided) {
                Ok(())
            } else {
                Err(GatewayError::AddressMismatch)
            }
        },
        Err(_) => Err(GatewayError::DerivationExhausted),
    }
}

/// Determinism of derivation: one seed set and namespace admit exactly one
/// canonical (address, bump) pair, so any two derivations that succeed on
/// identical inputs yield identical output.
pub proof fn lemma_derive_deterministic(
    seeds: Seq<Seq<u8>>,
    program_id: Seq<u8>,
    r1: (Seq<u8>, u8),
    r2: (Seq<u8>, u8),
)
    requires
        canonical_derivation(seeds, program_id) == Some(r1),
        canonical_derivation(seeds, program_id) == Some(r2),
    ensures
        r1 == r2,
{
}

/// Canonicalization: even when two distinct bumps both pass the off-curve
/// check, at most one of them is the canonical bump, and secure validation
/// accepts one single address for the seed set; every address it accepts is
/// that canonical address.
pub proof fn lemma_at_most_one_bump_validates(
    seeds: Seq<Seq<u8>>,
    program_id: Seq<u8>,
    b1: u8,
    b2: u8,
)
    requires
        b1 != b2,
        bump_off_curve(seeds, b1, program_id),
        bump_off_curve(seeds, b2, program_id),
    ensures
        canonical_derivation(seeds, program_id) is Some,
        !(canonical_derivation(seeds, program_id).unwrap().1 == b1 && canonical_derivation(
            seeds,
            program_id,
        ).unwrap().1 == b2),
        forall|a1: Seq<u8>, a2: Seq<u8>|
            validation_accepts(seeds, program_id, a1) && validation_accepts(seeds, program_id, a2)
                ==> a1 == a2,
{
    lemma_canonical_bump_present(seeds, program_id, b1, 255);
}

} // verus!
