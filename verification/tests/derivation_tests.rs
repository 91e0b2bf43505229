use authority_gateway::derivation::validate;
use authority_gateway::errors::GatewayError;
use authority_gateway::guard::make_vault_seeds;
use authority_gateway::ids::AccountId;

use solana_program::pubkey::Pubkey;

fn id(byte: u8) -> AccountId {
    AccountId::from_bytes(vec![byte; 32]).unwrap()
}

fn seed_slices(seeds: &[Vec<u8>]) -> Vec<&[u8]> {
    seeds.iter().map(|s| s.as_slice()).collect()
}

#[test]
fn derive_matches_the_reference_search() {
    let program_id = id(7);
    let owner = id(9);
    let seeds = make_vault_seeds(&owner);
    let derived = authority_gateway::derivation::derive(&seeds, &program_id).unwrap();

    let reference_pid = Pubkey::try_from(program_id.as_bytes().as_slice()).unwrap();
    let (expected, expected_bump) =
        Pubkey::find_program_address(&seed_slices(&seeds), &reference_pid);
    assert_eq!(derived.bump, expected_bump);
    assert_eq!(derived.address.as_bytes(), &expected.to_bytes().to_vec());
}

#[test]
fn derive_is_deterministic() {
    let program_id = id(11);
    let owner = id(42);
    let seeds = make_vault_seeds(&owner);
    let first = authority_gateway::derivation::derive(&seeds, &program_id).unwrap();
    let second = authority_gateway::derivation::derive(&seeds, &program_id).unwrap();
    assert_eq!(first.bump, second.bump);
    assert!(first.address.eq_id(&second.address));
}

#[test]
fn validate_accepts_exactly_the_canonical_address() {
    let program_id = id(7);
    let owner = id(9);
    let seeds = make_vault_seeds(&owner);
    let derived = authority_gateway::derivation::derive(&seeds, &program_id).unwrap();
    assert_eq!(validate(&derived.address, &seeds, &program_id), Ok(()));

    // Search below the canonical bump for another bump that also passes the
    // naive off-curve check; its address must still be rejected.
    let reference_pid = Pubkey::try_from(program_id.as_bytes().as_slice()).unwrap();
    let mut found_noncanonical = false;
    for bump in (0..derived.bump).rev() {
        let mut with_bump = seed_slices(&seeds);
        let bump_seed = [bump];
        with_bump.push(&bump_seed);
        if let Ok(other) = Pubkey::create_program_address(&with_bump, &reference_pid) {
            let other_id = AccountId::from_bytes(other.to_bytes().to_vec()).unwrap();
            assert!(!other_id.eq_id(&derived.address));
            assert_eq!(
                validate(&other_id, &seeds, &program_id),
                Err(GatewayError::AddressMismatch)
            );
            found_noncanonical = true;
            break;
        }
    }
    assert!(found_noncanonical);
}

#[test]
fn validate_rejects_an_unrelated_address() {
    let program_id = id(3);
    let owner = id(4);
    let seeds = make_vault_seeds(&owner);
    let stranger = id(200);
    assert_eq!(validate(&stranger, &seeds, &program_id), Err(GatewayError::AddressMismatch));
}
