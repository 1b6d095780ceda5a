use launchlabs_buy::derivation::{
    derive_authority, derive_event_authority, derive_global_config, derive_metadata_account,
    derive_pool_state, derive_vault,
};
use launchlabs_buy::Address;

fn addr(n: u8) -> Address {
    Address { bytes: [n; 32] }
}

#[test]
fn derive_is_deterministic() {
    let program = addr(7);
    let base = addr(1);
    let quote = addr(2);
    let first = derive_pool_state(&program, &base, &quote).unwrap();
    let second = derive_pool_state(&program, &base, &quote).unwrap();
    assert_eq!(first.0.bytes, second.0.bytes);
    assert_eq!(first.1, second.1);
}

#[test]
fn derive_raw_is_deterministic() {
    let program = addr(3);
    let seeds: Vec<Vec<u8>> = vec![vec![1, 2, 3], vec![4, 5]];
    let first = launchlabs_buy::derivation::derive(&seeds, &program).unwrap();
    let second = launchlabs_buy::derivation::derive(&seeds, &program).unwrap();
    assert_eq!(first.0.bytes, second.0.bytes);
    assert_eq!(first.1, second.1);
}

#[test]
fn pool_state_depends_on_mint_order() {
    let program = addr(7);
    let a = addr(1);
    let b = addr(2);
    let ab = derive_pool_state(&program, &a, &b).unwrap();
    let ba = derive_pool_state(&program, &b, &a).unwrap();
    assert_ne!(ab.0.bytes, ba.0.bytes);
}

#[test]
fn pool_state_matches_platform_derivation() {
    let program = addr(7);
    let base = addr(1);
    let quote = addr(2);
    let derived = derive_pool_state(&program, &base, &quote).unwrap();
    let pk = solana_pubkey::Pubkey::new_from_array(program.bytes);
    let (expected, bump) = solana_pubkey::Pubkey::find_program_address(
        &[b"pool", &base.bytes, &quote.bytes],
        &pk,
    );
    assert_eq!(derived.0.bytes, expected.to_bytes());
    assert_eq!(derived.1, bump);
}

#[test]
fn authority_matches_platform_derivation() {
    let program = addr(9);
    let derived = derive_authority(&program).unwrap();
    let pk = solana_pubkey::Pubkey::new_from_array(program.bytes);
    let (expected, bump) =
        solana_pubkey::Pubkey::find_program_address(&[b"vault_auth_seed"], &pk);
    assert_eq!(derived.0.bytes, expected.to_bytes());
    assert_eq!(derived.1, bump);
}

#[test]
fn global_config_matches_platform_derivation() {
    let program = addr(9);
    let quote = addr(2);
    let derived = derive_global_config(&program, &quote).unwrap();
    let pk = solana_pubkey::Pubkey::new_from_array(program.bytes);
    let (expected, _) = solana_pubkey::Pubkey::find_program_address(
        &[
            b"global_config",
            &quote.bytes,
            &0u8.to_le_bytes(),
            &0u16.to_le_bytes(),
        ],
        &pk,
    );
    assert_eq!(derived.0.bytes, expected.to_bytes());
}

#[test]
fn vault_matches_platform_derivation() {
    let program = addr(9);
    let pool = addr(4);
    let mint = addr(1);
    let derived = derive_vault(&program, &pool, &mint).unwrap();
    let pk = solana_pubkey::Pubkey::new_from_array(program.bytes);
    let (expected, _) = solana_pubkey::Pubkey::find_program_address(
        &[b"pool_vault", &pool.bytes, &mint.bytes],
        &pk,
    );
    assert_eq!(derived.0.bytes, expected.to_bytes());
}

#[test]
fn metadata_account_matches_platform_derivation() {
    let metadata_program = addr(8);
    let base = addr(1);
    let derived = derive_metadata_account(&metadata_program, &base).unwrap();
    let pk = solana_pubkey::Pubkey::new_from_array(metadata_program.bytes);
    let (expected, _) = solana_pubkey::Pubkey::find_program_address(
        &[b"metadata", &metadata_program.bytes, &base.bytes],
        &pk,
    );
    assert_eq!(derived.0.bytes, expected.to_bytes());
}

#[test]
fn event_authority_matches_platform_derivation() {
    let program = addr(9);
    let derived = derive_event_authority(&program).unwrap();
    let pk = solana_pubkey::Pubkey::new_from_array(program.bytes);
    let (expected, _) =
        solana_pubkey::Pubkey::find_program_address(&[b"__event_authority"], &pk);
    assert_eq!(derived.0.bytes, expected.to_bytes());
}
