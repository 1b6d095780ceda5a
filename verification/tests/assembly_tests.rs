use launchlabs_buy::derivation::{
    derive_authority, derive_event_authority, derive_global_config, derive_metadata_account,
    derive_pool_state, derive_vault,
};
use launchlabs_buy::{buy, create, AccountMeta, Address, AssembleError, Buy, Create};
use sha2::Digest;

fn addr(n: u8) -> Address {
    Address { bytes: [n; 32] }
}

fn valid_create() -> Create {
    let launchpad = addr(9);
    let metadata_program = addr(8);
    let base = addr(1);
    let quote = addr(2);
    let authority = derive_authority(&launchpad).unwrap().0;
    let global_config = derive_global_config(&launchpad, &quote).unwrap().0;
    let pool_state = derive_pool_state(&launchpad, &base, &quote).unwrap().0;
    let base_vault = derive_vault(&launchpad, &pool_state, &base).unwrap().0;
    let quote_vault = derive_vault(&launchpad, &pool_state, &quote).unwrap().0;
    let metadata_account = derive_metadata_account(&metadata_program, &base).unwrap().0;
    let event_authority = derive_event_authority(&launchpad).unwrap().0;
    Create {
        user: addr(11),
        authority,
        global_config,
        platform_config: addr(12),
        pool_state,
        base_vault,
        quote_vault,
        metadata_account,
        base_token_mint: base,
        quote_token_mint: quote,
        event_authority,
        rent_program: addr(13),
        metadata_program,
        raydium_launchpad_program: launchpad,
        token_program: addr(14),
        system_program: addr(15),
    }
}

fn valid_buy() -> Buy {
    let launchpad = addr(9);
    let base = addr(1);
    let quote = addr(2);
    let authority = derive_authority(&launchpad).unwrap().0;
    let global_config = derive_global_config(&launchpad, &quote).unwrap().0;
    let pool_state = derive_pool_state(&launchpad, &base, &quote).unwrap().0;
    let base_vault = derive_vault(&launchpad, &pool_state, &base).unwrap().0;
    let quote_vault = derive_vault(&launchpad, &pool_state, &quote).unwrap().0;
    let event_authority = derive_event_authority(&launchpad).unwrap().0;
    Buy {
        user: addr(11),
        authority,
        global_config,
        platform_config: addr(12),
        pool_state,
        user_base_token: addr(21),
        user_quote_token: addr(22),
        base_vault,
        quote_vault,
        base_token_mint: base,
        quote_token_mint: quote,
        event_authority,
        raydium_launchpad_program: launchpad,
        token_program: addr(14),
        system_program: addr(15),
    }
}

fn u64_at(data: &[u8], offset: usize) -> u64 {
    let mut bytes = [0u8; 8];
    bytes.copy_from_slice(&data[offset..offset + 8]);
    u64::from_le_bytes(bytes)
}

#[test]
fn create_carries_fixed_curve_payload() {
    let accounts = valid_create();
    let ins = create(&accounts).unwrap();
    assert_eq!(ins.program_id.bytes, accounts.raydium_launchpad_program.bytes);
    assert_eq!(ins.data.len(), 170);
    let expected_disc = sha2::Sha256::digest(b"global:initialize_v2");
    assert_eq!(&ins.data[0..8], &expected_disc[0..8]);
    // Token identity: name, symbol, and metadata location, length prefixed.
    assert_eq!(&ins.data[8..12], &14u32.to_le_bytes());
    assert_eq!(&ins.data[12..26], b"Glamorous Cats");
    assert_eq!(&ins.data[26..30], &4u32.to_le_bytes());
    assert_eq!(&ins.data[30..34], b"GLAM");
    assert_eq!(&ins.data[34..38], &80u32.to_le_bytes());
    assert_eq!(
        &ins.data[38..118],
        b"https://ipfs.io/ipfs/bafkreig2atoub5hapy5s7ymoomwhrttymhicthuftjkcyq6jgyf4yoekx4"
            .as_slice()
    );
    assert_eq!(ins.data[118], 6);
    // Curve: constant variant, supply, the two transported totals, migration.
    assert_eq!(ins.data[119], 0);
    assert_eq!(u64_at(&ins.data, 120), 1_000_000_000_000_000);
    assert_eq!(u64_at(&ins.data, 128), 793_100_000_000_000);
    assert_eq!(u64_at(&ins.data, 136), 12_500_000_000);
    assert_eq!(ins.data[144], 1);
    // Vesting: all zero.
    assert_eq!(u64_at(&ins.data, 145), 0);
    assert_eq!(u64_at(&ins.data, 153), 0);
    assert_eq!(u64_at(&ins.data, 161), 0);
    // Fee destination: quote denominated.
    assert_eq!(ins.data[169], 0);
}

#[test]
fn create_account_list_order_and_flags() {
    let accounts = valid_create();
    let ins = create(&accounts).unwrap();
    assert_eq!(ins.accounts.len(), 18);
    let expected: Vec<([u8; 32], bool, bool)> = vec![
        (accounts.user.bytes, true, true),
        (accounts.user.bytes, true, true),
        (accounts.global_config.bytes, false, false),
        (accounts.platform_config.bytes, false, false),
        (accounts.authority.bytes, false, false),
        (accounts.pool_state.bytes, false, true),
        (accounts.base_token_mint.bytes, true, true),
        (accounts.quote_token_mint.bytes, false, false),
        (accounts.base_vault.bytes, false, true),
        (accounts.quote_vault.bytes, false, true),
        (accounts.metadata_account.bytes, false, true),
        (accounts.token_program.bytes, false, false),
        (accounts.token_program.bytes, false, false),
        (accounts.metadata_program.bytes, false, false),
        (accounts.system_program.bytes, false, false),
        (accounts.rent_program.bytes, false, false),
        (accounts.event_authority.bytes, false, false),
        (accounts.raydium_launchpad_program.bytes, false, false),
    ];
    for (i, (bytes, signer, writable)) in expected.into_iter().enumerate() {
        assert_eq!(ins.accounts[i].address.bytes, bytes, "slot {i}");
        assert_eq!(ins.accounts[i].is_signer, signer, "slot {i}");
        assert_eq!(ins.accounts[i].is_writable, writable, "slot {i}");
    }
}

#[test]
fn create_is_deterministic_for_a_mint_pair() {
    let accounts = valid_create();
    let first = create(&accounts).unwrap();
    let second = create(&accounts).unwrap();
    assert_eq!(first.data, second.data);
    assert_eq!(first.accounts.len(), second.accounts.len());
    assert_eq!(first.accounts[5].address.bytes, second.accounts[5].address.bytes);
}

#[test]
fn create_rejects_wrong_authority() {
    let mut accounts = valid_create();
    accounts.authority = addr(99);
    assert_eq!(create(&accounts).unwrap_err(), AssembleError::AuthorityMismatch);
}

#[test]
fn create_rejects_wrong_global_config() {
    let mut accounts = valid_create();
    accounts.global_config = addr(99);
    assert_eq!(create(&accounts).unwrap_err(), AssembleError::GlobalConfigMismatch);
}

#[test]
fn create_rejects_wrong_pool_state() {
    let mut accounts = valid_create();
    accounts.pool_state = addr(99);
    assert_eq!(create(&accounts).unwrap_err(), AssembleError::PoolStateMismatch);
}

#[test]
fn create_rejects_swapped_mint_order() {
    let mut accounts = valid_create();
    // The supplied pool state was derived for (base, quote); swapping the
    // mints makes it stale, because mint order is part of a pool's identity.
    let base = accounts.base_token_mint;
    accounts.base_token_mint = accounts.quote_token_mint;
    accounts.quote_token_mint = base;
    assert!(create(&accounts).is_err());
}

#[test]
fn create_rejects_wrong_vaults_metadata_event_authority() {
    let mut accounts = valid_create();
    accounts.base_vault = addr(99);
    assert_eq!(create(&accounts).unwrap_err(), AssembleError::BaseVaultMismatch);
    let mut accounts = valid_create();
    accounts.quote_vault = addr(99);
    assert_eq!(create(&accounts).unwrap_err(), AssembleError::QuoteVaultMismatch);
    let mut accounts = valid_create();
    accounts.metadata_account = addr(99);
    assert_eq!(create(&accounts).unwrap_err(), AssembleError::MetadataAccountMismatch);
    let mut accounts = valid_create();
    accounts.event_authority = addr(99);
    assert_eq!(create(&accounts).unwrap_err(), AssembleError::EventAuthorityMismatch);
}

#[test]
fn buy_scenario_zero_auxiliary() {
    let accounts = valid_buy();
    let ins = buy(&accounts, 1_000_000, 0, 0, Vec::new()).unwrap();
    assert_eq!(ins.accounts.len(), 15);
    assert_eq!(ins.data.len(), 32);
    let expected_disc = sha2::Sha256::digest(b"global:buy_exact_in");
    assert_eq!(&ins.data[0..8], &expected_disc[0..8]);
    assert_eq!(u64_at(&ins.data, 8), 1_000_000);
    assert_eq!(u64_at(&ins.data, 16), 0);
    assert_eq!(u64_at(&ins.data, 24), 0);
}

#[test]
fn buy_transports_amounts_unchanged() {
    let accounts = valid_buy();
    let ins = buy(&accounts, 123_456_789, 42, 7, Vec::new()).unwrap();
    assert_eq!(u64_at(&ins.data, 8), 123_456_789);
    assert_eq!(u64_at(&ins.data, 16), 42);
    assert_eq!(u64_at(&ins.data, 24), 7);
}

#[test]
fn buy_account_list_order_and_flags() {
    let accounts = valid_buy();
    let ins = buy(&accounts, 1, 0, 0, Vec::new()).unwrap();
    assert_eq!(ins.accounts.len(), 15);
    let expected: Vec<([u8; 32], bool, bool)> = vec![
        (accounts.user.bytes, true, false),
        (accounts.authority.bytes, false, false),
        (accounts.global_config.bytes, false, false),
        (accounts.platform_config.bytes, false, false),
        (accounts.pool_state.bytes, false, true),
        (accounts.user_base_token.bytes, false, true),
        (accounts.user_quote_token.bytes, false, true),
        (accounts.base_vault.bytes, false, true),
        (accounts.quote_vault.bytes, false, true),
        (accounts.base_token_mint.bytes, false, false),
        (accounts.quote_token_mint.bytes, false, false),
        (accounts.token_program.bytes, false, false),
        (accounts.token_program.bytes, false, false),
        (accounts.event_authority.bytes, false, false),
        (accounts.raydium_launchpad_program.bytes, false, false),
    ];
    for (i, (bytes, signer, writable)) in expected.into_iter().enumerate() {
        assert_eq!(ins.accounts[i].address.bytes, bytes, "slot {i}");
        assert_eq!(ins.accounts[i].is_signer, signer, "slot {i}");
        assert_eq!(ins.accounts[i].is_writable, writable, "slot {i}");
    }
}

#[test]
fn buy_passes_remaining_accounts_through_verbatim() {
    let accounts = valid_buy();
    let remaining = vec![
        AccountMeta { address: addr(31), is_signer: true, is_writable: false },
        AccountMeta { address: addr(32), is_signer: false, is_writable: true },
        AccountMeta { address: addr(33), is_signer: false, is_writable: false },
    ];
    let ins = buy(&accounts, 5, 1, 2, remaining.clone()).unwrap();
    assert_eq!(ins.accounts.len(), 15 + remaining.len());
    for (i, meta) in remaining.iter().enumerate() {
        assert_eq!(ins.accounts[15 + i].address.bytes, meta.address.bytes);
        assert_eq!(ins.accounts[15 + i].is_signer, meta.is_signer);
        assert_eq!(ins.accounts[15 + i].is_writable, meta.is_writable);
    }
}

#[test]
fn buy_rejects_wrong_derived_accounts() {
    let mut accounts = valid_buy();
    accounts.authority = addr(99);
    assert_eq!(
        buy(&accounts, 1, 0, 0, Vec::new()).unwrap_err(),
        AssembleError::AuthorityMismatch
    );
    let mut accounts = valid_buy();
    accounts.pool_state = addr(99);
    assert_eq!(
        buy(&accounts, 1, 0, 0, Vec::new()).unwrap_err(),
        AssembleError::PoolStateMismatch
    );
    let mut accounts = valid_buy();
    accounts.event_authority = addr(99);
    assert_eq!(
        buy(&accounts, 1, 0, 0, Vec::new()).unwrap_err(),
        AssembleError::EventAuthorityMismatch
    );
}
