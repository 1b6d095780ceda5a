//! The call assembler: validates the caller's account set against the
//! recomputed derived addresses, packages the parameter payload, and builds
//! the one outbound cross-program call of each operation.
//!
//! Account order and flags must match the external program's schema exactly;
//! the lists below state them slot by slot.

use vstd::prelude::*;

use crate::derivation::{
    auth_seeds, config_seeds, event_authority_seeds, metadata_seeds, pda_of, pool_seeds,
    vault_seeds, derive_authority, derive_event_authority, derive_global_config,
    derive_metadata_account, derive_pool_state, derive_vault,
};
use crate::payload::{
    buy_exact_in_data, fixed_constant_curve, fixed_mint_params, fixed_vesting_params,
    initialize_v2_data, spec_buy_exact_in_data, spec_create_data, AMM_FEE_ON_QUOTE_TOKEN_TAG,
};
use crate::{address_eq, AccountMeta, Address, Instruction};

verus! {

/// What the assembler itself can reject: address-space exhaustion during a
/// derivation (fatal, effectively never in practice), or a caller-supplied
/// account that does not equal its recomputed derived address. Domain errors
/// (duplicate pool, slippage, balances) are the external program's own.
#[derive(Clone, Copy, Debug, PartialEq, Eq, Structural)]
pub enum AssembleError {
    AddressSpaceExhausted,
    AuthorityMismatch,
    GlobalConfigMismatch,
    PoolStateMismatch,
    BaseVaultMismatch,
    QuoteVaultMismatch,
    MetadataAccountMismatch,
    EventAuthorityMismatch,
}

/// The account set of a create call, every field a plain address. The user
/// and the base mint must co-sign; the base mint is the freshly created
/// token, the quote mint the pre-existing funding asset.
#[derive(Clone, Copy, Debug)]
pub struct Create {
    pub user: Address,
    pub authority: Address,
    pub global_config: Address,
    pub platform_config: Address,
    pub pool_state: Address,
    pub base_vault: Address,
    pub quote_vault: Address,
    pub metadata_account: Address,
    pub base_token_mint: Address,
    pub quote_token_mint: Address,
    pub event_authority: Address,
    pub rent_program: Address,
    pub metadata_program: Address,
    pub raydium_launchpad_program: Address,
    pub token_program: Address,
    pub system_program: Address,
}

/// The account set of a buy call. The user's two token accounts follow the
/// standard associated-account rules from user and mint; that derivation is
/// external to this layer, so they pass through as supplied.
#[derive(Clone, Copy, Debug)]
pub struct Buy {
    pub user: Address,
    pub authority: Address,
    pub global_config: Address,
    pub platform_config: Address,
    pub pool_state: Address,
    pub user_base_token: Address,
    pub user_quote_token: Address,
    pub base_vault: Address,
    pub quote_vault: Address,
    pub base_token_mint: Address,
    pub quote_token_mint: Address,
    pub event_authority: Address,
    pub raydium_launchpad_program: Address,
    pub token_program: Address,
    pub system_program: Address,
}

/// The address a derivation yields, where one exists.
pub open spec fn derived_address(seeds: Seq<Seq<u8>>, program: Seq<u8>) -> Seq<u8> {
    pda_of(seeds, program)->Some_0.0
}

/// The validation cascade of a create call, in check order: each derivation
/// must exist and the caller-supplied address must equal it. The result says
/// exactly which input is rejected with which error, and which are accepted.
pub open spec fn spec_create_check(a: Create) -> Result<(), AssembleError> {
    let prog = a.raydium_launchpad_program@;
    if pda_of(auth_seeds(), prog) is None {
        Err(AssembleError::AddressSpaceExhausted)
    } else if derived_address(auth_seeds(), prog) != a.authority@ {
        Err(AssembleError::AuthorityMismatch)
    } else if pda_of(config_seeds(a.quote_token_mint@), prog) is None {
        Err(AssembleError::AddressSpaceExhausted)
    } else if derived_address(config_seeds(a.quote_token_mint@), prog) != a.global_config@ {
        Err(AssembleError::GlobalConfigMismatch)
    } else if pda_of(pool_seeds(a.base_token_mint@, a.quote_token_mint@), prog) is None {
        Err(AssembleError::AddressSpaceExhausted)
    } else if derived_address(pool_seeds(a.base_token_mint@, a.quote_token_mint@), prog)
        != a.pool_state@ {
        Err(AssembleError::PoolStateMismatch)
    } else if pda_of(vault_seeds(a.pool_state@, a.base_token_mint@), prog) is None {
        Err(AssembleError::AddressSpaceExhausted)
    } else if derived_address(vault_seeds(a.pool_state@, a.base_token_mint@), prog)
        != a.base_vault@ {
        Err(AssembleError::BaseVaultMismatch)
    } else if pda_of(vault_seeds(a.pool_state@, a.quote_token_mint@), prog) is None {
        Err(AssembleError::AddressSpaceExhausted)
    } else if derived_address(vault_seeds(a.pool_state@, a.quote_token_mint@), prog)
        != a.quote_vault@ {
        Err(AssembleError::QuoteVaultMismatch)
    } else if pda_of(metadata_seeds(a.metadata_program@, a.base_token_mint@), a.metadata_program@)
        is None {
        Err(AssembleError::AddressSpaceExhausted)
    } else if derived_address(
        metadata_seeds(a.metadata_program@, a.base_token_mint@),
        a.metadata_program@,
    ) != a.metadata_account@ {
        Err(AssembleError::MetadataAccountMismatch)
    } else if pda_of(event_authority_seeds(), prog) is None {
        Err(AssembleError::AddressSpaceExhausted)
    } else if derived_address(event_authority_seeds(), prog) != a.event_authority@ {
        Err(AssembleError::EventAuthorityMismatch)
    } else {
        Ok(())
    }
}

/// The validation cascade of a buy call: as for create, without the metadata
/// account (a buy touches none).
pub open spec fn spec_buy_check(a: Buy) -> Result<(), AssembleError> {
    let prog = a.raydium_launchpad_program@;
    if pda_of(auth_seeds(), prog) is None {
        Err(AssembleError::AddressSpaceExhausted)
    } else if derived_address(auth_seeds(), prog) != a.authority@ {
        Err(AssembleError::AuthorityMismatch)
    } else if pda_of(config_seeds(a.quote_token_mint@), prog) is None {
        Err(AssembleError::AddressSpaceExhausted)
    } else if derived_address(config_seeds(a.quote_token_mint@), prog) != a.global_config@ {
        Err(AssembleError::GlobalConfigMismatch)
    } else if pda_of(pool_seeds(a.base_token_mint@, a.quote_token_mint@), prog) is None {
        Err(AssembleError::AddressSpaceExhausted)
    } else if derived_address(pool_seeds(a.base_token_mint@, a.quote_token_mint@), prog)
        != a.pool_state@ {
        Err(AssembleError::PoolStateMismatch)
    } else if pda_of(vault_seeds(a.pool_state@, a.base_token_mint@), prog) is None {
        Err(AssembleError::AddressSpaceExhausted)
    } else if derived_address(vault_seeds(a.pool_state@, a.base_token_mint@), prog)
        != a.base_vault@ {
        Err(AssembleError::BaseVaultMismatch)
    } else if pda_of(vault_seeds(a.pool_state@, a.quote_token_mint@), prog) is None {
        Err(AssembleError::AddressSpaceExhausted)
    } else if derived_address(vault_seeds(a.pool_state@, a.quote_token_mint@), prog)
        != a.quote_vault@ {
        Err(AssembleError::QuoteVaultMismatch)
    } else if pda_of(event_authority_seeds(), prog) is None {
        Err(AssembleError::AddressSpaceExhausted)
    } else if derived_address(event_authority_seeds(), prog) != a.event_authority@ {
        Err(AssembleError::EventAuthorityMismatch)
    } else {
        Ok(())
    }
}

/// The account list of a create call, slot by slot in the external program's
/// mandated order: payer, creator, global config, platform config, authority,
/// pool state, base mint, quote mint, base vault, quote vault, metadata
/// account, the two token programs, metadata program, system program, rent,
/// event authority, and the invoked program itself.
pub open spec fn spec_create_account_metas(a: Create) -> Seq<AccountMeta> {
    seq![
        AccountMeta { address: a.user, is_signer: true, is_writable: true },
        AccountMeta { address: a.user, is_signer: true, is_writable: true },
        AccountMeta { address: a.global_config, is_signer: false, is_writable: false },
        AccountMeta { address: a.platform_config, is_signer: false, is_writable: false },
        AccountMeta { address: a.authority, is_signer: false, is_writable: false },
        AccountMeta { address: a.pool_state, is_signer: false, is_writable: true },
        AccountMeta { address: a.base_token_mint, is_signer: true, is_writable: true },
        AccountMeta { address: a.quote_token_mint, is_signer: false, is_writable: false },
        AccountMeta { address: a.base_vault, is_signer: false, is_writable: true },
        AccountMeta { address: a.quote_vault, is_signer: false, is_writable: true },
        AccountMeta { address: a.metadata_account, is_signer: false, is_writable: true },
        AccountMeta { address: a.token_program, is_signer: false, is_writable: false },
        AccountMeta { address: a.token_program, is_signer: false, is_writable: false },
        AccountMeta { address: a.metadata_program, is_signer: false, is_writable: false },
        AccountMeta { address: a.system_program, is_signer: false, is_writable: false },
        AccountMeta { address: a.rent_program, is_signer: false, is_writable: false },
        AccountMeta { address: a.event_authority, is_signer: false, is_writable: false },
        AccountMeta { address: a.raydium_launchpad_program, is_signer: false, is_writable: false },
    ]
}

/// The fixed leading account list of a buy call, in the external program's
/// mandated order: payer, authority, global config, platform config, pool
/// state, the user's two token accounts, the two vaults, the two mints, the
/// two token programs, event authority, and the invoked program itself.
pub open spec fn spec_buy_account_metas(a: Buy) -> Seq<AccountMeta> {
    seq![
        AccountMeta { address: a.user, is_signer: true, is_writable: false },
        AccountMeta { address: a.authority, is_signer: false, is_writable: false },
        AccountMeta { address: a.global_config, is_signer: false, is_writable: false },
        AccountMeta { address: a.platform_config, is_signer: false, is_writable: false },
        AccountMeta { address: a.pool_state, is_signer: false, is_writable: true },
        AccountMeta { address: a.user_base_token, is_signer: false, is_writable: true },
        AccountMeta { address: a.user_quote_token, is_signer: false, is_writable: true },
        AccountMeta { address: a.base_vault, is_signer: false, is_writable: true },
        AccountMeta { address: a.quote_vault, is_signer: false, is_writable: true },
        AccountMeta { address: a.base_token_mint, is_signer: false, is_writable: false },
        AccountMeta { address: a.quote_token_mint, is_signer: false, is_writable: false },
        AccountMeta { address: a.token_program, is_signer: false, is_writable: false },
        AccountMeta { address: a.token_program, is_signer: false, is_writable: false },
        AccountMeta { address: a.event_authority, is_signer: false, is_writable: false },
        AccountMeta { address: a.raydium_launchpad_program, is_signer: false, is_writable: false },
    ]
}

/// Assembles the create call: validates every caller-supplied derived
/// address against its recomputation, then builds the outbound call with the
/// build-time token identity, curve, and vesting payload. No local state is
/// created; success or failure of the call itself is the external program's.
pub fn create(accounts: &Create) -> (r: Result<Instruction, AssembleError>)
    ensures
        r is Ok <==> spec_create_check(*accounts) is Ok,
        r matches Err(e) ==> spec_create_check(*accounts) == Err::<(), AssembleError>(e),
        r matches Ok(ins) ==> {
            &&& ins.program_id@ == accounts.raydium_launchpad_program@
            &&& ins.accounts@ == spec_create_account_metas(*accounts)
            &&& ins.data@ == spec_create_data()
        },
{
    let launchpad = &accounts.raydium_launchpad_program;
    match derive_authority(launchpad) {
        None => {
            return Err(AssembleError::AddressSpaceExhausted);
        },
        Some(p) => {
            if !address_eq(&p.0, &accounts.authority) {
                return Err(AssembleError::AuthorityMismatch);
            }
        },
    }
    match derive_global_config(launchpad, &accounts.quote_token_mint) {
        None => {
            return Err(AssembleError::AddressSpaceExhausted);
        },
        Some(p) => {
            if !address_eq(&p.0, &accounts.global_config) {
                return Err(AssembleError::GlobalConfigMismatch);
            }
        },
    }
    match derive_pool_state(launchpad, &accounts.base_token_mint, &accounts.quote_token_mint) {
        None => {
            return Err(AssembleError::AddressSpaceExhausted);
        },
        Some(p) => {
            if !address_eq(&p.0, &accounts.pool_state) {
                return Err(AssembleError::PoolStateMismatch);
            }
        },
    }
    match derive_vault(launchpad, &accounts.pool_state, &accounts.base_token_mint) {
        None => {
            return Err(AssembleError::AddressSpaceExhausted);
        },
        Some(p) => {
            if !address_eq(&p.0, &accounts.base_vault) {
                return Err(AssembleError::BaseVaultMismatch);
            }
        },
    }
    match derive_vault(launchpad, &accounts.pool_state, &accounts.quote_token_mint) {
        None => {
            return Err(AssembleError::AddressSpaceExhausted);
        },
        Some(p) => {
            if !address_eq(&p.0, &accounts.quote_vault) {
                return Err(AssembleError::QuoteVaultMismatch);
            }
        },
    }
    match derive_metadata_account(&accounts.metadata_program, &accounts.base_token_mint) {
        None => {
            return Err(AssembleError::AddressSpaceExhausted);
        },
        Some(p) => {
            if !address_eq(&p.0, &accounts.metadata_account) {
                return Err(AssembleError::MetadataAccountMismatch);
            }
        },
    }
    match derive_event_authority(launchpad) {
        None => {
            return Err(AssembleError::AddressSpaceExhausted);
        },
        Some(p) => {
            if !address_eq(&p.0, &accounts.event_authority) {
                return Err(AssembleError::EventAuthorityMismatch);
            }
        },
    }
    let params = fixed_mint_params();
    let curve = fixed_constant_curve();
    let vesting = fixed_vesting_params();
    let data = initialize_v2_data(&params, &curve, &vesting, AMM_FEE_ON_QUOTE_TOKEN_TAG);
    let mut metas: Vec<AccountMeta> = Vec::new();
    metas.push(AccountMeta { address: accounts.user, is_signer: true, is_writable: true });
    metas.push(AccountMeta { address: accounts.user, is_signer: true, is_writable: true });
    metas.push(AccountMeta { address: accounts.global_config, is_signer: false, is_writable: false });
    metas.push(AccountMeta { address: accounts.platform_config, is_signer: false, is_writable: false });
    metas.push(AccountMeta { address: accounts.authority, is_signer: false, is_writable: false });
    metas.push(AccountMeta { address: accounts.pool_state, is_signer: false, is_writable: true });
    metas.push(AccountMeta { address: accounts.base_token_mint, is_signer: true, is_writable: true });
    metas.push(AccountMeta { address: accounts.quote_token_mint, is_signer: false, is_writable: false });
    metas.push(AccountMeta { address: accounts.base_vault, is_signer: false, is_writable: true });
    metas.push(AccountMeta { address: accounts.quote_vault, is_signer: false, is_writable: true });
    metas.push(AccountMeta { address: accounts.metadata_account, is_signer: false, is_writable: true });
    metas.push(AccountMeta { address: accounts.token_program, is_signer: false, is_writable: false });
    metas.push(AccountMeta { address: accounts.token_program, is_signer: false, is_writable: false });
    metas.push(AccountMeta { address: accounts.metadata_program, is_signer: false, is_writable: false });
    metas.push(AccountMeta { address: accounts.system_program, is_signer: false, is_writable: false });
    metas.push(AccountMeta { address: accounts.rent_program, is_signer: false, is_writable: false });
    metas.push(AccountMeta { address: accounts.event_authority, is_signer: false, is_writable: false });
    metas.push(AccountMeta { address: accounts.raydium_launchpad_program, is_signer: false, is_writable: false });
    proof {
        assert(metas@ =~= spec_create_account_metas(*accounts));
    }
    Ok(Instruction { program_id: accounts.raydium_launchpad_program, accounts: metas, data })
}

/// Assembles the buy call: validates the caller-supplied derived addresses,
/// encodes the three caller-supplied amounts unchanged, and appends the
/// caller's auxiliary account list verbatim after the fixed set, preserving
/// order, count, and each entry's signer and writable flags. The slippage
/// floor `minimum_amount_out` travels in the payload; the external program
/// aborts the whole call if the realized output would fall below it.
pub fn buy(
    accounts: &Buy,
    amount_in: u64,
    minimum_amount_out: u64,
    share_fee_rate: u64,
    remaining_accounts: Vec<AccountMeta>,
) -> (r: Result<Instruction, AssembleError>)
    ensures
        r is Ok <==> spec_buy_check(*accounts) is Ok,
        r matches Err(e) ==> spec_buy_check(*accounts) == Err::<(), AssembleError>(e),
        r matches Ok(ins) ==> {
            &&& ins.program_id@ == accounts.raydium_launchpad_program@
            &&& ins.accounts@ == spec_buy_account_metas(*accounts) + remaining_accounts@
            &&& ins.accounts@.len() == spec_buy_account_metas(*accounts).len()
                + remaining_accounts@.len()
            &&& forall|i: int|
                0 <= i < remaining_accounts@.len() ==> ins.accounts@[spec_buy_account_metas(
                    *accounts,
                ).len() + i] == remaining_accounts@[i]
            &&& ins.data@ == spec_buy_exact_in_data(amount_in, minimum_amount_out, share_fee_rate)
        },
{
    let launchpad = &accounts.raydium_launchpad_program;
    match derive_authority(launchpad) {
        None => {
            return Err(AssembleError::AddressSpaceExhausted);
        },
        Some(p) => {
            if !address_eq(&p.0, &accounts.authority) {
                return Err(AssembleError::AuthorityMismatch);
            }
        },
    }
    match derive_global_config(launchpad, &accounts.quote_token_mint) {
        None => {
            return Err(AssembleError::AddressSpaceExhausted);
        },
        Some(p) => {
            if !address_eq(&p.0, &accounts.global_config) {
                return Err(AssembleError::GlobalConfigMismatch);
            }
        },
    }
    match derive_pool_state(launchpad, &accounts.base_token_mint, &accounts.quote_token_mint) {
        None => {
            return Err(AssembleError::AddressSpaceExhausted);
        },
        Some(p) => {
            if !address_eq(&p.0, &accounts.pool_state) {
                return Err(AssembleError::PoolStateMismatch);
            }
        },
    }
    match derive_vault(launchpad, &accounts.pool_state, &accounts.base_token_mint) {
        None => {
            return Err(AssembleError::AddressSpaceExhausted);
        },
        Some(p) => {
            if !address_eq(&p.0, &accounts.base_vault) {
                return Err(AssembleError::BaseVaultMismatch);
            }
        },
    }
    match derive_vault(launchpad, &accounts.pool_state, &accounts.quote_token_mint) {
        None => {
            return Err(AssembleError::AddressSpaceExhausted);
        },
        Some(p) => {
            if !address_eq(&p.0, &accounts.quote_vault) {
                return Err(AssembleError::QuoteVaultMismatch);
            }
        },
    }
    match derive_event_authority(launchpad) {
        None => {
            return Err(AssembleError::AddressSpaceExhausted);
        },
        Some(p) => {
            if !address_eq(&p.0, &accounts.event_authority) {
                return Err(AssembleError::EventAuthorityMismatch);
            }
        },
    }
    let data = buy_exact_in_data(amount_in, minimum_amount_out, share_fee_rate);
    let mut metas: Vec<AccountMeta> = Vec::new();
    metas.push(AccountMeta { address: accounts.user, is_signer: true, is_writable: false });
    metas.push(AccountMeta { address: accounts.authority, is_signer: false, is_writable: false });
    metas.push(AccountMeta { address: accounts.global_config, is_signer: false, is_writable: false });
    metas.push(AccountMeta { address: accounts.platform_config, is_signer: false, is_writable: false });
    metas.push(AccountMeta { address: accounts.pool_state, is_signer: false, is_writable: true });
    metas.push(AccountMeta { address: accounts.user_base_token, is_signer: false, is_writable: true });
    metas.push(AccountMeta { address: accounts.user_quote_token, is_signer: false, is_writable: true });
    metas.push(AccountMeta { address: accounts.base_vault, is_signer: false, is_writable: true });
    metas.push(AccountMeta { address: accounts.quote_vault, is_signer: false, is_writable: true });
    metas.push(AccountMeta { address: accounts.base_token_mint, is_signer: false, is_writable: false });
    metas.push(AccountMeta { address: accounts.quote_token_mint, is_signer: false, is_writable: false });
    metas.push(AccountMeta { address: accounts.token_program, is_signer: false, is_writable: false });
    metas.push(AccountMeta { address: accounts.token_program, is_signer: false, is_writable: false });
    metas.push(AccountMeta { address: accounts.event_authority, is_signer: false, is_writable: false });
    metas.push(AccountMeta { address: accounts.raydium_launchpad_program, is_signer: false, is_writable: false });
    proof {
        assert(metas@ =~= spec_buy_account_metas(*accounts));
    }
    let mut remaining = remaining_accounts;
    metas.append(&mut remaining);
    Ok(Instruction { program_id: accounts.raydium_launchpad_program, accounts: metas, data })
}

/// Law: one pool per mint pair. Any two create calls for the same ordered
/// mint pair and the same launchpad program that both pass validation name
/// the same pool-state address, so the second call reaches an account the
/// first one already initialized and is rejected by the external program
/// rather than creating a second pool.
pub proof fn lemma_create_same_pair_same_pool(a1: Create, a2: Create)
    requires
        a1.raydium_launchpad_program@ == a2.raydium_launchpad_program@,
        a1.base_token_mint@ == a2.base_token_mint@,
        a1.quote_token_mint@ == a2.quote_token_mint@,
        spec_create_check(a1) is Ok,
        spec_create_check(a2) is Ok,
    ensures
        a1.pool_state@ == a2.pool_state@,
{
}

} // verus!
