//! The address-derivation layer: recomputes every deterministic sub-account
//! from a fixed seed byte string plus caller-supplied key material, scored
//! against the program that owns the account's address space.

use vstd::prelude::*;

use crate::Address;
use crate::seeds::{
    auth_seed, config_seed, event_authority_seed, metadata_seed, pool_seed, pool_vault_seed,
    spec_auth_seed, spec_config_seed, spec_event_authority_seed, spec_metadata_seed,
    spec_pool_seed, spec_pool_vault_seed,
};

verus! {

/// The result of the platform's program-derived-address search for a given
/// seed list and owner program: `None` when no bump value yields a valid
/// address, otherwise the address bytes and the chosen bump. The search is a
/// hash-based pure function of its two arguments, so the result carries a
/// name rather than a definition.
pub uninterp spec fn pda_of(seeds: Seq<Seq<u8>>, program: Seq<u8>) -> Option<(Seq<u8>, u8)>;

/// The byte sequences held by a list of seed buffers.
pub open spec fn seeds_view(s: Seq<Vec<u8>>) -> Seq<Seq<u8>> {
    Seq::new(s.len(), |i: int| s[i]@)
}

/// What `derive` promises of its result for given seed material and owner
/// program: the outcome is exactly `pda_of` of the inputs.
pub open spec fn derive_result_matches(
    seeds: Seq<Seq<u8>>,
    program: Seq<u8>,
    r: Option<(Address, u8)>,
) -> bool {
    match r {
        Some(p) => pda_of(seeds, program) == Some((p.0@, p.1)),
        None => pda_of(seeds, program) is None,
    }
}

/// Relies on `solana_pubkey::Pubkey::try_find_program_address`: the search is
/// a deterministic function of the seed bytes and the program identity alone,
/// and it returns `None` rather than panicking when no bump value yields a
/// valid address or when the seed list is over the platform's limits.
#[verifier::external_body]
fn try_find_pda(seeds: &Vec<Vec<u8>>, owner_program: &Address) -> (r: Option<(Address, u8)>)
    ensures
        r is Some <==> pda_of(seeds_view(seeds@), owner_program@) is Some,
        r matches Some(p) ==> pda_of(seeds_view(seeds@), owner_program@) == Some((p.0@, p.1)),
{
    let seed_refs: Vec<&[u8]> = seeds.iter().map(|s| s.as_slice()).collect();
    let program = solana_pubkey::Pubkey::new_from_array(owner_program.bytes);
    solana_pubkey::Pubkey::try_find_program_address(&seed_refs, &program)
        .map(|(address, bump)| (Address { bytes: address.to_bytes() }, bump))
}

/// Derives the address and bump for the given seed material, scored against
/// the address space of `owner_program`. Deterministic: the result is a
/// function of the two inputs alone. `None` only when the address space is
/// exhausted across all bump values.
pub fn derive(seeds: &Vec<Vec<u8>>, owner_program: &Address) -> (r: Option<(Address, u8)>)
    ensures
        derive_result_matches(seeds_view(seeds@), owner_program@, r),
{
    try_find_pda(seeds, owner_program)
}

/// Law: `derive` is deterministic. Any two results that meet `derive`'s
/// contract for the same seed material and owner program are the same
/// outcome: the same address bytes and the same bump, or both `None`.
pub proof fn lemma_derive_deterministic(
    seeds: Seq<Seq<u8>>,
    program: Seq<u8>,
    r1: Option<(Address, u8)>,
    r2: Option<(Address, u8)>,
)
    requires
        derive_result_matches(seeds, program, r1),
        derive_result_matches(seeds, program, r2),
    ensures
        match (r1, r2) {
            (Some(p1), Some(p2)) => p1.0@ == p2.0@ && p1.1 == p2.1,
            (None, None) => true,
            _ => false,
        },
{
}

/// The seed material of the shared authority: the authority seed alone.
pub open spec fn auth_seeds() -> Seq<Seq<u8>> {
    seq![spec_auth_seed()]
}

/// The seed material of the global config: the config seed, the quote mint,
/// and two reserved zero-valued discriminator fields (one byte and two bytes,
/// little endian), kept as opaque constants of the external protocol.
pub open spec fn config_seeds(quote_mint: Seq<u8>) -> Seq<Seq<u8>> {
    seq![spec_config_seed(), quote_mint, seq![0u8], seq![0u8, 0u8]]
}

/// The seed material of a pool state: the pool seed, then the base mint, then
/// the quote mint. The order of the two mints is part of a pool's identity.
pub open spec fn pool_seeds(base_mint: Seq<u8>, quote_mint: Seq<u8>) -> Seq<Seq<u8>> {
    seq![spec_pool_seed(), base_mint, quote_mint]
}

/// The seed material of a pool vault: the vault seed, the pool state's
/// address, and the vault's own mint.
pub open spec fn vault_seeds(pool_state: Seq<u8>, mint: Seq<u8>) -> Seq<Seq<u8>> {
    seq![spec_pool_vault_seed(), pool_state, mint]
}

/// The seed material of the base mint's metadata account: the metadata seed,
/// the metadata program's identity, and the base mint.
pub open spec fn metadata_seeds(metadata_program: Seq<u8>, base_mint: Seq<u8>) -> Seq<Seq<u8>> {
    seq![spec_metadata_seed(), metadata_program, base_mint]
}

/// The seed material of the event authority: its seed alone.
pub open spec fn event_authority_seeds() -> Seq<Seq<u8>> {
    seq![spec_event_authority_seed()]
}

/// Law: pool identity depends on mint order. For mints `a != b`, the pool
/// seed material for the pair `(a, b)` differs from that for `(b, a)`, so the
/// two derivations are made over different inputs.
pub proof fn lemma_pool_seed_order_matters(a: Seq<u8>, b: Seq<u8>)
    requires
        a != b,
    ensures
        pool_seeds(a, b) != pool_seeds(b, a),
{
    assert(pool_seeds(a, b)[1] == a);
    assert(pool_seeds(b, a)[1] == b);
}

/// Copies the 32 bytes of an address into a fresh seed buffer.
fn address_seed(a: &Address) -> (s: Vec<u8>)
    ensures
        s@ == a@,
{
    vstd::slice::slice_to_vec(a.bytes.as_slice())
}

/// Derives the shared authority account for the launchpad program.
pub fn derive_authority(launchpad_program: &Address) -> (r: Option<(Address, u8)>)
    ensures
        derive_result_matches(auth_seeds(), launchpad_program@, r),
{
    let seeds: Vec<Vec<u8>> = vec![auth_seed()];
    proof {
        assert(seeds_view(seeds@) =~~= auth_seeds());
    }
    derive(&seeds, launchpad_program)
}

/// Derives the global-config account for the given quote mint.
pub fn derive_global_config(launchpad_program: &Address, quote_mint: &Address) -> (r: Option<
    (Address, u8),
>)
    ensures
        derive_result_matches(config_seeds(quote_mint@), launchpad_program@, r),
{
    let zero_u8: Vec<u8> = vec![0u8];
    let zero_u16: Vec<u8> = vec![0u8, 0u8];
    let seeds: Vec<Vec<u8>> = vec![config_seed(), address_seed(quote_mint), zero_u8, zero_u16];
    proof {
        assert(seeds_view(seeds@) =~~= config_seeds(quote_mint@));
    }
    derive(&seeds, launchpad_program)
}

/// Derives the pool-state account for the ordered mint pair.
pub fn derive_pool_state(
    launchpad_program: &Address,
    base_mint: &Address,
    quote_mint: &Address,
) -> (r: Option<(Address, u8)>)
    ensures
        derive_result_matches(pool_seeds(base_mint@, quote_mint@), launchpad_program@, r),
{
    let seeds: Vec<Vec<u8>> = vec![pool_seed(), address_seed(base_mint), address_seed(quote_mint)];
    proof {
        assert(seeds_view(seeds@) =~~= pool_seeds(base_mint@, quote_mint@));
    }
    derive(&seeds, launchpad_program)
}

/// Derives a pool vault account for the given pool state and vault mint.
pub fn derive_vault(launchpad_program: &Address, pool_state: &Address, mint: &Address) -> (r:
    Option<(Address, u8)>)
    ensures
        derive_result_matches(vault_seeds(pool_state@, mint@), launchpad_program@, r),
{
    let seeds: Vec<Vec<u8>> = vec![
        pool_vault_seed(),
        address_seed(pool_state),
        address_seed(mint),
    ];
    proof {
        assert(seeds_view(seeds@) =~~= vault_seeds(pool_state@, mint@));
    }
    derive(&seeds, launchpad_program)
}

/// Derives the metadata account of the base mint, scored against the metadata
/// program's own address space.
pub fn derive_metadata_account(metadata_program: &Address, base_mint: &Address) -> (r: Option<
    (Address, u8),
>)
    ensures
        derive_result_matches(metadata_seeds(metadata_program@, base_mint@), metadata_program@, r),
{
    let seeds: Vec<Vec<u8>> = vec![
        metadata_seed(),
        address_seed(metadata_program),
        address_seed(base_mint),
    ];
    proof {
        assert(seeds_view(seeds@) =~~= metadata_seeds(metadata_program@, base_mint@));
    }
    derive(&seeds, metadata_program)
}

/// Derives the event-authority account for the launchpad program.
pub fn derive_event_authority(launchpad_program: &Address) -> (r: Option<(Address, u8)>)
    ensures
        derive_result_matches(event_authority_seeds(), launchpad_program@, r),
{
    let seeds: Vec<Vec<u8>> = vec![event_authority_seed()];
    proof {
        assert(seeds_view(seeds@) =~~= event_authority_seeds());
    }
    derive(&seeds, launchpad_program)
}

} // verus!
