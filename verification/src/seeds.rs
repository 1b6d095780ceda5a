//! The fixed seed byte strings from which every derived sub-account is
//! computed. They are part of the wire protocol shared with the external
//! launchpad program: changing any value changes every derived address.

use vstd::prelude::*;

verus! {

/// The bytes of `"global_config"`, the global-config account's seed.
pub open spec fn spec_config_seed() -> Seq<u8> {
    seq![103u8, 108u8, 111u8, 98u8, 97u8, 108u8, 95u8, 99u8, 111u8, 110u8, 102u8, 105u8, 103u8]
}

/// The bytes of `"pool"`, the pool-state account's seed.
pub open spec fn spec_pool_seed() -> Seq<u8> {
    seq![112u8, 111u8, 111u8, 108u8]
}

/// The bytes of `"pool_vault"`, the vault accounts' seed.
pub open spec fn spec_pool_vault_seed() -> Seq<u8> {
    seq![112u8, 111u8, 111u8, 108u8, 95u8, 118u8, 97u8, 117u8, 108u8, 116u8]
}

/// The bytes of `"vault_auth_seed"`, the shared authority's seed.
pub open spec fn spec_auth_seed() -> Seq<u8> {
    seq![118u8, 97u8, 117u8, 108u8, 116u8, 95u8, 97u8, 117u8, 116u8, 104u8, 95u8, 115u8, 101u8, 101u8, 100u8]
}

/// The bytes of `"__event_authority"`, the event authority's seed.
pub open spec fn spec_event_authority_seed() -> Seq<u8> {
    seq![95u8, 95u8, 101u8, 118u8, 101u8, 110u8, 116u8, 95u8, 97u8, 117u8, 116u8, 104u8, 111u8, 114u8, 105u8, 116u8, 121u8]
}

/// The bytes of `"metadata"`, the metadata account's seed.
pub open spec fn spec_metadata_seed() -> Seq<u8> {
    seq![109u8, 101u8, 116u8, 97u8, 100u8, 97u8, 116u8, 97u8]
}

/// Builds the global-config seed bytes.
pub fn config_seed() -> (s: Vec<u8>)
    ensures
        s@ == spec_config_seed(),
{
    let s: Vec<u8> = vec![103u8, 108u8, 111u8, 98u8, 97u8, 108u8, 95u8, 99u8, 111u8, 110u8, 102u8, 105u8, 103u8];
    proof {
        assert(s@ =~= spec_config_seed());
    }
    s
}

/// Builds the pool-state seed bytes.
pub fn pool_seed() -> (s: Vec<u8>)
    ensures
        s@ == spec_pool_seed(),
{
    let s: Vec<u8> = vec![112u8, 111u8, 111u8, 108u8];
    proof {
        assert(s@ =~= spec_pool_seed());
    }
    s
}

/// Builds the vault seed bytes.
pub fn pool_vault_seed() -> (s: Vec<u8>)
    ensures
        s@ == spec_pool_vault_seed(),
{
    let s: Vec<u8> = vec![112u8, 111u8, 111u8, 108u8, 95u8, 118u8, 97u8, 117u8, 108u8, 116u8];
    proof {
        assert(s@ =~= spec_pool_vault_seed());
    }
    s
}

/// Builds the authority seed bytes.
pub fn auth_seed() -> (s: Vec<u8>)
    ensures
        s@ == spec_auth_seed(),
{
    let s: Vec<u8> = vec![118u8, 97u8, 117u8, 108u8, 116u8, 95u8, 97u8, 117u8, 116u8, 104u8, 95u8, 115u8, 101u8, 101u8, 100u8];
    proof {
        assert(s@ =~= spec_auth_seed());
    }
    s
}

/// Builds the event-authority seed bytes.
pub fn event_authority_seed() -> (s: Vec<u8>)
    ensures
        s@ == spec_event_authority_seed(),
{
    let s: Vec<u8> = vec![95u8, 95u8, 101u8, 118u8, 101u8, 110u8, 116u8, 95u8, 97u8, 117u8, 116u8, 104u8, 111u8, 114u8, 105u8, 116u8, 121u8];
    proof {
        assert(s@ =~= spec_event_authority_seed());
    }
    s
}

/// Builds the metadata seed bytes.
pub fn metadata_seed() -> (s: Vec<u8>)
    ensures
        s@ == spec_metadata_seed(),
{
    let s: Vec<u8> = vec![109u8, 101u8, 116u8, 97u8, 100u8, 97u8, 116u8, 97u8];
    proof {
        assert(s@ =~= spec_metadata_seed());
    }
    s
}

} // verus!
