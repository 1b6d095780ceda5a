//! Parameter payloads of the two outbound calls and their byte encodings.
//!
//! The external program reads each call's parameters from a byte string: an
//! eight-byte entry-point discriminator (the leading bytes of a digest of the
//! entry point's name), followed by the parameter fields in order, integers
//! little endian and byte strings length-prefixed. The encoders here state
//! the exact bytes they produce.

use vstd::prelude::*;

use vstd::bytes::{spec_u32_to_le_bytes, spec_u64_to_le_bytes, u32_to_le_bytes, u64_to_le_bytes};

verus! {

/// Total base-token supply of the fixed bonding-curve configuration.
pub const SUPPLY: u64 = 1000000000000000;

/// Base tokens offered for sale: mirrors the cumulative allocation that the
/// off-chain store intends to distribute.
pub const TOTAL_BASE_SELL: u64 = 793100000000000;

/// Quote funding target: mirrors the off-chain store's cumulative target.
pub const TOTAL_QUOTE_FUND_RAISING: u64 = 12500000000;

/// Post-raise migration mode selector of the external program.
pub const MIGRATE_TYPE: u8 = 1;

/// Decimal precision of the token created by `create`.
pub const TOKEN_DECIMALS: u8 = 6;

/// Wire tag of the external program's constant-product curve variant.
pub const CONSTANT_CURVE_TAG: u8 = 0;

/// Wire tag of the external program's quote-denominated fee selector.
pub const AMM_FEE_ON_QUOTE_TOKEN_TAG: u8 = 0;

/// The digest of a byte string, as the platform's hash function computes it:
/// a function of the input bytes alone, so its value carries a name rather
/// than a definition.
pub uninterp spec fn sha256_of(data: Seq<u8>) -> Seq<u8>;

/// Relies on `sha2::Sha256`: the digest is a function of the input bytes
/// alone and is 32 bytes long.
#[verifier::external_body]
fn sha256(data: &Vec<u8>) -> (r: Vec<u8>)
    ensures
        r@ == sha256_of(data@),
        r@.len() == 32,
{
    let digest = <sha2::Sha256 as sha2::Digest>::digest(data.as_slice());
    digest.as_slice().to_vec()
}

/// The bytes of `"global:initialize_v2"`, the preimage of the create entry
/// point's discriminator.
pub open spec fn spec_initialize_v2_preimage() -> Seq<u8> {
    seq![103u8, 108u8, 111u8, 98u8, 97u8, 108u8, 58u8, 105u8, 110u8, 105u8, 116u8, 105u8, 97u8, 108u8, 105u8, 122u8, 101u8, 95u8, 118u8, 50u8]
}

/// The bytes of `"global:buy_exact_in"`, the preimage of the buy entry
/// point's discriminator.
pub open spec fn spec_buy_exact_in_preimage() -> Seq<u8> {
    seq![103u8, 108u8, 111u8, 98u8, 97u8, 108u8, 58u8, 98u8, 117u8, 121u8, 95u8, 101u8, 120u8, 97u8, 99u8, 116u8, 95u8, 105u8, 110u8]
}

/// The eight-byte discriminator of an entry point: the leading bytes of the
/// digest of its name preimage.
pub open spec fn spec_discriminator(preimage: Seq<u8>) -> Seq<u8> {
    Seq::new(8, |i: int| sha256_of(preimage)[i])
}

/// Computes the eight-byte discriminator for an entry-point name preimage.
fn discriminator(preimage: &Vec<u8>) -> (r: Vec<u8>)
    ensures
        r@ == spec_discriminator(preimage@),
{
    let digest = sha256(preimage);
    let mut r: Vec<u8> = Vec::new();
    let mut i: usize = 0;
    while i < 8
        invariant
            0 <= i <= 8,
            digest@.len() == 32,
            digest@ == sha256_of(preimage@),
            r@ =~= digest@.subrange(0, i as int),
        decreases 8 - i,
    {
        r.push(digest[i]);
        i = i + 1;
    }
    proof {
        assert(r@ =~= spec_discriminator(preimage@));
    }
    r
}

/// The token-identity parameters of the create call: display name, symbol,
/// and metadata location as UTF-8 bytes, plus the decimal precision.
pub struct MintParams {
    pub name: Vec<u8>,
    pub symbol: Vec<u8>,
    pub uri: Vec<u8>,
    pub decimals: u8,
}

/// The four-constant bonding-curve configuration of the create call.
pub struct ConstantCurve {
    pub supply: u64,
    pub total_base_sell: u64,
    pub total_quote_fund_raising: u64,
    pub migrate_type: u8,
}

/// The locked-amount/cliff/unlock schedule of the create call; all zero in
/// this deployment ("no vesting"), but structurally present.
pub struct VestingParams {
    pub total_locked_amount: u64,
    pub cliff_period: u64,
    pub unlock_period: u64,
}

/// A length-prefixed byte-string field: four little-endian length bytes, then
/// the bytes themselves.
pub open spec fn spec_bytes_field(b: Seq<u8>) -> Seq<u8> {
    spec_u32_to_le_bytes(b.len() as u32) + b
}

/// The encoding of the token-identity parameters: the three byte-string
/// fields in order, then the decimals byte.
pub open spec fn spec_mint_params_bytes(name: Seq<u8>, symbol: Seq<u8>, uri: Seq<u8>, decimals: u8) -> Seq<u8> {
    spec_bytes_field(name) + spec_bytes_field(symbol) + spec_bytes_field(uri) + seq![decimals]
}

/// The encoding of the curve configuration: the constant-curve variant tag,
/// the three amounts little endian, then the migration selector.
pub open spec fn spec_curve_params_bytes(c: ConstantCurve) -> Seq<u8> {
    seq![CONSTANT_CURVE_TAG] + spec_u64_to_le_bytes(c.supply) + spec_u64_to_le_bytes(
        c.total_base_sell,
    ) + spec_u64_to_le_bytes(c.total_quote_fund_raising) + seq![c.migrate_type]
}

/// The encoding of the vesting schedule: its three amounts little endian.
pub open spec fn spec_vesting_params_bytes(v: VestingParams) -> Seq<u8> {
    spec_u64_to_le_bytes(v.total_locked_amount) + spec_u64_to_le_bytes(v.cliff_period)
        + spec_u64_to_le_bytes(v.unlock_period)
}

/// The full parameter bytes of the create call: discriminator, token
/// identity, curve, vesting, and the fee-destination selector tag.
pub open spec fn spec_initialize_v2_data(
    name: Seq<u8>,
    symbol: Seq<u8>,
    uri: Seq<u8>,
    decimals: u8,
    curve: ConstantCurve,
    vesting: VestingParams,
    fee_on: u8,
) -> Seq<u8> {
    spec_discriminator(spec_initialize_v2_preimage()) + spec_mint_params_bytes(
        name,
        symbol,
        uri,
        decimals,
    ) + spec_curve_params_bytes(curve) + spec_vesting_params_bytes(vesting) + seq![fee_on]
}

/// The full parameter bytes of the buy call: discriminator, then the three
/// amounts little endian, in order.
pub open spec fn spec_buy_exact_in_data(
    amount_in: u64,
    minimum_amount_out: u64,
    share_fee_rate: u64,
) -> Seq<u8> {
    spec_discriminator(spec_buy_exact_in_preimage()) + spec_u64_to_le_bytes(amount_in)
        + spec_u64_to_le_bytes(minimum_amount_out) + spec_u64_to_le_bytes(share_fee_rate)
}

/// Law: the buy payload pins its amounts. Two buy payloads are equal only if
/// their caller-supplied amounts are equal, so assembly can neither drop nor
/// alter `amount_in`, the slippage floor `minimum_amount_out`, or
/// `share_fee_rate` on the way into the outbound call.
pub proof fn lemma_buy_data_pins_amounts(a1: u64, m1: u64, s1: u64, a2: u64, m2: u64, s2: u64)
    requires
        spec_buy_exact_in_data(a1, m1, s1) == spec_buy_exact_in_data(a2, m2, s2),
    ensures
        a1 == a2,
        m1 == m2,
        s1 == s2,
{
    vstd::bytes::lemma_auto_spec_u64_to_from_le_bytes();
    let pre = spec_discriminator(spec_buy_exact_in_preimage());
    assert(pre.len() == 8);
    assert(spec_u64_to_le_bytes(a1).len() == 8);
    assert(spec_u64_to_le_bytes(m1).len() == 8);
    assert(spec_u64_to_le_bytes(s1).len() == 8);
    assert(spec_u64_to_le_bytes(a2).len() == 8);
    assert(spec_u64_to_le_bytes(m2).len() == 8);
    assert(spec_u64_to_le_bytes(s2).len() == 8);
    let d1 = spec_buy_exact_in_data(a1, m1, s1);
    let d2 = spec_buy_exact_in_data(a2, m2, s2);
    assert(spec_u64_to_le_bytes(a1) =~= d1.subrange(8, 16));
    assert(spec_u64_to_le_bytes(m1) =~= d1.subrange(16, 24));
    assert(spec_u64_to_le_bytes(s1) =~= d1.subrange(24, 32));
    assert(spec_u64_to_le_bytes(a2) =~= d2.subrange(8, 16));
    assert(spec_u64_to_le_bytes(m2) =~= d2.subrange(16, 24));
    assert(spec_u64_to_le_bytes(s2) =~= d2.subrange(24, 32));
    assert(vstd::bytes::spec_u64_from_le_bytes(spec_u64_to_le_bytes(a1)) == a1);
    assert(vstd::bytes::spec_u64_from_le_bytes(spec_u64_to_le_bytes(m1)) == m1);
    assert(vstd::bytes::spec_u64_from_le_bytes(spec_u64_to_le_bytes(s1)) == s1);
}

/// Law: the create payload carries the build-time curve configuration
/// unmodified, at fixed offsets behind the discriminator and the token
/// identity: the curve variant tag, the supply, the two totals that mirror
/// the off-chain allocation store, and the migration selector.
pub proof fn lemma_create_data_carries_curve()
    ensures
        spec_create_data().len() == 170,
        spec_create_data()[119] == CONSTANT_CURVE_TAG,
        spec_create_data().subrange(120, 128) == spec_u64_to_le_bytes(SUPPLY),
        spec_create_data().subrange(128, 136) == spec_u64_to_le_bytes(TOTAL_BASE_SELL),
        spec_create_data().subrange(136, 144) == spec_u64_to_le_bytes(TOTAL_QUOTE_FUND_RAISING),
        spec_create_data()[144] == MIGRATE_TYPE,
{
    vstd::bytes::lemma_auto_spec_u64_to_from_le_bytes();
    assert(spec_u32_to_le_bytes(14u32).len() == 4) by {
        vstd::bytes::lemma_auto_spec_u32_to_from_le_bytes();
    }
    assert(spec_u32_to_le_bytes(4u32).len() == 4) by {
        vstd::bytes::lemma_auto_spec_u32_to_from_le_bytes();
    }
    assert(spec_u32_to_le_bytes(80u32).len() == 4) by {
        vstd::bytes::lemma_auto_spec_u32_to_from_le_bytes();
    }
    let d = spec_create_data();
    assert(spec_mint_params_bytes(
        spec_token_name(),
        spec_token_symbol(),
        spec_token_uri(),
        TOKEN_DECIMALS,
    ).len() == 111);
    assert(d.len() == 170);
    assert(d.subrange(120, 128) =~= spec_u64_to_le_bytes(SUPPLY));
    assert(d.subrange(128, 136) =~= spec_u64_to_le_bytes(TOTAL_BASE_SELL));
    assert(d.subrange(136, 144) =~= spec_u64_to_le_bytes(TOTAL_QUOTE_FUND_RAISING));
}

/// Appends a little-endian 64-bit integer.
fn push_u64_le(out: &mut Vec<u8>, x: u64)
    ensures
        final(out)@ == old(out)@ + spec_u64_to_le_bytes(x),
{
    let mut bytes = u64_to_le_bytes(x);
    out.append(&mut bytes);
}

/// Appends a length-prefixed byte-string field.
fn push_bytes_field(out: &mut Vec<u8>, b: &Vec<u8>)
    requires
        b@.len() <= u32::MAX,
    ensures
        final(out)@ == old(out)@ + spec_bytes_field(b@),
{
    let mut len_bytes = u32_to_le_bytes(b.len() as u32);
    out.append(&mut len_bytes);
    let mut copy = vstd::slice::slice_to_vec(b.as_slice());
    out.append(&mut copy);
    proof {
        assert(final(out)@ =~= old(out)@ + spec_bytes_field(b@));
    }
}

/// Builds the token-identity parameters fixed at build time: the display
/// name, symbol, metadata location, and decimal precision of the created
/// token.
pub fn fixed_mint_params() -> (p: MintParams)
    ensures
        p.name@ == spec_token_name(),
        p.symbol@ == spec_token_symbol(),
        p.uri@ == spec_token_uri(),
        p.decimals == TOKEN_DECIMALS,
{
    let name: Vec<u8> = vec![71u8, 108u8, 97u8, 109u8, 111u8, 114u8, 111u8, 117u8, 115u8, 32u8, 67u8, 97u8, 116u8, 115u8];
    let symbol: Vec<u8> = vec![71u8, 76u8, 65u8, 77u8];
    let uri: Vec<u8> = vec![104u8, 116u8, 116u8, 112u8, 115u8, 58u8, 47u8, 47u8, 105u8, 112u8, 102u8, 115u8, 46u8, 105u8, 111u8, 47u8, 105u8, 112u8, 102u8, 115u8, 47u8, 98u8, 97u8, 102u8, 107u8, 114u8, 101u8, 105u8, 103u8, 50u8, 97u8, 116u8, 111u8, 117u8, 98u8, 53u8, 104u8, 97u8, 112u8, 121u8, 53u8, 115u8, 55u8, 121u8, 109u8, 111u8, 111u8, 109u8, 119u8, 104u8, 114u8, 116u8, 116u8, 121u8, 109u8, 104u8, 105u8, 99u8, 116u8, 104u8, 117u8, 102u8, 116u8, 106u8, 107u8, 99u8, 121u8, 113u8, 54u8, 106u8, 103u8, 121u8, 102u8, 52u8, 121u8, 111u8, 101u8, 107u8, 120u8, 52u8];
    proof {
        assert(name@ =~= spec_token_name());
        assert(symbol@ =~= spec_token_symbol());
        assert(uri@ =~= spec_token_uri());
    }
    MintParams { name, symbol, uri, decimals: TOKEN_DECIMALS }
}

/// The UTF-8 bytes of the fixed token display name.
pub open spec fn spec_token_name() -> Seq<u8> {
    seq![71u8, 108u8, 97u8, 109u8, 111u8, 114u8, 111u8, 117u8, 115u8, 32u8, 67u8, 97u8, 116u8, 115u8]
}

/// The UTF-8 bytes of the fixed token symbol.
pub open spec fn spec_token_symbol() -> Seq<u8> {
    seq![71u8, 76u8, 65u8, 77u8]
}

/// The UTF-8 bytes of the fixed token metadata location.
pub open spec fn spec_token_uri() -> Seq<u8> {
    seq![104u8, 116u8, 116u8, 112u8, 115u8, 58u8, 47u8, 47u8, 105u8, 112u8, 102u8, 115u8, 46u8, 105u8, 111u8, 47u8, 105u8, 112u8, 102u8, 115u8, 47u8, 98u8, 97u8, 102u8, 107u8, 114u8, 101u8, 105u8, 103u8, 50u8, 97u8, 116u8, 111u8, 117u8, 98u8, 53u8, 104u8, 97u8, 112u8, 121u8, 53u8, 115u8, 55u8, 121u8, 109u8, 111u8, 111u8, 109u8, 119u8, 104u8, 114u8, 116u8, 116u8, 121u8, 109u8, 104u8, 105u8, 99u8, 116u8, 104u8, 117u8, 102u8, 116u8, 106u8, 107u8, 99u8, 121u8, 113u8, 54u8, 106u8, 103u8, 121u8, 102u8, 52u8, 121u8, 111u8, 101u8, 107u8, 120u8, 52u8]
}

/// The bonding-curve configuration fixed at build time, as a value.
pub open spec fn spec_fixed_curve() -> ConstantCurve {
    ConstantCurve {
        supply: SUPPLY,
        total_base_sell: TOTAL_BASE_SELL,
        total_quote_fund_raising: TOTAL_QUOTE_FUND_RAISING,
        migrate_type: MIGRATE_TYPE,
    }
}

/// The all-zero vesting schedule, as a value.
pub open spec fn spec_zero_vesting() -> VestingParams {
    VestingParams { total_locked_amount: 0, cliff_period: 0, unlock_period: 0 }
}

/// The exact parameter bytes of every create call this library assembles:
/// all parameter fields are fixed at build time.
pub open spec fn spec_create_data() -> Seq<u8> {
    spec_initialize_v2_data(
        spec_token_name(),
        spec_token_symbol(),
        spec_token_uri(),
        TOKEN_DECIMALS,
        spec_fixed_curve(),
        spec_zero_vesting(),
        AMM_FEE_ON_QUOTE_TOKEN_TAG,
    )
}

/// Builds the bonding-curve configuration fixed at build time. Its two
/// transported totals mirror the off-chain allocation store: the base amount
/// it intends to distribute and the quote amount it intends to raise.
pub fn fixed_constant_curve() -> (c: ConstantCurve)
    ensures
        c == spec_fixed_curve(),
{
    ConstantCurve {
        supply: SUPPLY,
        total_base_sell: TOTAL_BASE_SELL,
        total_quote_fund_raising: TOTAL_QUOTE_FUND_RAISING,
        migrate_type: MIGRATE_TYPE,
    }
}

/// Builds the all-zero vesting schedule of this deployment.
pub fn fixed_vesting_params() -> (v: VestingParams)
    ensures
        v == spec_zero_vesting(),
{
    VestingParams { total_locked_amount: 0, cliff_period: 0, unlock_period: 0 }
}

/// Encodes the full parameter bytes of the create call.
pub fn initialize_v2_data(
    params: &MintParams,
    curve: &ConstantCurve,
    vesting: &VestingParams,
    fee_on: u8,
) -> (r: Vec<u8>)
    requires
        params.name@.len() <= u32::MAX,
        params.symbol@.len() <= u32::MAX,
        params.uri@.len() <= u32::MAX,
    ensures
        r@ == spec_initialize_v2_data(
            params.name@,
            params.symbol@,
            params.uri@,
            params.decimals,
            *curve,
            *vesting,
            fee_on,
        ),
{
    let preimage: Vec<u8> = vec![103u8, 108u8, 111u8, 98u8, 97u8, 108u8, 58u8, 105u8, 110u8, 105u8, 116u8, 105u8, 97u8, 108u8, 105u8, 122u8, 101u8, 95u8, 118u8, 50u8];
    proof {
        assert(preimage@ =~= spec_initialize_v2_preimage());
    }
    let mut r = discriminator(&preimage);
    push_bytes_field(&mut r, &params.name);
    push_bytes_field(&mut r, &params.symbol);
    push_bytes_field(&mut r, &params.uri);
    r.push(params.decimals);
    r.push(CONSTANT_CURVE_TAG);
    push_u64_le(&mut r, curve.supply);
    push_u64_le(&mut r, curve.total_base_sell);
    push_u64_le(&mut r, curve.total_quote_fund_raising);
    r.push(curve.migrate_type);
    push_u64_le(&mut r, vesting.total_locked_amount);
    push_u64_le(&mut r, vesting.cliff_period);
    push_u64_le(&mut r, vesting.unlock_period);
    r.push(fee_on);
    proof {
        assert(r@ =~= spec_initialize_v2_data(
            params.name@,
            params.symbol@,
            params.uri@,
            params.decimals,
            *curve,
            *vesting,
            fee_on,
        ));
    }
    r
}

/// Encodes the full parameter bytes of the buy call. The slippage floor
/// `minimum_amount_out` is transported unchanged: the external program aborts
/// the whole call when the realized output would fall below it.
pub fn buy_exact_in_data(amount_in: u64, minimum_amount_out: u64, share_fee_rate: u64) -> (r: Vec<
    u8,
>)
    ensures
        r@ == spec_buy_exact_in_data(amount_in, minimum_amount_out, share_fee_rate),
{
    let preimage: Vec<u8> = vec![103u8, 108u8, 111u8, 98u8, 97u8, 108u8, 58u8, 98u8, 117u8, 121u8, 95u8, 101u8, 120u8, 97u8, 99u8, 116u8, 95u8, 105u8, 110u8];
    proof {
        assert(preimage@ =~= spec_buy_exact_in_preimage());
    }
    let mut r = discriminator(&preimage);
    push_u64_le(&mut r, amount_in);
    push_u64_le(&mut r, minimum_amount_out);
    push_u64_le(&mut r, share_fee_rate);
    proof {
        assert(r@ =~= spec_buy_exact_in_data(amount_in, minimum_amount_out, share_fee_rate));
    }
    r
}

} // verus!
