use crate::decimal::{
    fp_from_u128, fp_mul, fp_sub, fp_ten_pow, mul_fits, scale, spec_mul, spec_sub, spec_ten_pow,
    ten_exponent_fits, whole, Decimal, DecimalValue,
};
use vstd::arithmetic::div_mod::lemma_mod_multiples_basic;
use vstd::prelude::*;

verus! {

/// By how many decimals the quote asset is finer than the base asset, as a decimal.
pub open spec fn decimals_gap(base_decimals: u64, quote_decimals: u64) -> DecimalValue {
    spec_sub(whole(quote_decimals as nat), whole(base_decimals as nat))
}

/// The factor that brings a raw price to the precision of the two assets:
/// `10^(quote_decimals - base_decimals)`.
pub open spec fn decimals_factor(base_decimals: u64, quote_decimals: u64) -> DecimalValue {
    spec_ten_pow(decimals_gap(base_decimals, quote_decimals))
}

/// The raw price times the factor of the two precisions.
pub open spec fn spec_oracle_price(
    raw_oracle_price: DecimalValue,
    base_decimals: u64,
    quote_decimals: u64,
) -> DecimalValue {
    spec_mul(raw_oracle_price, decimals_factor(base_decimals, quote_decimals))
}

/// The adjusted price is in range when the quote asset has at most 59 decimals more than the
/// base asset and the product fits.
pub open spec fn oracle_price_fits(
    raw_oracle_price: DecimalValue,
    base_decimals: u64,
    quote_decimals: u64,
) -> bool {
    &&& quote_decimals - base_decimals <= 59
    &&& mul_fits(raw_oracle_price, decimals_factor(base_decimals, quote_decimals))
}

/// The gap of two precisions is the whole number `quote_decimals - base_decimals`.
pub proof fn lemma_decimals_gap(base_decimals: u64, quote_decimals: u64)
    ensures
        decimals_gap(base_decimals, quote_decimals).negative == (quote_decimals < base_decimals),
        decimals_gap(base_decimals, quote_decimals).signed() == (quote_decimals - base_decimals)
            * scale(),
        decimals_gap(base_decimals, quote_decimals).magnitude % scale() == 0,
{
    let g = decimals_gap(base_decimals, quote_decimals);
    let q = quote_decimals as int;
    let b = base_decimals as int;
    let s = scale() as int;
    assert(q * s - b * s == (q - b) * s) by (nonlinear_arith);
    assert(b * s - q * s == (b - q) * s) by (nonlinear_arith);
    if q > b {
        assert((q - b) * s > 0) by (nonlinear_arith)
            requires
                q - b > 0,
                s > 0,
        ;
        lemma_mod_multiples_basic(q - b, s);
    } else {
        assert((b - q) * s >= 0) by (nonlinear_arith)
            requires
                b - q >= 0,
                s > 0,
        ;
        lemma_mod_multiples_basic(b - q, s);
    }
}

/// Brings the raw oracle price of a base asset to the precision of the two assets.
pub fn get_oracle_price(raw_oracle_price: Decimal, base_decimals: u64, quote_decimals: u64) -> (r:
    Decimal)
    requires
        oracle_price_fits(raw_oracle_price@, base_decimals, quote_decimals),
    ensures
        r@ == spec_oracle_price(raw_oracle_price@, base_decimals, quote_decimals),
{
    let base_decimals_fp = fp_from_u128(base_decimals as u128);
    let quote_decimals_fp = fp_from_u128(quote_decimals as u128);
    proof {
        lemma_decimals_gap(base_decimals, quote_decimals);
        let g = decimals_gap(base_decimals, quote_decimals);
        if !g.negative {
            assert((quote_decimals - base_decimals) * scale() <= 59 * scale()) by (nonlinear_arith)
                requires
                    quote_decimals - base_decimals <= 59,
            ;
        }
        assert(ten_exponent_fits(g));
    }
    let exponent = fp_sub(quote_decimals_fp, base_decimals_fp);
    fp_mul(raw_oracle_price, fp_ten_pow(exponent))
}

} // verus!
