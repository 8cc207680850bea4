use crate::decimal::{
    add_fits, div_fits, fp_add, fp_div, fp_lt, fp_mul, fp_to_u128, mul_fits, scale, spec_add,
    spec_div, spec_lt, spec_mul, zero_value, Decimal, DecimalValue,
};
use crate::error::{ContractError, Rejection};
use crate::lp_actions::derivative_position_helpers::{
    apply_funding_fits, apply_funding_to_position, get_vault_estimated_position_notional,
    position_notional_fits, position_view, spec_apply_funding, spec_position_notional,
};
use crate::lp_actions::oracle_price::{get_oracle_price, oracle_price_fits, spec_oracle_price};
use crate::market::{Coin, DerivativeHolding, FundHoldings, SpotHolding};
use crate::records::Records;
use crate::state::Config;
use vstd::prelude::*;

verus! {

/// The part of `amount` that falls to `shares` out of `total`: the product is cut first, the
/// quotient after.
pub open spec fn pro_rata(
    amount: DecimalValue,
    shares: DecimalValue,
    total: DecimalValue,
) -> DecimalValue {
    spec_div(spec_mul(amount, shares), total)
}

/// Product and quotient of a pro-rata part are in range, and the total is not zero.
pub open spec fn pro_rata_fits(
    amount: DecimalValue,
    shares: DecimalValue,
    total: DecimalValue,
) -> bool {
    mul_fits(amount, shares) && div_fits(spec_mul(amount, shares), total)
}

/// A decimal as a coin amount: the whole part of its magnitude.
pub open spec fn coin_amount(d: DecimalValue) -> nat {
    d.magnitude / scale()
}

/// The amount of base asset that counts: the whole balance in a valuation, the part of the
/// shares that are burned in a redemption.
pub open spec fn spot_amount(
    holding: SpotHolding,
    redemption_data: Option<(Decimal, Decimal)>,
) -> DecimalValue {
    match redemption_data {
        Some((lp_shares_to_burn, lp_total_supply)) => pro_rata(
            holding.base_balance@,
            lp_shares_to_burn@,
            lp_total_supply@,
        ),
        None => holding.base_balance@,
    }
}

/// The coin that a redemption returns from a spot holding.
pub open spec fn spot_coin(holding: SpotHolding, redemption_data: Option<(Decimal, Decimal)>) -> Coin {
    Coin {
        denom: holding.base_denom,
        amount: coin_amount(spot_amount(holding, redemption_data)) as u128,
    }
}

/// The value of a spot holding in the quote asset, or the rejection of a negative balance.
pub open spec fn spec_spot_base_in_quote(
    holding: SpotHolding,
    base_decimals: u64,
    quote_decimals: u64,
    redemption_data: Option<(Decimal, Decimal)>,
) -> Result<DecimalValue, ContractError> {
    if spec_lt(holding.base_balance@, zero_value()) {
        Err(ContractError::Std(Rejection::NegativeBaseDeposits))
    } else {
        Ok(
            spec_mul(
                spot_amount(holding, redemption_data),
                spec_oracle_price(holding.raw_oracle_price@, base_decimals, quote_decimals),
            ),
        )
    }
}

/// Every step of the valuation of a spot holding whose balance is not negative is in range.
pub open spec fn spot_fits(
    holding: SpotHolding,
    base_decimals: u64,
    quote_decimals: u64,
    redemption_data: Option<(Decimal, Decimal)>,
) -> bool {
    !spec_lt(holding.base_balance@, zero_value()) ==> {
        &&& oracle_price_fits(holding.raw_oracle_price@, base_decimals, quote_decimals)
        &&& redemption_data matches Some((lp_shares_to_burn, lp_total_supply)) ==> {
            &&& pro_rata_fits(holding.base_balance@, lp_shares_to_burn@, lp_total_supply@)
            &&& coin_amount(spot_amount(holding, redemption_data)) <= u128::MAX
        }
        &&& mul_fits(
            spot_amount(holding, redemption_data),
            spec_oracle_price(holding.raw_oracle_price@, base_decimals, quote_decimals),
        )
    }
}

/// Values the fund's holding in one spot market in the quote asset. In a redemption
/// (`redemption_data` holds the shares to burn and the total supply) only the part of the
/// burned shares counts, and the coin to return is added to `funds_to_return`.
pub fn get_spot_base_in_quote(
    holding: &SpotHolding,
    denom_decimals: &Records<u64>,
    quote_decimals: u64,
    redemption_data: Option<(Decimal, Decimal)>,
    funds_to_return: &mut Vec<Coin>,
) -> (r: Result<Decimal, ContractError>)
    requires
        denom_decimals@.contains_key(holding.base_denom@),
        spot_fits(*holding, denom_decimals@[holding.base_denom@], quote_decimals, redemption_data),
    ensures
        match r {
            Ok(v) => Ok::<DecimalValue, ContractError>(v@),
            Err(e) => Err(e),
        } == spec_spot_base_in_quote(
            *holding,
            denom_decimals@[holding.base_denom@],
            quote_decimals,
            redemption_data,
        ),
        final(funds_to_return)@ == if r.is_ok() && redemption_data.is_some() {
            old(funds_to_return)@.push(spot_coin(*holding, redemption_data))
        } else {
            old(funds_to_return)@
        },
{
    let base_decimals = denom_decimals.get(&holding.base_denom).unwrap();
    if fp_lt(holding.base_balance, Decimal::zero()) {
        return Err(ContractError::Std(Rejection::NegativeBaseDeposits));
    }
    let oracle_price = get_oracle_price(holding.raw_oracle_price, base_decimals, quote_decimals);
    match redemption_data {
        Some((lp_shares_to_burn, lp_total_supply)) => {
            let base_withdrawal_amount = fp_div(
                fp_mul(holding.base_balance, lp_shares_to_burn),
                lp_total_supply,
            );
            funds_to_return.push(
                Coin {
                    denom: holding.base_denom.clone(),
                    amount: fp_to_u128(base_withdrawal_amount),
                },
            );
            Ok(fp_mul(base_withdrawal_amount, oracle_price))
        },
        None => Ok(fp_mul(holding.base_balance, oracle_price)),
    }
}

/// The value of the fund's position in a derivative market, funding settled first.
pub open spec fn spec_derivative_base_in_quote(holding: DerivativeHolding) -> DecimalValue {
    spec_position_notional(
        spec_apply_funding(position_view(holding.position), holding.market),
        holding.market,
    )
}

/// Funding and valuation of a derivative holding are in range, and a market in which the
/// fund has a position reports its cumulative funding.
pub open spec fn derivative_fits(holding: DerivativeHolding) -> bool {
    &&& apply_funding_fits(position_view(holding.position), holding.market)
    &&& position_notional_fits(
        spec_apply_funding(position_view(holding.position), holding.market),
        holding.market,
    )
}

/// Values the fund's holding in one derivative market in the quote asset.
pub fn get_derivative_base_in_quote(holding: &DerivativeHolding) -> (r: Decimal)
    requires
        derivative_fits(*holding),
    ensures
        r@ == spec_derivative_base_in_quote(*holding),
{
    let mut vault_position = holding.position;
    apply_funding_to_position(&mut vault_position, &holding.market);
    get_vault_estimated_position_notional(&vault_position, &holding.market)
}

/// `start` and the values of the first `n` spot holdings, or the first rejection among them.
pub open spec fn spot_total(
    start: DecimalValue,
    spot: Seq<SpotHolding>,
    decimals: Map<Seq<char>, u64>,
    quote_decimals: u64,
    redemption_data: Option<(Decimal, Decimal)>,
    n: nat,
) -> Result<DecimalValue, ContractError>
    decreases n,
{
    if n == 0 {
        Ok(start)
    } else {
        match spot_total(start, spot, decimals, quote_decimals, redemption_data, (n - 1) as nat) {
            Err(e) => Err(e),
            Ok(sum) => match spec_spot_base_in_quote(
                spot[n - 1],
                decimals[spot[n - 1].base_denom@],
                quote_decimals,
                redemption_data,
            ) {
                Err(e) => Err(e),
                Ok(v) => Ok(spec_add(sum, v)),
            },
        }
    }
}

/// Every step on the way to `spot_total` is in range, and the precision of every base asset
/// that is reached is known.
pub open spec fn spot_total_fits(
    start: DecimalValue,
    spot: Seq<SpotHolding>,
    decimals: Map<Seq<char>, u64>,
    quote_decimals: u64,
    redemption_data: Option<(Decimal, Decimal)>,
    n: nat,
) -> bool
    decreases n,
{
    n == 0 || {
        &&& spot_total_fits(start, spot, decimals, quote_decimals, redemption_data, (n - 1) as nat)
        &&& spot_total(start, spot, decimals, quote_decimals, redemption_data, (n - 1) as nat)
            matches Ok(sum) ==> {
            &&& decimals.contains_key(spot[n - 1].base_denom@)
            &&& spot_fits(
                spot[n - 1],
                decimals[spot[n - 1].base_denom@],
                quote_decimals,
                redemption_data,
            )
            &&& spec_spot_base_in_quote(
                spot[n - 1],
                decimals[spot[n - 1].base_denom@],
                quote_decimals,
                redemption_data,
            ) matches Ok(v) ==> add_fits(sum, v)
        }
    }
}

/// The coins that a redemption returns from the first `n` spot holdings.
pub open spec fn spot_coins(
    spot: Seq<SpotHolding>,
    redemption_data: Option<(Decimal, Decimal)>,
    n: nat,
) -> Seq<Coin>
    decreases n,
{
    if n == 0 {
        Seq::empty()
    } else {
        spot_coins(spot, redemption_data, (n - 1) as nat).push(
            spot_coin(spot[n - 1], redemption_data),
        )
    }
}

/// `start` and the values of the first `n` derivative holdings.
pub open spec fn derivative_total(
    start: DecimalValue,
    derivatives: Seq<DerivativeHolding>,
    n: nat,
) -> DecimalValue
    decreases n,
{
    if n == 0 {
        start
    } else {
        spec_add(
            derivative_total(start, derivatives, (n - 1) as nat),
            spec_derivative_base_in_quote(derivatives[n - 1]),
        )
    }
}

/// Every step on the way to `derivative_total` is in range.
pub open spec fn derivative_total_fits(
    start: DecimalValue,
    derivatives: Seq<DerivativeHolding>,
    n: nat,
) -> bool
    decreases n,
{
    n == 0 || {
        &&& derivative_total_fits(start, derivatives, (n - 1) as nat)
        &&& derivative_fits(derivatives[n - 1])
        &&& add_fits(
            derivative_total(start, derivatives, (n - 1) as nat),
            spec_derivative_base_in_quote(derivatives[n - 1]),
        )
    }
}

/// The notional of the whole fund in the quote asset: the quote balance, the value of every
/// spot holding and the value of every derivative position. A negative quote balance is
/// rejected, and so is the first negative base balance.
pub open spec fn spec_fund_total_notional(
    quote_decimals: u64,
    decimals: Map<Seq<char>, u64>,
    holdings: FundHoldings,
) -> Result<DecimalValue, ContractError> {
    if spec_lt(holdings.quote_balance@, zero_value()) {
        Err(ContractError::Std(Rejection::NegativeQuoteDeposits))
    } else {
        match spot_total(
            holdings.quote_balance@,
            holdings.spot@,
            decimals,
            quote_decimals,
            None,
            holdings.spot@.len(),
        ) {
            Err(e) => Err(e),
            Ok(sum) => Ok(derivative_total(sum, holdings.derivatives@, holdings.derivatives@.len())),
        }
    }
}

/// Every step of the valuation of a fund whose quote balance is not negative is in range.
pub open spec fn fund_total_notional_fits(
    quote_decimals: u64,
    decimals: Map<Seq<char>, u64>,
    holdings: FundHoldings,
) -> bool {
    !spec_lt(holdings.quote_balance@, zero_value()) ==> {
        &&& spot_total_fits(
            holdings.quote_balance@,
            holdings.spot@,
            decimals,
            quote_decimals,
            None,
            holdings.spot@.len(),
        )
        &&& spot_total(
            holdings.quote_balance@,
            holdings.spot@,
            decimals,
            quote_decimals,
            None,
            holdings.spot@.len(),
        ) matches Ok(sum) ==> derivative_total_fits(
            sum,
            holdings.derivatives@,
            holdings.derivatives@.len(),
        )
    }
}

/// The view of a result that holds a decimal.
pub open spec fn result_view(r: Result<Decimal, ContractError>) -> Result<
    DecimalValue,
    ContractError,
> {
    match r {
        Ok(v) => Ok(v@),
        Err(e) => Err(e),
    }
}

/// Values everything the fund holds in the quote asset.
pub fn get_fund_total_notional(
    config: &Config,
    denom_decimals: &Records<u64>,
    holdings: &FundHoldings,
) -> (r: Result<Decimal, ContractError>)
    requires
        denom_decimals@.contains_key(config.quote_denom@),
        fund_total_notional_fits(
            denom_decimals@[config.quote_denom@],
            denom_decimals@,
            *holdings,
        ),
    ensures
        result_view(r) == spec_fund_total_notional(
            denom_decimals@[config.quote_denom@],
            denom_decimals@,
            *holdings,
        ),
{
    let quote_decimals = denom_decimals.get(&config.quote_denom).unwrap();
    if fp_lt(holdings.quote_balance, Decimal::zero()) {
        return Err(ContractError::Std(Rejection::NegativeQuoteDeposits));
    }
    let mut vault_total_notional = holdings.quote_balance;
    let mut nothing_to_return: Vec<Coin> = Vec::new();
    let mut i: usize = 0;
    while i < holdings.spot.len()
        invariant
            i <= holdings.spot@.len(),
            denom_decimals@.contains_key(config.quote_denom@),
            quote_decimals == denom_decimals@[config.quote_denom@],
            !spec_lt(holdings.quote_balance@, zero_value()),
            spot_total_fits(
                holdings.quote_balance@,
                holdings.spot@,
                denom_decimals@,
                quote_decimals,
                None,
                holdings.spot@.len(),
            ),
            spot_total(
                holdings.quote_balance@,
                holdings.spot@,
                denom_decimals@,
                quote_decimals,
                None,
                i as nat,
            ) == Ok::<DecimalValue, ContractError>(vault_total_notional@),
        decreases holdings.spot@.len() - i,
    {
        proof {
            lemma_spot_total_fits_prefix(
                holdings.quote_balance@,
                holdings.spot@,
                denom_decimals@,
                quote_decimals,
                None,
                holdings.spot@.len(),
                (i + 1) as nat,
            );
        }
        match get_spot_base_in_quote(
            &holdings.spot[i],
            denom_decimals,
            quote_decimals,
            None,
            &mut nothing_to_return,
        ) {
            Ok(v) => {
                vault_total_notional = fp_add(vault_total_notional, v);
            },
            Err(e) => {
                proof {
                    assert(spot_total(
                        holdings.quote_balance@,
                        holdings.spot@,
                        denom_decimals@,
                        quote_decimals,
                        None,
                        (i + 1) as nat,
                    ) == Err::<DecimalValue, ContractError>(e));
                    lemma_spot_total_error(
                        holdings.quote_balance@,
                        holdings.spot@,
                        denom_decimals@,
                        quote_decimals,
                        None,
                        (i + 1) as nat,
                        holdings.spot@.len(),
                    );
                }
                return Err(e);
            },
        }
        i += 1;
    }
    let ghost spot_sum = vault_total_notional@;
    let mut j: usize = 0;
    while j < holdings.derivatives.len()
        invariant
            j <= holdings.derivatives@.len(),
            derivative_total_fits(spot_sum, holdings.derivatives@, holdings.derivatives@.len()),
            derivative_total(spot_sum, holdings.derivatives@, j as nat) == vault_total_notional@,
        decreases holdings.derivatives@.len() - j,
    {
        proof {
            lemma_derivative_total_fits_prefix(
                spot_sum,
                holdings.derivatives@,
                holdings.derivatives@.len(),
                (j + 1) as nat,
            );
        }
        let v = get_derivative_base_in_quote(&holdings.derivatives[j]);
        vault_total_notional = fp_add(vault_total_notional, v);
        j += 1;
    }
    Ok(vault_total_notional)
}

/// What is in range for `n` holdings is in range for fewer.
pub proof fn lemma_spot_total_fits_prefix(
    start: DecimalValue,
    spot: Seq<SpotHolding>,
    decimals: Map<Seq<char>, u64>,
    quote_decimals: u64,
    redemption_data: Option<(Decimal, Decimal)>,
    n: nat,
    m: nat,
)
    requires
        spot_total_fits(start, spot, decimals, quote_decimals, redemption_data, n),
        m <= n,
    ensures
        spot_total_fits(start, spot, decimals, quote_decimals, redemption_data, m),
    decreases n,
{
    if m < n {
        lemma_spot_total_fits_prefix(
            start,
            spot,
            decimals,
            quote_decimals,
            redemption_data,
            (n - 1) as nat,
            m,
        );
    }
}

/// A rejection among the first `m` holdings is the rejection of any longer run.
pub proof fn lemma_spot_total_error(
    start: DecimalValue,
    spot: Seq<SpotHolding>,
    decimals: Map<Seq<char>, u64>,
    quote_decimals: u64,
    redemption_data: Option<(Decimal, Decimal)>,
    m: nat,
    n: nat,
)
    requires
        spot_total(start, spot, decimals, quote_decimals, redemption_data, m).is_err(),
        m <= n,
    ensures
        spot_total(start, spot, decimals, quote_decimals, redemption_data, n) == spot_total(
            start,
            spot,
            decimals,
            quote_decimals,
            redemption_data,
            m,
        ),
    decreases n,
{
    if m < n {
        lemma_spot_total_error(
            start,
            spot,
            decimals,
            quote_decimals,
            redemption_data,
            m,
            (n - 1) as nat,
        );
    }
}

/// What is in range for `n` holdings is in range for fewer.
proof fn lemma_derivative_total_fits_prefix(
    start: DecimalValue,
    derivatives: Seq<DerivativeHolding>,
    n: nat,
    m: nat,
)
    requires
        derivative_total_fits(start, derivatives, n),
        m <= n,
    ensures
        derivative_total_fits(start, derivatives, m),
    decreases n,
{
    if m < n {
        lemma_derivative_total_fits_prefix(start, derivatives, (n - 1) as nat, m);
    }
}

} // verus!
