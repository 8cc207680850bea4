use crate::decimal::{
    add_fits, fp_add, fp_div, fp_from_u128, fp_is_zero, fp_le, fp_lt, fp_mul, lemma_add_signed,
    lemma_mul_whole, lemma_not_lt_signed, mul_fits, spec_add, spec_le, spec_lt, spec_mul, whole,
    zero_value, Decimal, DecimalValue,
};
use crate::error::{ContractError, Rejection};
use crate::lp_actions::utils::{
    fund_total_notional_fits, get_fund_total_notional, pro_rata, pro_rata_fits,
    spec_fund_total_notional,
};
use crate::market::{Coin, FundHoldings, Response};
use crate::records::Record;
use crate::state::{FundState, LPPosition, Timestamp};
use vstd::prelude::*;

verus! {

/// What the first subscription mints, whatever it deposits: `10^18` shares.
pub open spec fn baseline_shares() -> DecimalValue {
    whole(1_000_000_000_000_000_000)
}

/// The shares that a deposit mints: the baseline for the first subscription, and afterwards
/// the total supply times the deposit over the notional of the fund before the deposit. A
/// deposit that is not above zero is rejected, and so is one that mints nothing.
pub open spec fn spec_token_mint_data(
    total_quote_funds_supplied: DecimalValue,
    fund_total_notional: DecimalValue,
    lp_total_supply: DecimalValue,
) -> Result<DecimalValue, ContractError> {
    if lp_total_supply.is_zero() {
        Ok(baseline_shares())
    } else if spec_le(total_quote_funds_supplied, zero_value()) {
        Err(ContractError::Std(Rejection::NonPositiveDeposit))
    } else if pro_rata(lp_total_supply, total_quote_funds_supplied, fund_total_notional).is_zero() {
        Err(ContractError::Std(Rejection::InsufficientFundsToMint))
    } else {
        Ok(pro_rata(lp_total_supply, total_quote_funds_supplied, fund_total_notional))
    }
}

/// Where shares are minted at the price of the fund, product and quotient are in range.
pub open spec fn token_mint_fits(
    total_quote_funds_supplied: DecimalValue,
    fund_total_notional: DecimalValue,
    lp_total_supply: DecimalValue,
) -> bool {
    !lp_total_supply.is_zero() && !spec_le(total_quote_funds_supplied, zero_value())
        ==> pro_rata_fits(lp_total_supply, total_quote_funds_supplied, fund_total_notional)
}

/// Computes the shares to mint for a deposit.
pub fn get_token_mint_data(
    total_quote_funds_supplied: Decimal,
    fund_total_notional: Decimal,
    lp_total_supply: Decimal,
) -> (r: Result<Decimal, ContractError>)
    requires
        token_mint_fits(total_quote_funds_supplied@, fund_total_notional@, lp_total_supply@),
    ensures
        match r {
            Ok(v) => Ok::<DecimalValue, ContractError>(v@),
            Err(e) => Err(e),
        } == spec_token_mint_data(
            total_quote_funds_supplied@,
            fund_total_notional@,
            lp_total_supply@,
        ),
{
    let is_first_subscription = fp_is_zero(lp_total_supply);
    if is_first_subscription {
        return Ok(fp_from_u128(1_000_000_000_000_000_000u128));
    }
    if fp_le(total_quote_funds_supplied, Decimal::zero()) {
        return Err(ContractError::Std(Rejection::NonPositiveDeposit));
    }
    let lp_shares_to_mint = fp_div(
        fp_mul(lp_total_supply, total_quote_funds_supplied),
        fund_total_notional,
    );
    if fp_is_zero(lp_shares_to_mint) {
        return Err(ContractError::Std(Rejection::InsufficientFundsToMint));
    }
    Ok(lp_shares_to_mint)
}

/// The admin's share count after `sender` has been given `minted` shares.
pub open spec fn admin_owned_after_mint(
    state: FundState,
    sender: Seq<char>,
    minted: DecimalValue,
) -> DecimalValue {
    if sender == state.config.admin@ {
        spec_add(state.admin_owned_shares@, minted)
    } else {
        state.admin_owned_shares@
    }
}

/// The admin owns less than a tenth of `total`, by the order of the decimal type.
pub open spec fn below_admin_floor(admin_owned: DecimalValue, total: DecimalValue) -> bool {
    spec_lt(spec_mul(admin_owned, whole(10)), total)
}

/// Tells whether the admin owns less than a tenth of `lp_total_supply`. Where the answer is no,
/// ten times the admin's shares are at least the total in number.
pub fn is_admin_below_floor(admin_owned_shares: Decimal, lp_total_supply: Decimal) -> (r: bool)
    requires
        mul_fits(admin_owned_shares@, whole(10)),
    ensures
        r == below_admin_floor(admin_owned_shares@, lp_total_supply@),
        !r ==> admin_owned_shares@.signed() * 10 >= lp_total_supply@.signed(),
{
    proof {
        lemma_mul_whole(admin_owned_shares@, 10);
        if !below_admin_floor(admin_owned_shares@, lp_total_supply@) {
            lemma_not_lt_signed(spec_mul(admin_owned_shares@, whole(10)), lp_total_supply@);
        }
    }
    fp_lt(fp_mul(admin_owned_shares, fp_from_u128(10)), lp_total_supply)
}

/// Whether a subscription is stored: not for a holder who has a position, and not where it
/// would leave the admin below a tenth of the new total.
pub open spec fn spec_store_subscription(
    state: FundState,
    sender: Seq<char>,
    minted: DecimalValue,
) -> Result<(), ContractError> {
    if state.lp_positions@.contains_key(sender) {
        Err(ContractError::Std(Rejection::AlreadySubscribed))
    } else if below_admin_floor(
        admin_owned_after_mint(state, sender, minted),
        spec_add(state.lp_total_supply@, minted),
    ) {
        Err(ContractError::Std(Rejection::AdminBelowFloor))
    } else {
        Ok(())
    }
}

/// For a holder without a position, the new totals and ten times the admin's count are in
/// range.
pub open spec fn store_subscription_fits(
    state: FundState,
    sender: Seq<char>,
    minted: DecimalValue,
) -> bool {
    !state.lp_positions@.contains_key(sender) ==> {
        &&& add_fits(state.lp_total_supply@, minted)
        &&& sender == state.config.admin@ ==> add_fits(state.admin_owned_shares@, minted)
        &&& mul_fits(admin_owned_after_mint(state, sender, minted), whole(10))
    }
}

/// `after` is `before` with one more position: `sender` holds `minted` shares from `now` on
/// for a deposit of `amount`, the total has grown by them, and so has the admin's count where
/// the admin is the sender. Nothing else has changed.
pub open spec fn subscription_stored(
    before: FundState,
    after: FundState,
    now: Timestamp,
    sender: String,
    minted: DecimalValue,
    amount: DecimalValue,
) -> bool {
    &&& after.config == before.config
    &&& after.denom_decimals == before.denom_decimals
    &&& after.admin_fee_positions == before.admin_fee_positions
    &&& after.is_fund_closed == before.is_fund_closed
    &&& after.lp_total_supply@ == spec_add(before.lp_total_supply@, minted)
    &&& after.admin_owned_shares@ == admin_owned_after_mint(before, sender@, minted)
    &&& after.lp_positions@.contains_key(sender@)
    &&& after.lp_positions@[sender@].shares@ == minted
    &&& after.lp_positions@[sender@].subscription_time == now
    &&& after.lp_positions@[sender@].subscription_amount@ == amount
    &&& after.lp_positions@ == before.lp_positions@.insert(sender@, after.lp_positions@[sender@])
    &&& after.lp_positions.items() == before.lp_positions.items().push(
        Record { key: sender, value: after.lp_positions@[sender@] },
    )
}

/// Records a new position for `sender` and raises the totals, unless the holder has one
/// already or the admin would be left with less than a tenth of the fund.
pub fn store_subscription(
    state: &mut FundState,
    now: Timestamp,
    sender: &String,
    lp_shares_to_mint: Decimal,
    total_quote_funds_supplied: Decimal,
) -> (r: Result<(), ContractError>)
    requires
        store_subscription_fits(*old(state), sender@, lp_shares_to_mint@),
    ensures
        r == spec_store_subscription(*old(state), sender@, lp_shares_to_mint@),
        r.is_err() ==> *final(state) == *old(state),
        r.is_ok() ==> subscription_stored(
            *old(state),
            *final(state),
            now,
            *sender,
            lp_shares_to_mint@,
            total_quote_funds_supplied@,
        ),
        r.is_ok() ==> final(state).admin_floor_holds(),
        r.is_ok() && old(state).shares_conserved() ==> final(state).shares_conserved(),
        r.is_ok() && old(state).admin_shares_tracked() ==> final(state).admin_shares_tracked(),
{
    if state.lp_positions.get(sender).is_some() {
        return Err(ContractError::Std(Rejection::AlreadySubscribed));
    }
    let new_lp_total_supply = fp_add(state.lp_total_supply, lp_shares_to_mint);
    let is_subscriber_the_admin = *sender == state.config.admin;
    let admin_owned_shares = if is_subscriber_the_admin {
        fp_add(state.admin_owned_shares, lp_shares_to_mint)
    } else {
        state.admin_owned_shares
    };
    let is_admin_owned_shares_below_10_percent = is_admin_below_floor(
        admin_owned_shares,
        new_lp_total_supply,
    );
    if is_admin_owned_shares_below_10_percent {
        return Err(ContractError::Std(Rejection::AdminBelowFloor));
    }
    let position = LPPosition {
        shares: lp_shares_to_mint,
        subscription_time: now,
        subscription_amount: total_quote_funds_supplied,
    };
    state.lp_positions.insert(sender.clone(), position);
    state.lp_total_supply = new_lp_total_supply;
    state.admin_owned_shares = admin_owned_shares;
    proof {
        lemma_add_signed(old(state).lp_total_supply@, lp_shares_to_mint@);
        lemma_add_signed(old(state).admin_owned_shares@, lp_shares_to_mint@);
        let pushed = old(state).lp_positions.items().push(Record { key: *sender, value: position });
        assert(pushed.drop_last() =~= old(state).lp_positions.items());
    }
    Ok(())
}

/// Some coin is of another asset than `quote_denom`.
pub open spec fn has_invalid_coins(coins: Seq<Coin>, quote_denom: Seq<char>) -> bool {
    exists|i: int| 0 <= i < coins.len() && (#[trigger] coins[i]).denom@ != quote_denom
}

/// The deposit that counts where every coin is of the quote asset: the amount of the last
/// coin, and nothing where no coin came.
pub open spec fn supplied_amount(coins: Seq<Coin>) -> nat {
    if coins.len() == 0 {
        0
    } else {
        coins.last().amount as nat
    }
}

/// The shares that a subscription would mint, or the reason for which it is turned down
/// before anything is stored: a closed fund, a coin of another asset, a holding with a
/// negative balance, or a deposit that mints nothing.
pub open spec fn spec_subscription_mint(
    state: FundState,
    coins: Seq<Coin>,
    holdings: FundHoldings,
) -> Result<DecimalValue, ContractError> {
    if state.is_fund_closed {
        Err(ContractError::Std(Rejection::FundClosed))
    } else if has_invalid_coins(coins, state.config.quote_denom@) {
        Err(ContractError::Std(Rejection::InvalidCoinDenomination))
    } else {
        match spec_fund_total_notional(
            state.denom_decimals@[state.config.quote_denom@],
            state.denom_decimals@,
            holdings,
        ) {
            Err(e) => Err(e),
            Ok(notional) => spec_token_mint_data(
                whole(supplied_amount(coins)),
                notional,
                state.lp_total_supply@,
            ),
        }
    }
}

/// The outcome of a subscription: what turns it down, or nothing.
pub open spec fn spec_subscription(
    state: FundState,
    sender: Seq<char>,
    coins: Seq<Coin>,
    holdings: FundHoldings,
) -> Result<(), ContractError> {
    match spec_subscription_mint(state, coins, holdings) {
        Err(e) => Err(e),
        Ok(minted) => spec_store_subscription(state, sender, minted),
    }
}

/// What a subscription into an open fund with coins of the quote asset needs: the precision
/// of the quote asset, and every step of valuation, minting and storing in range.
pub open spec fn subscription_fits(
    state: FundState,
    sender: Seq<char>,
    coins: Seq<Coin>,
    holdings: FundHoldings,
) -> bool {
    !state.is_fund_closed && !has_invalid_coins(coins, state.config.quote_denom@) ==> {
        &&& state.denom_decimals@.contains_key(state.config.quote_denom@)
        &&& fund_total_notional_fits(
            state.denom_decimals@[state.config.quote_denom@],
            state.denom_decimals@,
            holdings,
        )
        &&& spec_fund_total_notional(
            state.denom_decimals@[state.config.quote_denom@],
            state.denom_decimals@,
            holdings,
        ) matches Ok(notional) ==> {
            &&& token_mint_fits(whole(supplied_amount(coins)), notional, state.lp_total_supply@)
            &&& spec_token_mint_data(
                whole(supplied_amount(coins)),
                notional,
                state.lp_total_supply@,
            ) matches Ok(minted) ==> store_subscription_fits(state, sender, minted)
        }
    }
}

/// Takes a deposit from `sender` at time `now`: prices the fund as it stands before the
/// deposit, mints shares at that price and records the new position. A call that is turned
/// down leaves the fund as it was.
pub fn get_fund_subscription_response(
    state: &mut FundState,
    now: Timestamp,
    sender: &String,
    total_funds_supplied: &Vec<Coin>,
    holdings: &FundHoldings,
) -> (r: Result<Response, ContractError>)
    requires
        subscription_fits(*old(state), sender@, total_funds_supplied@, *holdings),
    ensures
        match r {
            Ok(_) => Ok::<(), ContractError>(()),
            Err(e) => Err(e),
        } == spec_subscription(*old(state), sender@, total_funds_supplied@, *holdings),
        r matches Err(_) ==> *final(state) == *old(state),
        r matches Ok(response) ==> response.is_empty() && subscription_stored(
            *old(state),
            *final(state),
            now,
            *sender,
            spec_subscription_mint(*old(state), total_funds_supplied@, *holdings).unwrap(),
            whole(supplied_amount(total_funds_supplied@)),
        ),
        r.is_ok() ==> final(state).admin_floor_holds(),
        r.is_ok() && old(state).shares_conserved() ==> final(state).shares_conserved(),
        r.is_ok() && old(state).admin_shares_tracked() ==> final(state).admin_shares_tracked(),
{
    if state.is_fund_closed {
        return Err(ContractError::Std(Rejection::FundClosed));
    }
    let mut has_invalid = false;
    let mut total_quote_funds_supplied: u128 = 0;
    let mut i: usize = 0;
    while i < total_funds_supplied.len()
        invariant
            i <= total_funds_supplied@.len(),
            *state == *old(state),
            has_invalid == has_invalid_coins(
                total_funds_supplied@.take(i as int),
                state.config.quote_denom@,
            ),
            !has_invalid ==> total_quote_funds_supplied == supplied_amount(
                total_funds_supplied@.take(i as int),
            ),
        decreases total_funds_supplied@.len() - i,
    {
        let ghost before = total_funds_supplied@.take(i as int);
        let ghost after = total_funds_supplied@.take(i + 1);
        proof {
            assert(after.drop_last() =~= before);
            assert(after.last() == total_funds_supplied@[i as int]);
            if has_invalid_coins(before, state.config.quote_denom@) {
                let k = choose|k: int|
                    0 <= k < before.len() && (#[trigger] before[k]).denom@
                        != state.config.quote_denom@;
                assert(after[k] == before[k]);
            }
            if has_invalid_coins(after, state.config.quote_denom@) {
                let k = choose|k: int|
                    0 <= k < after.len() && (#[trigger] after[k]).denom@
                        != state.config.quote_denom@;
                if k < i {
                    assert(before[k] == after[k]);
                }
            }
        }
        if total_funds_supplied[i].denom == state.config.quote_denom {
            total_quote_funds_supplied = total_funds_supplied[i].amount;
        } else {
            has_invalid = true;
            proof {
                assert(after[i as int].denom@ != state.config.quote_denom@);
            }
        }
        i += 1;
    }
    proof {
        assert(total_funds_supplied@.take(i as int) =~= total_funds_supplied@);
    }
    if has_invalid {
        return Err(ContractError::Std(Rejection::InvalidCoinDenomination));
    }
    let fund_total_notional = match get_fund_total_notional(
        &state.config,
        &state.denom_decimals,
        holdings,
    ) {
        Ok(v) => v,
        Err(e) => {
            return Err(e);
        },
    };
    let supplied = fp_from_u128(total_quote_funds_supplied);
    let lp_shares_to_mint = match get_token_mint_data(
        supplied,
        fund_total_notional,
        state.lp_total_supply,
    ) {
        Ok(v) => v,
        Err(e) => {
            return Err(e);
        },
    };
    match store_subscription(state, now, sender, lp_shares_to_mint, supplied) {
        Ok(()) => Ok(Response::new()),
        Err(e) => Err(e),
    }
}

} // verus!
