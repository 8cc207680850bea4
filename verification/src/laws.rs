use crate::contract::executed;
use crate::decimal::{
    lemma_div_whole, lemma_gt_signed, lemma_mul_whole, limit, scale, spec_gt, spec_mul, whole,
    DecimalValue,
};
use crate::error::{ContractError, Rejection};
use crate::lp_actions::redemptions::{
    coin_fee, coin_sends, fee_threshold, hold_period_met, is_admin_redemption_while_open,
    profits_per_year, redemption_fee, redemption_notional, redemption_profits, spec_redemption,
    spec_should_charge_performance_fees, ONE_YEAR_IN_SECONDS,
};
use crate::lp_actions::subscriptions::{
    baseline_shares, spec_subscription_mint, spec_token_mint_data, subscription_stored,
};
use crate::lp_actions::utils::{pro_rata, pro_rata_fits};
use crate::market::{BankSendValue, Coin, FundHoldings, Response};
use crate::msg::ExecuteMsg;
use crate::state::{FundState, LPPosition, Timestamp, NANOS_PER_SECOND};
use vstd::arithmetic::div_mod::{
    lemma_div_multiples_vanish, lemma_fundamental_div_mod, lemma_mod_bound,
};
use vstd::prelude::*;

verus! {

/// The first subscription mints the baseline, whatever is deposited and whatever the fund is
/// worth.
pub proof fn law_first_subscription_mints_baseline(
    total_quote_funds_supplied: DecimalValue,
    fund_total_notional: DecimalValue,
    lp_total_supply: DecimalValue,
)
    requires
        lp_total_supply.is_zero(),
    ensures
        spec_token_mint_data(total_quote_funds_supplied, fund_total_notional, lp_total_supply)
            == Ok::<DecimalValue, ContractError>(baseline_shares()),
{
}

/// A subscription into an open fund that has issued no shares mints the baseline, whatever
/// coins of the quote asset come with it, as long as the fund can be priced.
pub proof fn law_first_subscription_into_fund(
    state: FundState,
    coins: Seq<Coin>,
    holdings: FundHoldings,
)
    requires
        state.lp_total_supply@.is_zero(),
        spec_subscription_mint(state, coins, holdings).is_ok(),
    ensures
        spec_subscription_mint(state, coins, holdings) == Ok::<DecimalValue, ContractError>(
            baseline_shares(),
        ),
{
}

/// A part that is taken pro rata is the exact part rounded down, and it falls short of the
/// exact part by less than one unit of the divisor and one cut of the product: with `m` the
/// magnitude of the part, `m * total <= amount * shares < m * total + total + 10^18` in
/// magnitudes. Its flag is negative exactly when an odd number of the three is negative,
/// unless the part is cut to zero by the division.
pub proof fn law_pro_rata_rounds_down(
    amount: DecimalValue,
    shares: DecimalValue,
    total: DecimalValue,
)
    requires
        total.magnitude != 0,
    ensures
        pro_rata(amount, shares, total).magnitude * total.magnitude <= amount.magnitude
            * shares.magnitude,
        amount.magnitude * shares.magnitude < pro_rata(amount, shares, total).magnitude
            * total.magnitude + total.magnitude + scale(),
{
    let s = scale() as int;
    let a = amount.magnitude as int;
    let b = shares.magnitude as int;
    let n = total.magnitude as int;
    let p = (a * b) / s;
    assert(a * b >= 0) by (nonlinear_arith)
        requires
            a >= 0,
            b >= 0,
    ;
    lemma_fundamental_div_mod(a * b, s);
    lemma_mod_bound(a * b, s);
    assert(p >= 0) by (nonlinear_arith)
        requires
            a * b == s * p + (a * b) % s,
            0 <= (a * b) % s < s,
            a * b >= 0,
            s > 0,
    ;
    assert(s * p >= 0) by (nonlinear_arith)
        requires
            p >= 0,
            s > 0,
    ;
    let m = (s * p) / n;
    lemma_fundamental_div_mod(s * p, n);
    lemma_mod_bound(s * p, n);
    if total == whole(1) {
        lemma_div_multiples_vanish(p, s);
    }
    assert(pro_rata(amount, shares, total).magnitude == m);
    assert(n * m == m * n) by (nonlinear_arith);
}

/// A part of whole numbers that divides evenly is exact: `a * b / n`.
pub proof fn law_pro_rata_of_whole_numbers(a: nat, b: nat, n: nat)
    requires
        n > 0,
        (a * b) % n == 0,
    ensures
        pro_rata(whole(a), whole(b), whole(n)) == whole((a * b) / n),
        a * b * scale() < limit() ==> pro_rata_fits(whole(a), whole(b), whole(n)),
{
    let s = scale() as int;
    let c = (a * b) as int;
    let q = c / (n as int);
    lemma_mul_whole(whole(a), b);
    assert(a * s * b == c * s) by (nonlinear_arith)
        requires
            c == a * b,
    ;
    assert(spec_mul(whole(a), whole(b)) == whole((a * b) as nat));
    lemma_div_whole(whole((a * b) as nat), n);
    lemma_fundamental_div_mod(c, n as int);
    assert(c * s == n * (q * s)) by (nonlinear_arith)
        requires
            c == n * q,
    ;
    lemma_div_multiples_vanish(q * s, n as int);
    assert(q >= 0) by (nonlinear_arith)
        requires
            c == n * q,
            c >= 0,
            n > 0,
    ;
}

/// For later subscriptions the shares per deposit follow the supply per notional: the minted
/// shares are `supply * deposit / notional` rounded down, off by less than one unit of the
/// notional and one cut of the product.
pub proof fn law_minted_shares_follow_price(
    total_quote_funds_supplied: DecimalValue,
    fund_total_notional: DecimalValue,
    lp_total_supply: DecimalValue,
)
    requires
        !lp_total_supply.is_zero(),
        fund_total_notional.magnitude != 0,
        spec_token_mint_data(
            total_quote_funds_supplied,
            fund_total_notional,
            lp_total_supply,
        ).is_ok(),
    ensures
        ({
            let minted = spec_token_mint_data(
                total_quote_funds_supplied,
                fund_total_notional,
                lp_total_supply,
            ).unwrap();
            &&& minted.magnitude * fund_total_notional.magnitude <= lp_total_supply.magnitude
                * total_quote_funds_supplied.magnitude
            &&& lp_total_supply.magnitude * total_quote_funds_supplied.magnitude
                < minted.magnitude * fund_total_notional.magnitude
                + fund_total_notional.magnitude + scale()
        }),
{
    law_pro_rata_rounds_down(lp_total_supply, total_quote_funds_supplied, fund_total_notional);
}

/// The amounts of the payments in `sends` together.
pub open spec fn sends_total(sends: Seq<BankSendValue>) -> nat
    decreases sends.len(),
{
    if sends.len() == 0 {
        0
    } else {
        sends_total(sends.drop_last()) + sends.last().amount
    }
}

/// What is paid out for a coin, fee and remainder together, is the amount of the coin: the
/// fee is withheld from the redeemer, and nothing is lost or made.
pub proof fn law_coin_is_paid_out_whole(
    coin: Coin,
    fee: Option<DecimalValue>,
    admin: Seq<char>,
    sender: Seq<char>,
)
    requires
        coin_fee(fee, coin.amount) <= coin.amount,
    ensures
        sends_total(coin_sends(coin, fee, admin, sender)) == coin.amount,
        forall|i: int|
            0 <= i < coin_sends(coin, fee, admin, sender).len() ==> (#[trigger] coin_sends(
                coin,
                fee,
                admin,
                sender,
            )[i]).denom == coin.denom@,
{
    let sends = coin_sends(coin, fee, admin, sender);
    if coin_fee(fee, coin.amount) > 0 {
        assert(sends.drop_last().drop_last() =~= Seq::<BankSendValue>::empty());
        assert(sends_total(sends.drop_last()) == sends[0].amount) by {
            assert(sends.drop_last().last() == sends[0]);
            assert(sends_total(sends.drop_last().drop_last()) == 0);
        }
    } else {
        assert(sends.drop_last() =~= Seq::<BankSendValue>::empty());
        assert(sends_total(sends.drop_last()) == 0);
    }
}

/// A redemption by a holder whose hold period is not over is turned down for that reason,
/// whatever the fund holds and whatever else stands in its books.
pub proof fn law_redemption_before_hold_period(
    state: FundState,
    now: Timestamp,
    sender: Seq<char>,
    holdings: FundHoldings,
)
    requires
        state.lp_positions@.contains_key(sender),
        !hold_period_met(now, state.lp_positions@[sender].subscription_time),
    ensures
        spec_redemption(state, now, sender, holdings) == Err::<(), ContractError>(
            ContractError::Std(Rejection::HoldPeriodNotElapsed),
        ),
{
}

/// A redemption that follows a subscription by less than a year, and so one at the very time
/// of the subscription, is turned down because the hold period is not over.
pub proof fn law_no_redemption_right_after_subscription(
    before: FundState,
    after: FundState,
    subscribed_at: Timestamp,
    sender: String,
    minted: DecimalValue,
    amount: DecimalValue,
    now: Timestamp,
    holdings: FundHoldings,
)
    requires
        subscription_stored(before, after, subscribed_at, sender, minted, amount),
        now.nanos < subscribed_at.nanos + ONE_YEAR_IN_SECONDS * NANOS_PER_SECOND,
    ensures
        spec_redemption(after, now, sender@, holdings) == Err::<(), ContractError>(
            ContractError::Std(Rejection::HoldPeriodNotElapsed),
        ),
        spec_redemption(after, subscribed_at, sender@, holdings) == Err::<(), ContractError>(
            ContractError::Std(Rejection::HoldPeriodNotElapsed),
        ),
{
}

/// A performance fee is charged exactly when the yearly profit is above the deposit times the
/// minimum yearly return, by the order `>` of the decimal type.
pub proof fn law_fee_exactly_above_threshold(
    state: FundState,
    position: LPPosition,
    now: Timestamp,
    holdings: FundHoldings,
)
    requires
        redemption_notional(state, position, holdings).is_ok(),
    ensures
        redemption_fee(state, position, now, holdings).is_some() <==> spec_gt(
            profits_per_year(
                redemption_profits(
                    redemption_notional(state, position, holdings).unwrap(),
                    position,
                ),
                now,
                position.subscription_time,
            ),
            fee_threshold(position, state.config.min_yearly_roi_for_fees@),
        ),
{
}

/// No fee is charged where the yearly profit equals the threshold in number, unless the
/// profit is positive zero and the threshold negative zero; and a fee that is charged on
/// numbers that are not both zero is charged on a yearly profit that is the greater number.
pub proof fn law_no_fee_at_threshold(
    notional: DecimalValue,
    position: LPPosition,
    min_yearly_roi_for_fees: DecimalValue,
    now: Timestamp,
)
    ensures
        ({
            let yearly = profits_per_year(
                redemption_profits(notional, position),
                now,
                position.subscription_time,
            );
            let threshold = fee_threshold(position, min_yearly_roi_for_fees);
            &&& yearly.signed() == threshold.signed() && !(yearly.is_zero() && !yearly.negative
                && threshold.negative) ==> !spec_should_charge_performance_fees(
                notional,
                position,
                min_yearly_roi_for_fees,
                now,
            )
            &&& spec_should_charge_performance_fees(
                notional,
                position,
                min_yearly_roi_for_fees,
                now,
            ) && !(yearly.is_zero() && threshold.is_zero()) ==> yearly.signed()
                > threshold.signed()
        }),
{
    let yearly = profits_per_year(
        redemption_profits(notional, position),
        now,
        position.subscription_time,
    );
    let threshold = fee_threshold(position, min_yearly_roi_for_fees);
    if spec_gt(yearly, threshold) && !(yearly.is_zero() && threshold.is_zero()) {
        lemma_gt_signed(yearly, threshold);
    }
}

/// After a subscription, the admin owns at least a tenth of all shares. So it is after a
/// redemption: of the admin from an open fund always, and of a holder other than the admin
/// where the admin owned a tenth before and the shares that are burned are not negative.
pub proof fn law_admin_keeps_a_tenth(
    before: FundState,
    after: FundState,
    response: Response,
    now: Timestamp,
    sender: String,
    funds: Seq<Coin>,
    msg: ExecuteMsg,
    holdings: FundHoldings,
)
    requires
        executed(before, after, response, now, sender, funds, msg, holdings),
        match msg {
            ExecuteMsg::Subscribe {  } => true,
            ExecuteMsg::Redeem { redeemer_subaccount_id } => is_admin_redemption_while_open(
                before,
                sender@,
            ) || (sender@ != before.config.admin@ && before.admin_floor_holds()
                && before.lp_positions@[sender@].shares@.signed() >= 0),
            _ => false,
        },
    ensures
        after.admin_floor_holds(),
{
}

} // verus!
