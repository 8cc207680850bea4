use crate::decimal::{
    add_fits, div_fits, fp_add, fp_div, fp_from_u128, fp_gt, fp_lt, fp_mul, fp_sub, fp_to_u128,
    lemma_sub_signed, mul_fits, spec_add, spec_div, spec_gt, spec_lt, spec_mul, spec_sub,
    sub_fits, whole, zero_value, Decimal, DecimalValue,
};
use crate::error::{ContractError, Rejection};
use crate::lp_actions::derivative_position_helpers::{
    apply_funding_to_position, funded, funding_fits, get_vault_estimated_position_notional,
    position_notional_fits, spec_position_notional,
};
use crate::lp_actions::subscriptions::{below_admin_floor, is_admin_below_floor};
use crate::lp_actions::utils::{
    coin_amount, get_spot_base_in_quote, lemma_spot_total_error, lemma_spot_total_fits_prefix,
    pro_rata, pro_rata_fits, spot_coins, spot_total, spot_total_fits,
};
use crate::market::{
    bank_sends_view, transfers_view, uint128_sub, BankSend, BankSendValue, Coin,
    DerivativeHolding, DerivativeMarket, FundHoldings, Position, PositionTransferAction,
    PositionTransferValue, PositionValue, Response,
};
use crate::records::Records;
use crate::state::{
    lemma_shares_sum_remove, Config, FundState, LPPosition, Timestamp, NANOS_PER_SECOND,
};
use vstd::prelude::*;

verus! {

/// The time for which a position must be held before it can be redeemed: 365 days.
pub const ONE_YEAR_IN_SECONDS: u64 = 31_536_000;

/// At least one full year lies between the subscription and `now`.
pub open spec fn hold_period_met(now: Timestamp, subscription_time: Timestamp) -> bool {
    now.nanos >= subscription_time.nanos + ONE_YEAR_IN_SECONDS * NANOS_PER_SECOND
}

/// A redemption is eligible once the hold period is met, and then only where the fund's
/// quote balance is not negative.
pub open spec fn spec_valid_redemption(
    now: Timestamp,
    subscription_time: Timestamp,
    vault_quote_total_balance: DecimalValue,
) -> Result<(), ContractError> {
    if !hold_period_met(now, subscription_time) {
        Err(ContractError::Std(Rejection::HoldPeriodNotElapsed))
    } else if spec_lt(vault_quote_total_balance, zero_value()) {
        Err(ContractError::Std(Rejection::NegativeQuoteDeposits))
    } else {
        Ok(())
    }
}

/// Whole seconds between the subscription and `now`, as the two times count seconds.
pub open spec fn holding_seconds(now: Timestamp, subscription_time: Timestamp) -> int {
    now.nanos / NANOS_PER_SECOND - subscription_time.nanos / NANOS_PER_SECOND
}

/// Once the hold period is met, the holding time counts at least a year of seconds: the
/// yearly profit is never divided by zero.
pub proof fn lemma_holding_seconds(now: Timestamp, subscription_time: Timestamp)
    requires
        hold_period_met(now, subscription_time),
    ensures
        holding_seconds(now, subscription_time) >= ONE_YEAR_IN_SECONDS,
{
    let s = subscription_time.nanos as int;
    let n = now.nanos as int;
    let y = ONE_YEAR_IN_SECONDS as int;
    let g = NANOS_PER_SECOND as int;
    assert(n / g >= (s + y * g) / g) by (nonlinear_arith)
        requires
            n >= s + y * g,
            g == 1_000_000_000,
    ;
    assert((s + y * g) / g == s / g + y) by (nonlinear_arith)
        requires
            g == 1_000_000_000,
            s >= 0,
            y >= 0,
    ;
}

/// Checks that a position may be redeemed at time `now`.
pub fn ensure_valid_redemption(
    now: Timestamp,
    subscription_time: Timestamp,
    vault_quote_total_balance: Decimal,
) -> (r: Result<(), ContractError>)
    ensures
        r == spec_valid_redemption(now, subscription_time, vault_quote_total_balance@),
{
    let earliest: u128 = subscription_time.nanos as u128 + ONE_YEAR_IN_SECONDS as u128
        * NANOS_PER_SECOND as u128;
    if (now.nanos as u128) < earliest {
        return Err(ContractError::Std(Rejection::HoldPeriodNotElapsed));
    }
    if fp_lt(vault_quote_total_balance, Decimal::zero()) {
        return Err(ContractError::Std(Rejection::NegativeQuoteDeposits));
    }
    Ok(())
}

/// The slice of a position that goes to the burned shares, after the position's funding is
/// settled: their part of quantity and margin, at the entry price of the whole.
pub open spec fn redeemed_position(
    p: PositionValue,
    market: DerivativeMarket,
    lp_shares_to_burn: DecimalValue,
    lp_total_supply: DecimalValue,
) -> PositionValue {
    let f = funded(p, market.cumulative_funding.unwrap()@);
    PositionValue {
        is_long: f.is_long,
        quantity: pro_rata(p.quantity, lp_shares_to_burn, lp_total_supply),
        entry_price: f.entry_price,
        margin: pro_rata(f.margin, lp_shares_to_burn, lp_total_supply),
        cumulative_funding_entry: f.cumulative_funding_entry,
    }
}

/// The running notional of a redemption after one derivative market: where the fund has a
/// position there, the notional of the slice that goes to the burned shares is added.
pub open spec fn spec_updated_redemption_notional(
    total_redemption_notional: DecimalValue,
    holding: DerivativeHolding,
    lp_shares_to_burn: DecimalValue,
    lp_total_supply: DecimalValue,
) -> DecimalValue {
    match holding.position {
        Some(p) => spec_add(
            total_redemption_notional,
            spec_position_notional(
                Some(redeemed_position(p@, holding.market, lp_shares_to_burn, lp_total_supply)),
                holding.market,
            ),
        ),
        None => total_redemption_notional,
    }
}

/// Every step that takes one derivative market into a redemption is in range, and a market
/// in which the fund has a position reports its cumulative funding.
pub open spec fn updated_redemption_notional_fits(
    total_redemption_notional: DecimalValue,
    holding: DerivativeHolding,
    lp_shares_to_burn: DecimalValue,
    lp_total_supply: DecimalValue,
) -> bool {
    holding.position matches Some(p) ==> {
        &&& holding.market.cumulative_funding.is_some()
        &&& pro_rata_fits(p@.quantity, lp_shares_to_burn, lp_total_supply)
        &&& funding_fits(p@, holding.market.cumulative_funding.unwrap()@)
        &&& pro_rata_fits(
            funded(p@, holding.market.cumulative_funding.unwrap()@).margin,
            lp_shares_to_burn,
            lp_total_supply,
        )
        &&& position_notional_fits(
            Some(redeemed_position(p@, holding.market, lp_shares_to_burn, lp_total_supply)),
            holding.market,
        )
        &&& add_fits(
            total_redemption_notional,
            spec_position_notional(
                Some(redeemed_position(p@, holding.market, lp_shares_to_burn, lp_total_supply)),
                holding.market,
            ),
        )
    }
}

/// The transfer that a redemption asks for from one derivative market, if the fund has a
/// position there: the part of its quantity that falls to the burned shares.
pub open spec fn spec_position_transfer(
    holding: DerivativeHolding,
    market_id: Seq<char>,
    fund_subaccount_id: Seq<char>,
    redeemer_subaccount_id: Seq<char>,
    lp_shares_to_burn: DecimalValue,
    lp_total_supply: DecimalValue,
) -> Option<PositionTransferValue> {
    match holding.position {
        Some(p) => Some(
            PositionTransferValue {
                market_id,
                source_subaccount_id: fund_subaccount_id,
                destination_subaccount_id: redeemer_subaccount_id,
                quantity: pro_rata(p@.quantity, lp_shares_to_burn, lp_total_supply),
            },
        ),
        None => None,
    }
}

/// `s` with `t` at its end, where there is a `t`.
pub open spec fn push_some<T>(s: Seq<T>, t: Option<T>) -> Seq<T> {
    match t {
        Some(t) => s.push(t),
        None => s,
    }
}

/// Takes one derivative market into a redemption: where the fund has a position there, the
/// transfer of the redeemer's slice joins `position_transfers`, and the notional of the slice
/// joins the running total, which is returned.
pub fn get_updated_redemption_notional_and_update_derivative_position_transfers(
    total_redemption_notional: Decimal,
    position_transfers: &mut Vec<PositionTransferAction>,
    holding: &DerivativeHolding,
    market_id: &String,
    fund_subaccount_id: &String,
    redeemer_subaccount_id: &String,
    lp_shares_to_burn: Decimal,
    lp_total_supply: Decimal,
) -> (r: Decimal)
    requires
        updated_redemption_notional_fits(
            total_redemption_notional@,
            *holding,
            lp_shares_to_burn@,
            lp_total_supply@,
        ),
    ensures
        r@ == spec_updated_redemption_notional(
            total_redemption_notional@,
            *holding,
            lp_shares_to_burn@,
            lp_total_supply@,
        ),
        transfers_view(final(position_transfers)@) == push_some(
            transfers_view(old(position_transfers)@),
            spec_position_transfer(
                *holding,
                market_id@,
                fund_subaccount_id@,
                redeemer_subaccount_id@,
                lp_shares_to_burn@,
                lp_total_supply@,
            ),
        ),
{
    match holding.position {
        Some(p) => {
            let quantity = fp_div(fp_mul(p.quantity, lp_shares_to_burn), lp_total_supply);
            let position_transfer = PositionTransferAction {
                market_id: market_id.clone(),
                source_subaccount_id: fund_subaccount_id.clone(),
                destination_subaccount_id: redeemer_subaccount_id.clone(),
                quantity,
            };
            position_transfers.push(position_transfer);
            proof {
                assert(transfers_view(position_transfers@) =~= transfers_view(
                    old(position_transfers)@,
                ).push(position_transfer@));
            }
            let mut vault_position = Some(p);
            apply_funding_to_position(&mut vault_position, &holding.market);
            let settled = vault_position.unwrap();
            let slice = Some(
                Position {
                    is_long: settled.is_long,
                    quantity,
                    entry_price: settled.entry_price,
                    margin: fp_div(fp_mul(settled.margin, lp_shares_to_burn), lp_total_supply),
                    cumulative_funding_entry: settled.cumulative_funding_entry,
                },
            );
            let position_notional = get_vault_estimated_position_notional(&slice, &holding.market);
            fp_add(total_redemption_notional, position_notional)
        },
        None => total_redemption_notional,
    }
}

/// The fraction of every outgoing asset that is withheld as performance fee: the profit times
/// the fee rate over the notional of the redemption.
pub open spec fn spec_performance_fee(
    total_profits: DecimalValue,
    performance_fee_rate: DecimalValue,
    total_redemption_notional: DecimalValue,
) -> DecimalValue {
    pro_rata(total_profits, performance_fee_rate, total_redemption_notional)
}

/// What is withheld of a coin amount: the whole part of fee times amount, and nothing where
/// no fee is charged.
pub open spec fn coin_fee(fee: Option<DecimalValue>, amount: u128) -> nat {
    match fee {
        Some(f) => coin_amount(spec_mul(f, whole(amount as nat))),
        None => 0,
    }
}

/// The payments for one coin: the fee to the admin where it is above zero, then the rest to
/// the redeemer.
pub open spec fn coin_sends(
    coin: Coin,
    fee: Option<DecimalValue>,
    admin: Seq<char>,
    sender: Seq<char>,
) -> Seq<BankSendValue> {
    let to_redeemer = BankSendValue {
        to_address: sender,
        denom: coin.denom@,
        amount: (coin.amount - coin_fee(fee, coin.amount)) as nat,
    };
    if coin_fee(fee, coin.amount) > 0 {
        seq![
            BankSendValue {
                to_address: admin,
                denom: coin.denom@,
                amount: coin_fee(fee, coin.amount),
            },
            to_redeemer,
        ]
    } else {
        seq![to_redeemer]
    }
}

/// The payments for the first `n` coins, in their order.
pub open spec fn spec_bank_sends(
    coins: Seq<Coin>,
    fee: Option<DecimalValue>,
    admin: Seq<char>,
    sender: Seq<char>,
    n: nat,
) -> Seq<BankSendValue>
    decreases n,
{
    if n == 0 {
        Seq::empty()
    } else {
        spec_bank_sends(coins, fee, admin, sender, (n - 1) as nat) + coin_sends(
            coins[n - 1],
            fee,
            admin,
            sender,
        )
    }
}

/// What is withheld of a position transfer: fee times quantity, and positive zero where no
/// fee is charged.
pub open spec fn transfer_fee(fee: Option<DecimalValue>, quantity: DecimalValue) -> DecimalValue {
    match fee {
        Some(f) => spec_mul(f, quantity),
        None => zero_value(),
    }
}

/// A transfer without what is withheld of it.
pub open spec fn net_transfer(
    t: PositionTransferValue,
    fee: Option<DecimalValue>,
) -> PositionTransferValue {
    PositionTransferValue {
        market_id: t.market_id,
        source_subaccount_id: t.source_subaccount_id,
        destination_subaccount_id: t.destination_subaccount_id,
        quantity: spec_sub(t.quantity, transfer_fee(fee, t.quantity)),
    }
}

/// The fee ledger by content: what is owed to the admin in each market.
pub open spec fn ledger_view(ledger: Records<Decimal>) -> Map<Seq<char>, DecimalValue> {
    ledger@.map_values(|d: Decimal| d@)
}

/// The ledger after one transfer: a fee above zero is added to what the market owes already.
pub open spec fn ledger_step(
    ledger: Map<Seq<char>, DecimalValue>,
    t: PositionTransferValue,
    fee: Option<DecimalValue>,
) -> Map<Seq<char>, DecimalValue> {
    let f = transfer_fee(fee, t.quantity);
    if spec_gt(f, zero_value()) {
        ledger.insert(
            t.market_id,
            if ledger.contains_key(t.market_id) {
                spec_add(ledger[t.market_id], f)
            } else {
                f
            },
        )
    } else {
        ledger
    }
}

/// The ledger after the first `n` transfers.
pub open spec fn ledger_after(
    ledger: Map<Seq<char>, DecimalValue>,
    transfers: Seq<PositionTransferValue>,
    fee: Option<DecimalValue>,
    n: nat,
) -> Map<Seq<char>, DecimalValue>
    decreases n,
{
    if n == 0 {
        ledger
    } else {
        ledger_step(ledger_after(ledger, transfers, fee, (n - 1) as nat), transfers[n - 1], fee)
    }
}

/// The fee on a coin is in range and no more than the coin.
pub open spec fn coin_fee_fits(coin: Coin, fee: Option<DecimalValue>) -> bool {
    fee matches Some(f) ==> {
        &&& mul_fits(f, whole(coin.amount as nat))
        &&& coin_fee(fee, coin.amount) <= coin.amount
    }
}

/// The fee on a transfer, its entry in the ledger and what is left of the transfer are in
/// range.
pub open spec fn transfer_fee_fits(
    ledger: Map<Seq<char>, DecimalValue>,
    t: PositionTransferValue,
    fee: Option<DecimalValue>,
) -> bool {
    &&& fee matches Some(f) ==> mul_fits(f, t.quantity)
    &&& spec_gt(transfer_fee(fee, t.quantity), zero_value()) && ledger.contains_key(t.market_id)
        ==> add_fits(ledger[t.market_id], transfer_fee(fee, t.quantity))
    &&& sub_fits(t.quantity, transfer_fee(fee, t.quantity))
}

/// The fees on the first `n` transfers are in range, each against the ledger as the
/// transfers before it have left it.
pub open spec fn ledger_fits(
    ledger: Map<Seq<char>, DecimalValue>,
    transfers: Seq<PositionTransferValue>,
    fee: Option<DecimalValue>,
    n: nat,
) -> bool
    decreases n,
{
    n == 0 || {
        &&& ledger_fits(ledger, transfers, fee, (n - 1) as nat)
        &&& transfer_fee_fits(
            ledger_after(ledger, transfers, fee, (n - 1) as nat),
            transfers[n - 1],
            fee,
        )
    }
}

/// The fee that a redemption charges, if it charges one.
pub open spec fn charged_fee(
    should_charge_performance_fees: bool,
    total_profits: DecimalValue,
    performance_fee_rate: DecimalValue,
    total_redemption_notional: DecimalValue,
) -> Option<DecimalValue> {
    if should_charge_performance_fees {
        Some(spec_performance_fee(total_profits, performance_fee_rate, total_redemption_notional))
    } else {
        None
    }
}

/// The fee, where one is charged, and what it withholds of every coin and every transfer
/// are in range.
pub open spec fn redemption_response_fits(
    ledger: Map<Seq<char>, DecimalValue>,
    performance_fee_rate: DecimalValue,
    funds_to_return: Seq<Coin>,
    total_profits: DecimalValue,
    total_redemption_notional: DecimalValue,
    position_transfers: Seq<PositionTransferValue>,
    should_charge_performance_fees: bool,
) -> bool {
    let fee = charged_fee(
        should_charge_performance_fees,
        total_profits,
        performance_fee_rate,
        total_redemption_notional,
    );
    &&& should_charge_performance_fees ==> pro_rata_fits(
        total_profits,
        performance_fee_rate,
        total_redemption_notional,
    )
    &&& forall|i: int| 0 <= i < funds_to_return.len() ==> coin_fee_fits(#[trigger] funds_to_return[i], fee)
    &&& ledger_fits(ledger, position_transfers, fee, position_transfers.len())
}

/// What is in range for `n` transfers is in range for fewer.
proof fn lemma_ledger_fits_prefix(
    ledger: Map<Seq<char>, DecimalValue>,
    transfers: Seq<PositionTransferValue>,
    fee: Option<DecimalValue>,
    n: nat,
    m: nat,
)
    requires
        ledger_fits(ledger, transfers, fee, n),
        m <= n,
    ensures
        ledger_fits(ledger, transfers, fee, m),
    decreases n,
{
    if m < n {
        lemma_ledger_fits_prefix(ledger, transfers, fee, (n - 1) as nat, m);
    }
}

/// Turns what a redemption returns into instructions: for each coin the fee to the admin,
/// where one is due, and the rest to the redeemer; for each position transfer the transfer of
/// what is left after the fee, the fee itself being added to what the fund owes the admin in
/// that market.
pub fn get_redemption_response(
    admin_fee_positions: &mut Records<Decimal>,
    sender: &String,
    config: &Config,
    funds_to_return: &Vec<Coin>,
    total_profits: Decimal,
    total_redemption_notional: Decimal,
    position_transfers: &Vec<PositionTransferAction>,
    should_charge_performance_fees: bool,
) -> (response: Response)
    requires
        redemption_response_fits(
            ledger_view(*old(admin_fee_positions)),
            config.performance_fee_rate@,
            funds_to_return@,
            total_profits@,
            total_redemption_notional@,
            transfers_view(position_transfers@),
            should_charge_performance_fees,
        ),
    ensures
        bank_sends_view(response.bank_sends@) == spec_bank_sends(
            funds_to_return@,
            charged_fee(
                should_charge_performance_fees,
                total_profits@,
                config.performance_fee_rate@,
                total_redemption_notional@,
            ),
            config.admin@,
            sender@,
            funds_to_return@.len(),
        ),
        transfers_view(response.position_transfers@) == transfers_view(
            position_transfers@,
        ).map_values(
            |t: PositionTransferValue|
                net_transfer(
                    t,
                    charged_fee(
                        should_charge_performance_fees,
                        total_profits@,
                        config.performance_fee_rate@,
                        total_redemption_notional@,
                    ),
                ),
        ),
        !response.pass_through,
        ledger_view(*final(admin_fee_positions)) == ledger_after(
            ledger_view(*old(admin_fee_positions)),
            transfers_view(position_transfers@),
            charged_fee(
                should_charge_performance_fees,
                total_profits@,
                config.performance_fee_rate@,
                total_redemption_notional@,
            ),
            position_transfers@.len(),
        ),
        !should_charge_performance_fees ==> *final(admin_fee_positions) == *old(admin_fee_positions),
{
    let ghost fee = charged_fee(
        should_charge_performance_fees,
        total_profits@,
        config.performance_fee_rate@,
        total_redemption_notional@,
    );
    let ghost transfers = transfers_view(position_transfers@);
    let ghost ledger = ledger_view(*old(admin_fee_positions));
    let performance_fee = if should_charge_performance_fees {
        fp_div(fp_mul(total_profits, config.performance_fee_rate), total_redemption_notional)
    } else {
        Decimal::zero()
    };
    let mut bank_sends: Vec<BankSend> = Vec::new();
    let mut i: usize = 0;
    while i < funds_to_return.len()
        invariant
            i <= funds_to_return@.len(),
            forall|k: int|
                0 <= k < funds_to_return@.len() ==> coin_fee_fits(
                    #[trigger] funds_to_return@[k],
                    fee,
                ),
            fee == charged_fee(
                should_charge_performance_fees,
                total_profits@,
                config.performance_fee_rate@,
                total_redemption_notional@,
            ),
            should_charge_performance_fees ==> fee == Some(performance_fee@),
            bank_sends_view(bank_sends@) == spec_bank_sends(
                funds_to_return@,
                fee,
                config.admin@,
                sender@,
                i as nat,
            ),
        decreases funds_to_return@.len() - i,
    {
        let coin = &funds_to_return[i];
        let ghost sends_before = bank_sends@;
        let admin_fee: u128 = if should_charge_performance_fees {
            fp_to_u128(fp_mul(performance_fee, fp_from_u128(coin.amount)))
        } else {
            0
        };
        assert(admin_fee == coin_fee(fee, coin.amount));
        if admin_fee > 0 {
            bank_sends.push(
                BankSend {
                    to_address: config.admin.clone(),
                    denom: coin.denom.clone(),
                    amount: admin_fee,
                },
            );
        }
        bank_sends.push(
            BankSend {
                to_address: sender.clone(),
                denom: coin.denom.clone(),
                amount: uint128_sub(coin.amount, admin_fee),
            },
        );
        proof {
            assert(bank_sends_view(bank_sends@) =~= bank_sends_view(sends_before) + coin_sends(
                *coin,
                fee,
                config.admin@,
                sender@,
            ));
        }
        i += 1;
    }
    let mut net_transfers: Vec<PositionTransferAction> = Vec::new();
    let mut j: usize = 0;
    while j < position_transfers.len()
        invariant
            j <= position_transfers@.len(),
            transfers == transfers_view(position_transfers@),
            ledger == ledger_view(*old(admin_fee_positions)),
            ledger_fits(ledger, transfers, fee, position_transfers@.len() as nat),
            fee == charged_fee(
                should_charge_performance_fees,
                total_profits@,
                config.performance_fee_rate@,
                total_redemption_notional@,
            ),
            should_charge_performance_fees ==> fee == Some(performance_fee@),
            ledger_view(*admin_fee_positions) == ledger_after(ledger, transfers, fee, j as nat),
            !should_charge_performance_fees ==> *admin_fee_positions == *old(admin_fee_positions),
            net_transfers@.len() == j,
            forall|k: int|
                0 <= k < j ==> (#[trigger] net_transfers@[k])@ == net_transfer(transfers[k], fee),
        decreases position_transfers@.len() - j,
    {
        let position_transfer = &position_transfers[j];
        proof {
            lemma_ledger_fits_prefix(
                ledger,
                transfers,
                fee,
                position_transfers@.len() as nat,
                (j + 1) as nat,
            );
            assert(transfers[j as int] == position_transfer@);
        }
        let admin_fee_position_quantity = if should_charge_performance_fees {
            fp_mul(performance_fee, position_transfer.quantity)
        } else {
            Decimal::zero()
        };
        if fp_gt(admin_fee_position_quantity, Decimal::zero()) {
            let ghost ledger_before = ledger_view(*admin_fee_positions);
            let new_admin_fee_position_quantity = match admin_fee_positions.get(
                &position_transfer.market_id,
            ) {
                Some(q) => fp_add(q, admin_fee_position_quantity),
                None => admin_fee_position_quantity,
            };
            admin_fee_positions.insert(
                position_transfer.market_id.clone(),
                new_admin_fee_position_quantity,
            );
            proof {
                assert(ledger_view(*admin_fee_positions) =~= ledger_before.insert(
                    position_transfer.market_id@,
                    new_admin_fee_position_quantity@,
                ));
            }
        }
        net_transfers.push(
            PositionTransferAction {
                market_id: position_transfer.market_id.clone(),
                source_subaccount_id: position_transfer.source_subaccount_id.clone(),
                destination_subaccount_id: position_transfer.destination_subaccount_id.clone(),
                quantity: fp_sub(position_transfer.quantity, admin_fee_position_quantity),
            },
        );
        j += 1;
    }
    proof {
        assert(transfers_view(net_transfers@) =~= transfers.map_values(
            |t: PositionTransferValue| net_transfer(t, fee),
        ));
    }
    Response { bank_sends, position_transfers: net_transfers, pass_through: false }
}

/// The running notional of a redemption after the first `n` derivative markets.
pub open spec fn derivative_redemption_total(
    start: DecimalValue,
    derivatives: Seq<DerivativeHolding>,
    lp_shares_to_burn: DecimalValue,
    lp_total_supply: DecimalValue,
    n: nat,
) -> DecimalValue
    decreases n,
{
    if n == 0 {
        start
    } else {
        spec_updated_redemption_notional(
            derivative_redemption_total(
                start,
                derivatives,
                lp_shares_to_burn,
                lp_total_supply,
                (n - 1) as nat,
            ),
            derivatives[n - 1],
            lp_shares_to_burn,
            lp_total_supply,
        )
    }
}

/// Every step that takes the first `n` derivative markets into a redemption is in range.
pub open spec fn derivative_redemption_fits(
    start: DecimalValue,
    derivatives: Seq<DerivativeHolding>,
    lp_shares_to_burn: DecimalValue,
    lp_total_supply: DecimalValue,
    n: nat,
) -> bool
    decreases n,
{
    n == 0 || {
        &&& derivative_redemption_fits(
            start,
            derivatives,
            lp_shares_to_burn,
            lp_total_supply,
            (n - 1) as nat,
        )
        &&& updated_redemption_notional_fits(
            derivative_redemption_total(
                start,
                derivatives,
                lp_shares_to_burn,
                lp_total_supply,
                (n - 1) as nat,
            ),
            derivatives[n - 1],
            lp_shares_to_burn,
            lp_total_supply,
        )
    }
}

/// What is in range for `n` markets is in range for fewer.
proof fn lemma_derivative_redemption_fits_prefix(
    start: DecimalValue,
    derivatives: Seq<DerivativeHolding>,
    lp_shares_to_burn: DecimalValue,
    lp_total_supply: DecimalValue,
    n: nat,
    m: nat,
)
    requires
        derivative_redemption_fits(start, derivatives, lp_shares_to_burn, lp_total_supply, n),
        m <= n,
    ensures
        derivative_redemption_fits(start, derivatives, lp_shares_to_burn, lp_total_supply, m),
    decreases n,
{
    if m < n {
        lemma_derivative_redemption_fits_prefix(
            start,
            derivatives,
            lp_shares_to_burn,
            lp_total_supply,
            (n - 1) as nat,
            m,
        );
    }
}

/// The transfers that a redemption asks for from the first `n` derivative markets: one for
/// each market in which the fund has a position, in the order of the markets.
pub open spec fn redemption_transfers(
    market_ids: Seq<String>,
    derivatives: Seq<DerivativeHolding>,
    fund_subaccount_id: Seq<char>,
    redeemer_subaccount_id: Seq<char>,
    lp_shares_to_burn: DecimalValue,
    lp_total_supply: DecimalValue,
    n: nat,
) -> Seq<PositionTransferValue>
    decreases n,
{
    if n == 0 {
        Seq::empty()
    } else {
        push_some(
            redemption_transfers(
                market_ids,
                derivatives,
                fund_subaccount_id,
                redeemer_subaccount_id,
                lp_shares_to_burn,
                lp_total_supply,
                (n - 1) as nat,
            ),
            spec_position_transfer(
                derivatives[n - 1],
                market_ids[n - 1]@,
                fund_subaccount_id,
                redeemer_subaccount_id,
                lp_shares_to_burn,
                lp_total_supply,
            ),
        )
    }
}

/// The part of the quote balance that falls to a position.
pub open spec fn quote_withdrawal(
    state: FundState,
    position: LPPosition,
    holdings: FundHoldings,
) -> DecimalValue {
    pro_rata(holdings.quote_balance@, position.shares@, state.lp_total_supply@)
}

/// The coins that a redemption returns before any fee: the position's part of the quote
/// balance, then its part of the balance of every spot market.
pub open spec fn redemption_funds(
    state: FundState,
    position: LPPosition,
    holdings: FundHoldings,
) -> Seq<Coin> {
    seq![
        Coin {
            denom: state.config.quote_denom,
            amount: coin_amount(quote_withdrawal(state, position, holdings)) as u128,
        },
    ] + spot_coins(
        holdings.spot@,
        Some((position.shares, state.lp_total_supply)),
        holdings.spot@.len(),
    )
}

/// The quote withdrawal and the value of what a redemption returns from the spot markets, or
/// the rejection of a negative base balance.
pub open spec fn redemption_spot_total(
    state: FundState,
    position: LPPosition,
    holdings: FundHoldings,
) -> Result<DecimalValue, ContractError> {
    spot_total(
        quote_withdrawal(state, position, holdings),
        holdings.spot@,
        state.denom_decimals@,
        state.denom_decimals@[state.config.quote_denom@],
        Some((position.shares, state.lp_total_supply)),
        holdings.spot@.len(),
    )
}

/// The notional of everything that a redemption returns, priced as the fund is priced.
pub open spec fn redemption_notional(
    state: FundState,
    position: LPPosition,
    holdings: FundHoldings,
) -> Result<DecimalValue, ContractError> {
    match redemption_spot_total(state, position, holdings) {
        Err(e) => Err(e),
        Ok(sum) => Ok(
            derivative_redemption_total(
                sum,
                holdings.derivatives@,
                position.shares@,
                state.lp_total_supply@,
                holdings.derivatives@.len(),
            ),
        ),
    }
}

/// The position transfers of a redemption before any fee.
pub open spec fn redemption_position_transfers(
    state: FundState,
    position: LPPosition,
    redeemer_subaccount_id: Seq<char>,
    holdings: FundHoldings,
) -> Seq<PositionTransferValue> {
    redemption_transfers(
        state.config.derivative_market_ids@,
        holdings.derivatives@,
        state.config.fund_subaccount_id@,
        redeemer_subaccount_id,
        position.shares@,
        state.lp_total_supply@,
        holdings.derivatives@.len(),
    )
}

/// What a redemption returns above what was deposited.
pub open spec fn redemption_profits(notional: DecimalValue, position: LPPosition) -> DecimalValue {
    spec_sub(notional, position.subscription_amount@)
}

/// The profit brought to one year: profit times the seconds of a year over the seconds held.
pub open spec fn profits_per_year(
    total_profits: DecimalValue,
    now: Timestamp,
    subscription_time: Timestamp,
) -> DecimalValue {
    spec_div(
        spec_mul(total_profits, whole(ONE_YEAR_IN_SECONDS as nat)),
        whole(holding_seconds(now, subscription_time) as nat),
    )
}

/// The yearly profit that must be passed before a fee is charged: the deposit times the
/// minimum yearly return.
pub open spec fn fee_threshold(position: LPPosition, min_yearly_roi_for_fees: DecimalValue) -> DecimalValue {
    spec_mul(position.subscription_amount@, min_yearly_roi_for_fees)
}

/// A performance fee is charged exactly when the yearly profit is above the threshold.
pub open spec fn spec_should_charge_performance_fees(
    notional: DecimalValue,
    position: LPPosition,
    min_yearly_roi_for_fees: DecimalValue,
    now: Timestamp,
) -> bool {
    spec_gt(
        profits_per_year(redemption_profits(notional, position), now, position.subscription_time),
        fee_threshold(position, min_yearly_roi_for_fees),
    )
}

/// The redeemer is the admin and the fund is open: the redemption must leave the admin a
/// tenth of the fund, and hands out nothing.
pub open spec fn is_admin_redemption_while_open(state: FundState, sender: Seq<char>) -> bool {
    sender == state.config.admin@ && !state.is_fund_closed
}

/// The outcome of a redemption: what turns it down, or nothing.
pub open spec fn spec_redemption(
    state: FundState,
    now: Timestamp,
    sender: Seq<char>,
    holdings: FundHoldings,
) -> Result<(), ContractError> {
    if !state.lp_positions@.contains_key(sender) {
        Err(ContractError::Std(Rejection::NoPosition))
    } else {
        let position = state.lp_positions@[sender];
        match spec_valid_redemption(now, position.subscription_time, holdings.quote_balance@) {
            Err(e) => Err(e),
            Ok(()) => match redemption_notional(state, position, holdings) {
                Err(e) => Err(e),
                Ok(_) => if is_admin_redemption_while_open(state, sender) && below_admin_floor(
                    spec_sub(state.admin_owned_shares@, position.shares@),
                    spec_sub(state.lp_total_supply@, position.shares@),
                ) {
                    Err(ContractError::Std(Rejection::AdminBelowFloor))
                } else {
                    Ok(())
                },
            },
        }
    }
}

/// What a redemption that passes the first checks needs: the precision of the quote asset, a
/// holding for each derivative market of the configuration, and every step of the
/// computation in range.
pub open spec fn redemption_fits(
    state: FundState,
    now: Timestamp,
    sender: Seq<char>,
    redeemer_subaccount_id: Seq<char>,
    holdings: FundHoldings,
) -> bool {
    state.lp_positions@.contains_key(sender) && spec_valid_redemption(
        now,
        state.lp_positions@[sender].subscription_time,
        holdings.quote_balance@,
    ).is_ok() ==> {
        let position = state.lp_positions@[sender];
        &&& state.denom_decimals@.contains_key(state.config.quote_denom@)
        &&& holdings.derivatives@.len() == state.config.derivative_market_ids@.len()
        &&& pro_rata_fits(holdings.quote_balance@, position.shares@, state.lp_total_supply@)
        &&& coin_amount(quote_withdrawal(state, position, holdings)) <= u128::MAX
        &&& spot_total_fits(
            quote_withdrawal(state, position, holdings),
            holdings.spot@,
            state.denom_decimals@,
            state.denom_decimals@[state.config.quote_denom@],
            Some((position.shares, state.lp_total_supply)),
            holdings.spot@.len(),
        )
        &&& redemption_spot_total(state, position, holdings) matches Ok(sum) ==> {
            let notional = redemption_notional(state, position, holdings).unwrap();
            let profits = redemption_profits(notional, position);
            &&& derivative_redemption_fits(
                sum,
                holdings.derivatives@,
                position.shares@,
                state.lp_total_supply@,
                holdings.derivatives@.len(),
            )
            &&& sub_fits(notional, position.subscription_amount@)
            &&& mul_fits(profits, whole(ONE_YEAR_IN_SECONDS as nat))
            &&& div_fits(
                spec_mul(profits, whole(ONE_YEAR_IN_SECONDS as nat)),
                whole(holding_seconds(now, position.subscription_time) as nat),
            )
            &&& mul_fits(position.subscription_amount@, state.config.min_yearly_roi_for_fees@)
            &&& sub_fits(state.lp_total_supply@, position.shares@)
            &&& sender == state.config.admin@ ==> sub_fits(
                state.admin_owned_shares@,
                position.shares@,
            )
            &&& if is_admin_redemption_while_open(state, sender) {
                mul_fits(spec_sub(state.admin_owned_shares@, position.shares@), whole(10))
            } else {
                redemption_response_fits(
                    ledger_view(state.admin_fee_positions),
                    state.config.performance_fee_rate@,
                    redemption_funds(state, position, holdings),
                    profits,
                    notional,
                    redemption_position_transfers(state, position, redeemer_subaccount_id, holdings),
                    spec_should_charge_performance_fees(
                        notional,
                        position,
                        state.config.min_yearly_roi_for_fees@,
                        now,
                    ),
                )
            }
        }
    }
}

/// The fee that the redemption of `position` charges, if it charges one.
pub open spec fn redemption_fee(
    state: FundState,
    position: LPPosition,
    now: Timestamp,
    holdings: FundHoldings,
) -> Option<DecimalValue> {
    let notional = redemption_notional(state, position, holdings).unwrap();
    charged_fee(
        spec_should_charge_performance_fees(
            notional,
            position,
            state.config.min_yearly_roi_for_fees@,
            now,
        ),
        redemption_profits(notional, position),
        state.config.performance_fee_rate@,
        notional,
    )
}

/// The admin's share count after the position of `sender` has been burned.
pub open spec fn admin_owned_after_burn(state: FundState, sender: Seq<char>) -> DecimalValue {
    if sender == state.config.admin@ {
        spec_sub(state.admin_owned_shares@, state.lp_positions@[sender].shares@)
    } else {
        state.admin_owned_shares@
    }
}

/// `after` is `before` without the position of `sender`, whose shares have left the total,
/// and the admin's count where the admin is the sender. Configuration, precisions and the
/// closed flag are as they were.
pub open spec fn position_burned(before: FundState, after: FundState, sender: Seq<char>) -> bool {
    &&& after.config == before.config
    &&& after.denom_decimals == before.denom_decimals
    &&& after.is_fund_closed == before.is_fund_closed
    &&& after.lp_total_supply@ == spec_sub(
        before.lp_total_supply@,
        before.lp_positions@[sender].shares@,
    )
    &&& after.admin_owned_shares@ == admin_owned_after_burn(before, sender)
    &&& after.lp_positions@ == before.lp_positions@.remove(sender)
}

/// What a redemption that went through has done: the position is burned; the admin
/// redeeming from an open fund has been handed nothing and keeps a tenth of what remains;
/// anyone else has been handed each coin and each position transfer less the fee, and the
/// fees on position transfers stand in the ledger.
pub open spec fn redemption_done(
    before: FundState,
    after: FundState,
    response: Response,
    now: Timestamp,
    sender: Seq<char>,
    redeemer_subaccount_id: Seq<char>,
    holdings: FundHoldings,
) -> bool {
    let position = before.lp_positions@[sender];
    let fee = redemption_fee(before, position, now, holdings);
    let transfers = redemption_position_transfers(
        before,
        position,
        redeemer_subaccount_id,
        holdings,
    );
    &&& position_burned(before, after, sender)
    &&& if is_admin_redemption_while_open(before, sender) {
        &&& response.is_empty()
        &&& after.admin_fee_positions == before.admin_fee_positions
        &&& after.admin_floor_holds()
    } else {
        &&& !response.pass_through
        &&& bank_sends_view(response.bank_sends@) == spec_bank_sends(
            redemption_funds(before, position, holdings),
            fee,
            before.config.admin@,
            sender,
            redemption_funds(before, position, holdings).len(),
        )
        &&& transfers_view(response.position_transfers@) == transfers.map_values(
            |t: PositionTransferValue| net_transfer(t, fee),
        )
        &&& ledger_view(after.admin_fee_positions) == ledger_after(
            ledger_view(before.admin_fee_positions),
            transfers,
            fee,
            transfers.len(),
        )
        &&& fee.is_none() ==> after.admin_fee_positions == before.admin_fee_positions
        &&& sender != before.config.admin@ && before.admin_floor_holds()
            && position.shares@.signed() >= 0 ==> after.admin_floor_holds()
    }
}

/// Redeems the whole position of `sender` at time `now`: its part of every asset of the fund
/// leaves the fund, less a performance fee where the yearly profit is above the threshold.
/// The admin redeeming from an open fund must keep a tenth of what remains, and is handed
/// nothing. A call that is turned down leaves the fund as it was.
pub fn get_fund_redemption_response(
    state: &mut FundState,
    now: Timestamp,
    sender: &String,
    redeemer_subaccount_id: &String,
    holdings: &FundHoldings,
) -> (r: Result<Response, ContractError>)
    requires
        redemption_fits(*old(state), now, sender@, redeemer_subaccount_id@, *holdings),
    ensures
        match r {
            Ok(_) => Ok::<(), ContractError>(()),
            Err(e) => Err(e),
        } == spec_redemption(*old(state), now, sender@, *holdings),
        r matches Err(_) ==> *final(state) == *old(state),
        r matches Ok(response) ==> redemption_done(
            *old(state),
            *final(state),
            response,
            now,
            sender@,
            redeemer_subaccount_id@,
            *holdings,
        ),
        r.is_ok() && old(state).shares_conserved() ==> final(state).shares_conserved(),
        r.is_ok() && old(state).admin_shares_tracked() ==> final(state).admin_shares_tracked(),
{
    let lp_position = match state.lp_positions.get(sender) {
        Some(p) => p,
        None => {
            return Err(ContractError::Std(Rejection::NoPosition));
        },
    };
    match ensure_valid_redemption(now, lp_position.subscription_time, holdings.quote_balance) {
        Ok(()) => {},
        Err(e) => {
            return Err(e);
        },
    }
    let lp_shares_to_burn = lp_position.shares;
    let lp_total_supply = state.lp_total_supply;
    let quote_decimals = state.denom_decimals.get(&state.config.quote_denom).unwrap();
    let quote_withdrawal_amount = fp_div(
        fp_mul(holdings.quote_balance, lp_shares_to_burn),
        lp_total_supply,
    );
    let mut funds_to_return: Vec<Coin> = Vec::new();
    funds_to_return.push(
        Coin { denom: state.config.quote_denom.clone(), amount: fp_to_u128(quote_withdrawal_amount) },
    );
    let ghost quote_coin = funds_to_return@;
    let ghost redemption_data = Some((lp_shares_to_burn, lp_total_supply));
    let mut total_redemption_notional = quote_withdrawal_amount;
    let mut i: usize = 0;
    while i < holdings.spot.len()
        invariant
            i <= holdings.spot@.len(),
            *state == *old(state),
            state.denom_decimals@.contains_key(state.config.quote_denom@),
            quote_decimals == state.denom_decimals@[state.config.quote_denom@],
            redemption_data == Some((lp_shares_to_burn, lp_total_supply)),
            state.lp_positions@.contains_key(sender@),
            state.lp_positions@[sender@] == lp_position,
            lp_shares_to_burn == lp_position.shares,
            lp_total_supply == state.lp_total_supply,
            spec_valid_redemption(
                now,
                lp_position.subscription_time,
                holdings.quote_balance@,
            ).is_ok(),
            quote_withdrawal_amount@ == quote_withdrawal(*state, lp_position, *holdings),
            spot_total_fits(
                quote_withdrawal_amount@,
                holdings.spot@,
                state.denom_decimals@,
                quote_decimals,
                redemption_data,
                holdings.spot@.len(),
            ),
            spot_total(
                quote_withdrawal_amount@,
                holdings.spot@,
                state.denom_decimals@,
                quote_decimals,
                redemption_data,
                i as nat,
            ) == Ok::<DecimalValue, ContractError>(total_redemption_notional@),
            funds_to_return@ == quote_coin + spot_coins(holdings.spot@, redemption_data, i as nat),
        decreases holdings.spot@.len() - i,
    {
        proof {
            lemma_spot_total_fits_prefix(
                quote_withdrawal_amount@,
                holdings.spot@,
                state.denom_decimals@,
                quote_decimals,
                redemption_data,
                holdings.spot@.len(),
                (i + 1) as nat,
            );
        }
        let ghost funds_before = funds_to_return@;
        match get_spot_base_in_quote(
            &holdings.spot[i],
            &state.denom_decimals,
            quote_decimals,
            Some((lp_shares_to_burn, lp_total_supply)),
            &mut funds_to_return,
        ) {
            Ok(v) => {
                total_redemption_notional = fp_add(total_redemption_notional, v);
                proof {
                    assert(funds_to_return@ =~= quote_coin + spot_coins(
                        holdings.spot@,
                        redemption_data,
                        (i + 1) as nat,
                    ));
                }
            },
            Err(e) => {
                proof {
                    assert(spot_total(
                        quote_withdrawal_amount@,
                        holdings.spot@,
                        state.denom_decimals@,
                        quote_decimals,
                        redemption_data,
                        (i + 1) as nat,
                    ) == Err::<DecimalValue, ContractError>(e));
                    lemma_spot_total_error(
                        quote_withdrawal_amount@,
                        holdings.spot@,
                        state.denom_decimals@,
                        quote_decimals,
                        redemption_data,
                        (i + 1) as nat,
                        holdings.spot@.len(),
                    );
                }
                return Err(e);
            },
        }
        i += 1;
    }
    let ghost spot_sum = total_redemption_notional@;
    let mut position_transfers: Vec<PositionTransferAction> = Vec::new();
    let mut j: usize = 0;
    while j < state.config.derivative_market_ids.len()
        invariant
            j <= holdings.derivatives@.len(),
            *state == *old(state),
            holdings.derivatives@.len() == state.config.derivative_market_ids@.len(),
            derivative_redemption_fits(
                spot_sum,
                holdings.derivatives@,
                lp_shares_to_burn@,
                lp_total_supply@,
                holdings.derivatives@.len(),
            ),
            derivative_redemption_total(
                spot_sum,
                holdings.derivatives@,
                lp_shares_to_burn@,
                lp_total_supply@,
                j as nat,
            ) == total_redemption_notional@,
            transfers_view(position_transfers@) == redemption_transfers(
                state.config.derivative_market_ids@,
                holdings.derivatives@,
                state.config.fund_subaccount_id@,
                redeemer_subaccount_id@,
                lp_shares_to_burn@,
                lp_total_supply@,
                j as nat,
            ),
        decreases holdings.derivatives@.len() - j,
    {
        proof {
            lemma_derivative_redemption_fits_prefix(
                spot_sum,
                holdings.derivatives@,
                lp_shares_to_burn@,
                lp_total_supply@,
                holdings.derivatives@.len(),
                (j + 1) as nat,
            );
        }
        total_redemption_notional =
            get_updated_redemption_notional_and_update_derivative_position_transfers(
            total_redemption_notional,
            &mut position_transfers,
            &holdings.derivatives[j],
            &state.config.derivative_market_ids[j],
            &state.config.fund_subaccount_id,
            redeemer_subaccount_id,
            lp_shares_to_burn,
            lp_total_supply,
        );
        j += 1;
    }
    proof {
        lemma_holding_seconds(now, lp_position.subscription_time);
    }
    let total_profits = fp_sub(total_redemption_notional, lp_position.subscription_amount);
    let time_since_subscription = now.seconds() - lp_position.subscription_time.seconds();
    let profits_each_year = fp_div(
        fp_mul(total_profits, fp_from_u128(ONE_YEAR_IN_SECONDS as u128)),
        fp_from_u128(time_since_subscription as u128),
    );
    let should_charge_performance_fees = fp_gt(
        profits_each_year,
        fp_mul(lp_position.subscription_amount, state.config.min_yearly_roi_for_fees),
    );
    let new_lp_total_supply = fp_sub(lp_total_supply, lp_shares_to_burn);
    let admin_owned_shares = if *sender == state.config.admin {
        fp_sub(state.admin_owned_shares, lp_shares_to_burn)
    } else {
        state.admin_owned_shares
    };
    if *sender == state.config.admin && !state.is_fund_closed {
        if is_admin_below_floor(admin_owned_shares, new_lp_total_supply) {
            return Err(ContractError::Std(Rejection::AdminBelowFloor));
        }
        state.admin_owned_shares = admin_owned_shares;
        state.lp_total_supply = new_lp_total_supply;
        state.lp_positions.remove(sender);
        proof {
            lemma_burn(*old(state), *state, sender@);
        }
        return Ok(Response::new());
    }
    let mut admin_fee_positions = Records::new();
    std::mem::swap(&mut admin_fee_positions, &mut state.admin_fee_positions);
    let response = get_redemption_response(
        &mut admin_fee_positions,
        sender,
        &state.config,
        &funds_to_return,
        total_profits,
        total_redemption_notional,
        &position_transfers,
        should_charge_performance_fees,
    );
    state.admin_fee_positions = admin_fee_positions;
    state.admin_owned_shares = admin_owned_shares;
    state.lp_total_supply = new_lp_total_supply;
    state.lp_positions.remove(sender);
    proof {
        lemma_burn(*old(state), *state, sender@);
        lemma_sub_signed(old(state).lp_total_supply@, lp_shares_to_burn@);
    }
    Ok(response)
}

/// Burning a position keeps the total equal to the shares of the holders, and keeps the
/// admin's count in step with the admin's position.
proof fn lemma_burn(before: FundState, after: FundState, sender: Seq<char>)
    requires
        before.lp_positions@.contains_key(sender),
        after.config == before.config,
        after.is_fund_closed == before.is_fund_closed,
        after.lp_total_supply@ == spec_sub(
            before.lp_total_supply@,
            before.lp_positions@[sender].shares@,
        ),
        after.lp_positions@ == before.lp_positions@.remove(sender),
        exists|i: int|
            0 <= i < before.lp_positions.items().len() && #[trigger] before.lp_positions.items()[i].key@
                == sender && before.lp_positions.items()[i].value == before.lp_positions@[sender]
                && after.lp_positions.items() == before.lp_positions.items().remove(i),
        after.admin_owned_shares@ == admin_owned_after_burn(before, sender),
    ensures
        before.shares_conserved() ==> after.shares_conserved(),
        before.admin_shares_tracked() ==> after.admin_shares_tracked(),
{
    let i = choose|i: int|
        0 <= i < before.lp_positions.items().len() && #[trigger] before.lp_positions.items()[i].key@
            == sender && before.lp_positions.items()[i].value == before.lp_positions@[sender]
            && after.lp_positions.items() == before.lp_positions.items().remove(i);
    lemma_shares_sum_remove(before.lp_positions.items(), i);
    lemma_sub_signed(before.lp_total_supply@, before.lp_positions@[sender].shares@);
    lemma_sub_signed(before.admin_owned_shares@, before.lp_positions@[sender].shares@);
}

} // verus!
