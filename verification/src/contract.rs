use crate::closing_fund::{close_fund, spec_close_fund};
use crate::decimal::{whole, Decimal};
use crate::error::{ContractError, Rejection};
use crate::lp_actions::redemptions::{
    get_fund_redemption_response, redemption_done, redemption_fits, spec_redemption,
};
use crate::lp_actions::subscriptions::{
    get_fund_subscription_response, spec_subscription, spec_subscription_mint,
    subscription_fits, subscription_stored, supplied_amount,
};
use crate::market::{
    transfers_view, Coin, DenomDecimals, DerivativeHolding, DerivativeMarketInfo, FundHoldings,
    Position, PositionTransferAction, PositionTransferValue, Response, SpotMarketInfo,
};
use crate::msg::{AdminMessage, ExecuteMsg, InstantiateMsg, QueryMsg};
use crate::records::{Record, Records};
use crate::state::{Config, FundState, Timestamp};
use vstd::prelude::*;

verus! {

/// The first thing asked of a fund's markets: that there is one, and that every spot market
/// has its oracle type.
pub open spec fn spec_markets_configured(msg: InstantiateMsg) -> Result<(), ContractError> {
    if msg.spot_market_ids@.len() == 0 && msg.derivative_market_ids@.len() == 0 {
        Err(ContractError::NoMarketsProvided)
    } else if msg.spot_market_ids@.len() != msg.spot_oracle_types@.len() {
        Err(ContractError::InvalidSpotOracleTypes)
    } else {
        Ok(())
    }
}

/// Checks that markets are given and that the oracle types match the spot markets in number.
pub fn ensure_markets_configured(msg: &InstantiateMsg) -> (r: Result<(), ContractError>)
    ensures
        r == spec_markets_configured(*msg),
{
    if msg.spot_market_ids.len() == 0 && msg.derivative_market_ids.len() == 0 {
        return Err(ContractError::NoMarketsProvided);
    }
    if msg.spot_market_ids.len() != msg.spot_oracle_types.len() {
        return Err(ContractError::InvalidSpotOracleTypes);
    }
    Ok(())
}

/// Some market is quoted in another asset than `quote_denom`.
pub open spec fn has_foreign_quote(
    spot_markets: Seq<SpotMarketInfo>,
    derivative_markets: Seq<DerivativeMarketInfo>,
    quote_denom: Seq<char>,
) -> bool {
    ||| exists|i: int|
        0 <= i < spot_markets.len() && (#[trigger] spot_markets[i]).quote_denom@ != quote_denom
    ||| exists|i: int|
        0 <= i < derivative_markets.len() && (#[trigger] derivative_markets[i]).quote_denom@
            != quote_denom
}

/// Whether a fund can be set up on these markets.
pub open spec fn spec_instantiate(
    msg: InstantiateMsg,
    spot_markets: Seq<SpotMarketInfo>,
    derivative_markets: Seq<DerivativeMarketInfo>,
) -> Result<(), ContractError> {
    match spec_markets_configured(msg) {
        Err(e) => Err(e),
        Ok(()) => if has_foreign_quote(spot_markets, derivative_markets, msg.quote_denom@) {
            Err(ContractError::IncorrectMarketQuoteDenom)
        } else {
            Ok(())
        },
    }
}

/// The assets that the fund can hold: the quote asset, then the base asset of each of the
/// first `n` spot markets where it has not come before.
pub open spec fn fund_denoms(
    quote_denom: Seq<char>,
    spot_markets: Seq<SpotMarketInfo>,
    n: nat,
) -> Seq<Seq<char>>
    decreases n,
{
    if n == 0 {
        seq![quote_denom]
    } else {
        let before = fund_denoms(quote_denom, spot_markets, (n - 1) as nat);
        if before.contains(spot_markets[n - 1].base_denom@) {
            before
        } else {
            before.push(spot_markets[n - 1].base_denom@)
        }
    }
}

/// The strings in `s`, each by its characters.
pub open spec fn strings_view(s: Seq<String>) -> Seq<Seq<char>> {
    s.map_values(|t: String| t@)
}

fn contains_string(v: &Vec<String>, s: &String) -> (r: bool)
    ensures
        r == strings_view(v@).contains(s@),
{
    let mut i: usize = 0;
    while i < v.len()
        invariant
            i <= v@.len(),
            forall|k: int| 0 <= k < i ==> strings_view(v@)[k] != s@,
        decreases v@.len() - i,
    {
        if v[i] == *s {
            assert(strings_view(v@)[i as int] == s@);
            return true;
        }
        i += 1;
    }
    false
}

/// Sets a fund up for `sender` as its admin. `spot_markets` and `derivative_markets` hold
/// what each market of the message reports of itself, in the order of the message. Gives the
/// configuration and the assets whose precision the fund needs to know.
pub fn instantiate(
    sender: &String,
    msg: InstantiateMsg,
    spot_markets: &Vec<SpotMarketInfo>,
    derivative_markets: &Vec<DerivativeMarketInfo>,
) -> (r: Result<(Config, Vec<String>), ContractError>)
    requires
        spec_markets_configured(msg).is_ok() ==> spot_markets@.len() == msg.spot_market_ids@.len()
            && derivative_markets@.len() == msg.derivative_market_ids@.len(),
    ensures
        match r {
            Ok(_) => Ok::<(), ContractError>(()),
            Err(e) => Err(e),
        } == spec_instantiate(msg, spot_markets@, derivative_markets@),
        r matches Ok((config, denoms)) ==> {
            &&& config.admin@ == sender@
            &&& config.spot_oracle_types == msg.spot_oracle_types
            &&& config.spot_market_ids == msg.spot_market_ids
            &&& config.derivative_market_ids == msg.derivative_market_ids
            &&& config.quote_denom == msg.quote_denom
            &&& config.fund_subaccount_id == msg.subaccount_id
            &&& config.performance_fee_rate == msg.performance_fee_rate
            &&& config.min_yearly_roi_for_fees == msg.min_yearly_roi_for_fees
            &&& strings_view(denoms@) == fund_denoms(
                msg.quote_denom@,
                spot_markets@,
                spot_markets@.len(),
            )
        },
{
    match ensure_markets_configured(&msg) {
        Ok(()) => {},
        Err(e) => {
            return Err(e);
        },
    }
    let mut denoms: Vec<String> = Vec::new();
    denoms.push(msg.quote_denom.clone());
    assert(strings_view(denoms@) =~= seq![msg.quote_denom@]);
    let mut i: usize = 0;
    while i < spot_markets.len()
        invariant
            i <= spot_markets@.len(),
            spec_markets_configured(msg).is_ok(),
            forall|k: int|
                0 <= k < i ==> (#[trigger] spot_markets@[k]).quote_denom@ == msg.quote_denom@,
            strings_view(denoms@) == fund_denoms(msg.quote_denom@, spot_markets@, i as nat),
        decreases spot_markets@.len() - i,
    {
        let spot_market = &spot_markets[i];
        if !contains_string(&denoms, &spot_market.base_denom) {
            let ghost before = denoms@;
            denoms.push(spot_market.base_denom.clone());
            assert(strings_view(denoms@) =~= strings_view(before).push(spot_market.base_denom@));
        }
        if spot_market.quote_denom != msg.quote_denom {
            assert(spot_markets@[i as int].quote_denom@ != msg.quote_denom@);
            return Err(ContractError::IncorrectMarketQuoteDenom);
        }
        i += 1;
    }
    let mut j: usize = 0;
    while j < derivative_markets.len()
        invariant
            j <= derivative_markets@.len(),
            spec_markets_configured(msg).is_ok(),
            forall|k: int|
                0 <= k < spot_markets@.len() ==> (#[trigger] spot_markets@[k]).quote_denom@
                    == msg.quote_denom@,
            forall|k: int|
                0 <= k < j ==> (#[trigger] derivative_markets@[k]).quote_denom@
                    == msg.quote_denom@,
        decreases derivative_markets@.len() - j,
    {
        if derivative_markets[j].quote_denom != msg.quote_denom {
            assert(derivative_markets@[j as int].quote_denom@ != msg.quote_denom@);
            return Err(ContractError::IncorrectMarketQuoteDenom);
        }
        j += 1;
    }
    let config = Config {
        admin: sender.clone(),
        spot_oracle_types: msg.spot_oracle_types,
        spot_market_ids: msg.spot_market_ids,
        derivative_market_ids: msg.derivative_market_ids,
        quote_denom: msg.quote_denom,
        fund_subaccount_id: msg.subaccount_id,
        performance_fee_rate: msg.performance_fee_rate,
        min_yearly_roi_for_fees: msg.min_yearly_roi_for_fees,
    };
    Ok((config, denoms))
}

/// The table of precisions that the first `n` entries give; a later entry for an asset
/// replaces an earlier one.
pub open spec fn decimals_table(entries: Seq<DenomDecimals>, n: nat) -> Map<Seq<char>, u64>
    decreases n,
{
    if n == 0 {
        Map::empty()
    } else {
        decimals_table(entries, (n - 1) as nat).insert(
            entries[n - 1].denom@,
            entries[n - 1].decimals,
        )
    }
}

/// Builds the table of precisions from what was reported for each asset.
pub fn denom_decimals_table(entries: &Vec<DenomDecimals>) -> (r: Records<u64>)
    ensures
        r@ == decimals_table(entries@, entries@.len()),
{
    let mut table: Records<u64> = Records::new();
    let mut i: usize = 0;
    while i < entries.len()
        invariant
            i <= entries@.len(),
            table@ == decimals_table(entries@, i as nat),
        decreases entries@.len() - i,
    {
        table.insert(entries[i].denom.clone(), entries[i].decimals);
        i += 1;
    }
    table
}

/// Only a batch update of orders may be sent on the admin's word.
pub fn is_message_authorized(msg: &AdminMessage) -> (r: bool)
    ensures
        r == (*msg == AdminMessage::BatchUpdateOrders),
{
    match msg {
        AdminMessage::BatchUpdateOrders => true,
        _ => false,
    }
}

/// Every message in `msgs` is a batch update of orders.
pub open spec fn spec_messages_authorized(msgs: Seq<AdminMessage>) -> bool {
    forall|i: int| 0 <= i < msgs.len() ==> #[trigger] msgs[i] == AdminMessage::BatchUpdateOrders
}

/// True where every message may be sent.
pub fn are_messages_authorized(msgs: &Vec<AdminMessage>) -> (r: bool)
    ensures
        r == spec_messages_authorized(msgs@),
{
    let mut i: usize = 0;
    while i < msgs.len()
        invariant
            i <= msgs@.len(),
            forall|k: int| 0 <= k < i ==> #[trigger] msgs@[k] == AdminMessage::BatchUpdateOrders,
        decreases msgs@.len() - i,
    {
        if !is_message_authorized(&msgs[i]) {
            return false;
        }
        i += 1;
    }
    true
}

/// Whether a batch of messages goes out: only from the admin, only while the fund is open,
/// and only where every message may be sent.
pub open spec fn spec_execute_messages(
    state: FundState,
    sender: Seq<char>,
    msgs: Seq<AdminMessage>,
) -> Result<(), ContractError> {
    if sender != state.config.admin@ {
        Err(ContractError::Unauthorized)
    } else if state.is_fund_closed {
        Err(ContractError::Std(Rejection::FundClosed))
    } else if !spec_messages_authorized(msgs) {
        Err(ContractError::Unauthorized)
    } else {
        Ok(())
    }
}

/// Passes a batch of the admin's messages on, as it was submitted.
pub fn execute_messages(state: &FundState, sender: &String, msgs: &Vec<AdminMessage>) -> (r: Result<
    Response,
    ContractError,
>)
    ensures
        match r {
            Ok(_) => Ok::<(), ContractError>(()),
            Err(e) => Err(e),
        } == spec_execute_messages(*state, sender@, msgs@),
        r matches Ok(response) ==> response.pass_through && response.bank_sends@.len() == 0
            && response.position_transfers@.len() == 0,
{
    if *sender != state.config.admin {
        return Err(ContractError::Unauthorized);
    }
    if state.is_fund_closed {
        return Err(ContractError::Std(Rejection::FundClosed));
    }
    if !are_messages_authorized(msgs) {
        return Err(ContractError::Unauthorized);
    }
    Ok(Response { bank_sends: Vec::new(), position_transfers: Vec::new(), pass_through: true })
}

/// The transfer that hands the admin what one market owes.
pub open spec fn fee_transfer(
    owed: Record<Decimal>,
    fund_subaccount_id: Seq<char>,
    receiving_subaccount_id: Seq<char>,
) -> PositionTransferValue {
    PositionTransferValue {
        market_id: owed.key@,
        source_subaccount_id: fund_subaccount_id,
        destination_subaccount_id: receiving_subaccount_id,
        quantity: owed.value@,
    }
}

/// What a claim of the fees has done: one transfer for each market that owed something, in
/// the order in which the markets came to owe, and a ledger that owes nothing.
pub open spec fn fees_claimed(
    before: FundState,
    after: FundState,
    response: Response,
    receiving_subaccount_id: Seq<char>,
) -> bool {
    &&& transfers_view(response.position_transfers@) == before.admin_fee_positions.items().map_values(
        |owed: Record<Decimal>|
            fee_transfer(owed, before.config.fund_subaccount_id@, receiving_subaccount_id),
    )
    &&& response.bank_sends@.len() == 0
    &&& !response.pass_through
    &&& after.admin_fee_positions@ == Map::<Seq<char>, Decimal>::empty()
    &&& after.config == before.config
    &&& after.denom_decimals == before.denom_decimals
    &&& after.lp_total_supply == before.lp_total_supply
    &&& after.lp_positions == before.lp_positions
    &&& after.admin_owned_shares == before.admin_owned_shares
    &&& after.is_fund_closed == before.is_fund_closed
}

/// Hands the admin the position fees that have accrued: a transfer to
/// `receiving_subaccount_id` for each market that owes, after which nothing is owed.
pub fn admin_receive_fee_positions(
    state: &mut FundState,
    sender: &String,
    receiving_subaccount_id: &String,
) -> (r: Result<Response, ContractError>)
    ensures
        r.is_ok() <==> sender@ == old(state).config.admin@,
        r matches Err(e) ==> e == ContractError::Unauthorized && *final(state) == *old(state),
        r matches Ok(response) ==> fees_claimed(
            *old(state),
            *final(state),
            response,
            receiving_subaccount_id@,
        ),
{
    if *sender != state.config.admin {
        return Err(ContractError::Unauthorized);
    }
    let mut position_transfers: Vec<PositionTransferAction> = Vec::new();
    let mut i: usize = 0;
    while i < state.admin_fee_positions.len()
        invariant
            i <= state.admin_fee_positions.items().len(),
            *state == *old(state),
            position_transfers@.len() == i,
            forall|k: int|
                0 <= k < i ==> (#[trigger] position_transfers@[k])@ == fee_transfer(
                    state.admin_fee_positions.items()[k],
                    state.config.fund_subaccount_id@,
                    receiving_subaccount_id@,
                ),
        decreases state.admin_fee_positions.items().len() - i,
    {
        position_transfers.push(
            PositionTransferAction {
                market_id: state.admin_fee_positions.key_at(i).clone(),
                source_subaccount_id: state.config.fund_subaccount_id.clone(),
                destination_subaccount_id: receiving_subaccount_id.clone(),
                quantity: state.admin_fee_positions.value_at(i),
            },
        );
        i += 1;
    }
    proof {
        assert(transfers_view(position_transfers@) =~= state.admin_fee_positions.items().map_values(
            |owed: Record<Decimal>|
                fee_transfer(owed, state.config.fund_subaccount_id@, receiving_subaccount_id@),
        ));
    }
    state.admin_fee_positions = Records::new();
    Ok(Response { bank_sends: Vec::new(), position_transfers, pass_through: false })
}

/// What each derivative market reports as the fund's position.
pub open spec fn vault_positions(derivatives: Seq<DerivativeHolding>) -> Seq<Option<Position>> {
    derivatives.map_values(|h: DerivativeHolding| h.position)
}

/// What a call needs to be in range, by its kind.
pub open spec fn execute_fits(
    state: FundState,
    now: Timestamp,
    sender: Seq<char>,
    funds: Seq<Coin>,
    msg: ExecuteMsg,
    holdings: FundHoldings,
) -> bool {
    match msg {
        ExecuteMsg::Subscribe {  } => subscription_fits(state, sender, funds, holdings),
        ExecuteMsg::Redeem { redeemer_subaccount_id } => redemption_fits(
            state,
            now,
            sender,
            redeemer_subaccount_id@,
            holdings,
        ),
        ExecuteMsg::CloseFund {  } => holdings.derivatives@.len()
            == state.config.derivative_market_ids@.len(),
        _ => true,
    }
}

/// The outcome of a call: what turns it down, or nothing.
pub open spec fn spec_execute(
    state: FundState,
    now: Timestamp,
    sender: Seq<char>,
    funds: Seq<Coin>,
    msg: ExecuteMsg,
    holdings: FundHoldings,
) -> Result<(), ContractError> {
    match msg {
        ExecuteMsg::AdminExecuteMessages { injective_messages } => spec_execute_messages(
            state,
            sender,
            injective_messages@,
        ),
        ExecuteMsg::Subscribe {  } => spec_subscription(state, sender, funds, holdings),
        ExecuteMsg::Redeem { redeemer_subaccount_id } => spec_redemption(
            state,
            now,
            sender,
            holdings,
        ),
        ExecuteMsg::AdminReceiveFeePositions { receiving_subaccount_id } => if sender
            == state.config.admin@ {
            Ok(())
        } else {
            Err(ContractError::Unauthorized)
        },
        ExecuteMsg::CloseFund {  } => spec_close_fund(
            state,
            sender,
            vault_positions(holdings.derivatives@),
        ),
    }
}

/// What a call that went through has done, by its kind.
pub open spec fn executed(
    before: FundState,
    after: FundState,
    response: Response,
    now: Timestamp,
    sender: String,
    funds: Seq<Coin>,
    msg: ExecuteMsg,
    holdings: FundHoldings,
) -> bool {
    match msg {
        ExecuteMsg::AdminExecuteMessages { injective_messages } => after == before
            && response.pass_through && response.bank_sends@.len() == 0
            && response.position_transfers@.len() == 0,
        ExecuteMsg::Subscribe {  } => response.is_empty() && after.admin_floor_holds()
            && subscription_stored(
            before,
            after,
            now,
            sender,
            spec_subscription_mint(before, funds, holdings).unwrap(),
            whole(supplied_amount(funds)),
        ),
        ExecuteMsg::Redeem { redeemer_subaccount_id } => redemption_done(
            before,
            after,
            response,
            now,
            sender@,
            redeemer_subaccount_id@,
            holdings,
        ),
        ExecuteMsg::AdminReceiveFeePositions { receiving_subaccount_id } => fees_claimed(
            before,
            after,
            response,
            receiving_subaccount_id@,
        ),
        ExecuteMsg::CloseFund {  } => {
            &&& response.is_empty()
            &&& after.is_fund_closed
            &&& after.config == before.config
            &&& after.denom_decimals == before.denom_decimals
            &&& after.lp_total_supply == before.lp_total_supply
            &&& after.lp_positions == before.lp_positions
            &&& after.admin_owned_shares == before.admin_owned_shares
            &&& after.admin_fee_positions == before.admin_fee_positions
        },
    }
}

/// Carries out one call on the fund at time `now`, on behalf of `sender`, who sent `funds`
/// along. `holdings` is what the fund holds at that time. A call that is turned down leaves
/// the fund as it was.
pub fn execute(
    state: &mut FundState,
    now: Timestamp,
    sender: &String,
    funds: &Vec<Coin>,
    msg: ExecuteMsg,
    holdings: &FundHoldings,
) -> (r: Result<Response, ContractError>)
    requires
        execute_fits(*old(state), now, sender@, funds@, msg, *holdings),
    ensures
        match r {
            Ok(_) => Ok::<(), ContractError>(()),
            Err(e) => Err(e),
        } == spec_execute(*old(state), now, sender@, funds@, msg, *holdings),
        r matches Err(_) ==> *final(state) == *old(state),
        r matches Ok(response) ==> executed(
            *old(state),
            *final(state),
            response,
            now,
            *sender,
            funds@,
            msg,
            *holdings,
        ),
        r.is_ok() && old(state).shares_conserved() ==> final(state).shares_conserved(),
        r.is_ok() && old(state).admin_shares_tracked() ==> final(state).admin_shares_tracked(),
{
    match msg {
        ExecuteMsg::AdminExecuteMessages { injective_messages } => execute_messages(
            state,
            sender,
            &injective_messages,
        ),
        ExecuteMsg::Subscribe {  } => get_fund_subscription_response(
            state,
            now,
            sender,
            funds,
            holdings,
        ),
        ExecuteMsg::Redeem { redeemer_subaccount_id } => get_fund_redemption_response(
            state,
            now,
            sender,
            &redeemer_subaccount_id,
            holdings,
        ),
        ExecuteMsg::AdminReceiveFeePositions { receiving_subaccount_id } => {
            admin_receive_fee_positions(state, sender, &receiving_subaccount_id)
        },
        ExecuteMsg::CloseFund {  } => {
            let mut positions: Vec<Option<Position>> = Vec::new();
            let mut i: usize = 0;
            while i < holdings.derivatives.len()
                invariant
                    i <= holdings.derivatives@.len(),
                    *state == *old(state),
                    positions@ == vault_positions(holdings.derivatives@).take(i as int),
                decreases holdings.derivatives@.len() - i,
            {
                positions.push(holdings.derivatives[i].position);
                assert(positions@ =~= vault_positions(holdings.derivatives@).take(i + 1));
                i += 1;
            }
            assert(positions@ =~= vault_positions(holdings.derivatives@));
            close_fund(state, sender, &positions)
        },
    }
}

/// The answer to a probe.
pub open spec fn spec_query(msg: QueryMsg) -> Seq<char> {
    "pong"@
}

/// Answers a call that only reads.
pub fn query(msg: QueryMsg) -> (r: String)
    ensures
        r@ == spec_query(msg),
{
    match msg {
        QueryMsg::Ping {  } => String::from_str("pong"),
    }
}

} // verus!
