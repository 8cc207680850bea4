use crate::decimal::{Decimal, DecimalValue};
use cosmwasm_std::Uint128;
use vstd::prelude::*;

verus! {

/// An amount of one asset, in its smallest unit.
#[derive(Clone, Debug, PartialEq, Eq)]
pub struct Coin {
    pub denom: String,
    pub amount: u128,
}

/// `Uint128`'s `-`: the difference of two coin amounts. It panics where the second is the
/// greater.
#[verifier::external_body]
pub(crate) fn uint128_sub(a: u128, b: u128) -> (r: u128)
    requires
        b <= a,
    ensures
        r == a - b,
{
    (Uint128::new(a) - Uint128::new(b)).u128()
}

/// An open position in a derivative market.
#[derive(Clone, Copy, Debug, PartialEq, Eq)]
pub struct Position {
    pub is_long: bool,
    pub quantity: Decimal,
    pub entry_price: Decimal,
    pub margin: Decimal,
    pub cumulative_funding_entry: Decimal,
}

/// The mathematical content of a [`Position`].
pub struct PositionValue {
    pub is_long: bool,
    pub quantity: DecimalValue,
    pub entry_price: DecimalValue,
    pub margin: DecimalValue,
    pub cumulative_funding_entry: DecimalValue,
}

impl View for Position {
    type V = PositionValue;

    open spec fn view(&self) -> PositionValue {
        PositionValue {
            is_long: self.is_long,
            quantity: self.quantity@,
            entry_price: self.entry_price@,
            margin: self.margin@,
            cumulative_funding_entry: self.cumulative_funding_entry@,
        }
    }
}

/// What a derivative market reports: its mark price and, where the market carries funding
/// information, the cumulative funding.
#[derive(Clone, Copy, Debug, PartialEq, Eq)]
pub struct DerivativeMarket {
    pub mark_price: Decimal,
    pub cumulative_funding: Option<Decimal>,
}

/// The fund's holding in one spot market: the base asset, the balance held of it and the raw
/// oracle price of the base asset in the quote asset.
#[derive(Clone, Debug, PartialEq, Eq)]
pub struct SpotHolding {
    pub base_denom: String,
    pub base_balance: Decimal,
    pub raw_oracle_price: Decimal,
}

/// The fund's holding in one derivative market: its position, if it has one, and the market.
#[derive(Clone, Copy, Debug, PartialEq, Eq)]
pub struct DerivativeHolding {
    pub position: Option<Position>,
    pub market: DerivativeMarket,
}

/// What the fund holds at the time of a call: the quote balance, and one holding for each
/// configured spot and derivative market, in the order of the configuration.
#[derive(Clone, Debug, PartialEq, Eq)]
pub struct FundHoldings {
    pub quote_balance: Decimal,
    pub spot: Vec<SpotHolding>,
    pub derivatives: Vec<DerivativeHolding>,
}

/// What a spot market reports of itself: its two assets.
#[derive(Clone, Debug, PartialEq, Eq)]
pub struct SpotMarketInfo {
    pub base_denom: String,
    pub quote_denom: String,
}

/// What a derivative market reports of itself: its quote asset.
#[derive(Clone, Debug, PartialEq, Eq)]
pub struct DerivativeMarketInfo {
    pub quote_denom: String,
}

/// The decimal precision of one asset.
#[derive(Clone, Debug, PartialEq, Eq)]
pub struct DenomDecimals {
    pub denom: String,
    pub decimals: u64,
}

/// An instruction to pay `amount` of `denom` to `to_address`.
#[derive(Clone, Debug, PartialEq, Eq)]
pub struct BankSend {
    pub to_address: String,
    pub denom: String,
    pub amount: u128,
}

/// An instruction to move `quantity` of a derivative position from one subaccount to another.
#[derive(Clone, Debug, PartialEq, Eq)]
pub struct PositionTransferAction {
    pub market_id: String,
    pub source_subaccount_id: String,
    pub destination_subaccount_id: String,
    pub quantity: Decimal,
}

/// The mathematical content of a [`BankSend`].
pub struct BankSendValue {
    pub to_address: Seq<char>,
    pub denom: Seq<char>,
    pub amount: nat,
}

impl View for BankSend {
    type V = BankSendValue;

    open spec fn view(&self) -> BankSendValue {
        BankSendValue {
            to_address: self.to_address@,
            denom: self.denom@,
            amount: self.amount as nat,
        }
    }
}

/// The mathematical content of a [`PositionTransferAction`].
pub struct PositionTransferValue {
    pub market_id: Seq<char>,
    pub source_subaccount_id: Seq<char>,
    pub destination_subaccount_id: Seq<char>,
    pub quantity: DecimalValue,
}

impl View for PositionTransferAction {
    type V = PositionTransferValue;

    open spec fn view(&self) -> PositionTransferValue {
        PositionTransferValue {
            market_id: self.market_id@,
            source_subaccount_id: self.source_subaccount_id@,
            destination_subaccount_id: self.destination_subaccount_id@,
            quantity: self.quantity@,
        }
    }
}

/// The payments in `s`, each by its content.
pub open spec fn bank_sends_view(s: Seq<BankSend>) -> Seq<BankSendValue> {
    s.map_values(|b: BankSend| b@)
}

/// The transfers in `s`, each by its content.
pub open spec fn transfers_view(s: Seq<PositionTransferAction>) -> Seq<PositionTransferValue> {
    s.map_values(|t: PositionTransferAction| t@)
}

/// What a successful call hands out: payments, position transfers, and whether the batch of
/// messages that came with the call goes out as it was submitted.
#[derive(Clone, Debug, PartialEq, Eq)]
pub struct Response {
    pub bank_sends: Vec<BankSend>,
    pub position_transfers: Vec<PositionTransferAction>,
    pub pass_through: bool,
}

impl Response {
    /// The response that hands out nothing.
    pub fn new() -> (r: Response)
        ensures
            r.bank_sends@.len() == 0,
            r.position_transfers@.len() == 0,
            !r.pass_through,
    {
        Response { bank_sends: Vec::new(), position_transfers: Vec::new(), pass_through: false }
    }

    /// True of the response that hands out nothing.
    pub open spec fn is_empty(&self) -> bool {
        self.bank_sends@.len() == 0 && self.position_transfers@.len() == 0 && !self.pass_through
    }
}

} // verus!
