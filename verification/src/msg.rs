use crate::decimal::Decimal;
use crate::state::OracleType;
use vstd::prelude::*;

verus! {

/// What a fund is set up with.
#[derive(Clone, Debug, PartialEq, Eq)]
pub struct InstantiateMsg {
    pub spot_oracle_types: Vec<OracleType>,
    pub spot_market_ids: Vec<String>,
    pub derivative_market_ids: Vec<String>,
    /// Every market must have this asset as its quote asset.
    pub quote_denom: String,
    pub subaccount_id: String,
    pub performance_fee_rate: Decimal,
    pub min_yearly_roi_for_fees: Decimal,
}

/// The shape of a message that the admin asks the fund to send.
#[derive(Clone, Copy, Debug, PartialEq, Eq, Structural)]
pub enum AdminMessage {
    /// A batch update of the fund's orders on the exchange.
    BatchUpdateOrders,
    /// Any other message to the exchange.
    Custom,
    /// A message to anything but the exchange.
    Native,
}

/// The calls that change the fund.
#[derive(Clone, Debug, PartialEq, Eq)]
pub enum ExecuteMsg {
    AdminExecuteMessages { injective_messages: Vec<AdminMessage> },
    Subscribe {  },
    Redeem { redeemer_subaccount_id: String },
    AdminReceiveFeePositions { receiving_subaccount_id: String },
    CloseFund {  },
}

/// The calls that the chain itself makes.
#[derive(Clone, Copy, Debug, PartialEq, Eq, Structural)]
pub enum SudoMsg {
    BeginBlocker {  },
}

/// The calls that only read.
#[derive(Clone, Copy, Debug, PartialEq, Eq, Structural)]
pub enum QueryMsg {
    Ping {  },
}

} // verus!
