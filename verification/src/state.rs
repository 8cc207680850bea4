use crate::decimal::{zero_value, Decimal};
use crate::records::{Record, Records};
use vstd::prelude::*;

verus! {

/// Where the price of a spot market's base asset comes from.
#[derive(Clone, Copy, Debug, PartialEq, Eq, Structural)]
pub enum OracleType {
    Unspecified,
    Band,
    PriceFeed,
    Coinbase,
    Chainlink,
    Razor,
    Dia,
    API3,
    Uma,
    Pyth,
    BandIBC,
    Provider,
}

/// A point in time, in nanoseconds since the Unix epoch.
#[derive(Clone, Copy, Debug, PartialEq, Eq, Structural)]
pub struct Timestamp {
    pub nanos: u64,
}

/// Nanoseconds in one second.
pub const NANOS_PER_SECOND: u64 = 1_000_000_000;

impl Timestamp {
    /// Whole seconds since the epoch.
    pub fn seconds(&self) -> (s: u64)
        ensures
            s == self.nanos / NANOS_PER_SECOND,
    {
        self.nanos / NANOS_PER_SECOND
    }
}

/// What the fund was set up with; it never changes afterwards.
#[derive(Clone, Debug, PartialEq, Eq)]
pub struct Config {
    pub admin: String,
    pub spot_oracle_types: Vec<OracleType>,
    pub spot_market_ids: Vec<String>,
    pub derivative_market_ids: Vec<String>,
    pub quote_denom: String,
    pub fund_subaccount_id: String,
    pub performance_fee_rate: Decimal,
    /// 1.1 stands for a yearly return of 10% below which the admin earns no fee.
    pub min_yearly_roi_for_fees: Decimal,
}

/// What one holder owns.
#[derive(Clone, Copy, Debug, PartialEq, Eq)]
pub struct LPPosition {
    pub shares: Decimal,
    pub subscription_time: Timestamp,
    pub subscription_amount: Decimal,
}

/// Everything the fund keeps between calls.
pub struct FundState {
    pub config: Config,
    pub denom_decimals: Records<u64>,
    pub lp_total_supply: Decimal,
    pub lp_positions: Records<LPPosition>,
    pub admin_owned_shares: Decimal,
    pub admin_fee_positions: Records<Decimal>,
    pub is_fund_closed: bool,
}

/// The shares of all the positions in `s` together, in units of `10^-18`.
pub open spec fn shares_sum(s: Seq<Record<LPPosition>>) -> int
    decreases s.len(),
{
    if s.len() == 0 {
        0
    } else {
        shares_sum(s.drop_last()) + s.last().value.shares@.signed()
    }
}

/// Taking one position out lowers the sum by its shares.
pub proof fn lemma_shares_sum_remove(s: Seq<Record<LPPosition>>, i: int)
    requires
        0 <= i < s.len(),
    ensures
        shares_sum(s.remove(i)) == shares_sum(s) - s[i].value.shares@.signed(),
    decreases s.len(),
{
    if i == s.len() - 1 {
        assert(s.remove(i) =~= s.drop_last());
    } else {
        lemma_shares_sum_remove(s.drop_last(), i);
        assert(s.remove(i).drop_last() =~= s.drop_last().remove(i));
        assert(s.remove(i).last() == s.last());
    }
}

impl FundState {
    /// The total that is kept equals the shares of all holders together.
    pub open spec fn shares_conserved(&self) -> bool {
        self.lp_total_supply@.signed() == shares_sum(self.lp_positions.items())
    }

    /// The shares that the admin holds as a holder; nothing if the admin holds no position.
    pub open spec fn admin_position_shares(&self) -> int {
        if self.lp_positions@.contains_key(self.config.admin@) {
            self.lp_positions@[self.config.admin@].shares@.signed()
        } else {
            0
        }
    }

    /// The running count of the admin's shares agrees with the admin's position.
    pub open spec fn admin_shares_tracked(&self) -> bool {
        self.admin_owned_shares@.signed() == self.admin_position_shares()
    }

    /// The admin owns at least a tenth of all shares.
    pub open spec fn admin_floor_holds(&self) -> bool {
        self.admin_owned_shares@.signed() * 10 >= self.lp_total_supply@.signed()
    }

    /// A fund that has issued nothing yet.
    pub fn new(config: Config, denom_decimals: Records<u64>) -> (r: FundState)
        ensures
            r.config == config,
            r.denom_decimals == denom_decimals,
            r.lp_total_supply@ == zero_value(),
            r.lp_positions@ == Map::<Seq<char>, LPPosition>::empty(),
            r.admin_owned_shares@ == zero_value(),
            r.admin_fee_positions@ == Map::<Seq<char>, Decimal>::empty(),
            !r.is_fund_closed,
            r.shares_conserved(),
            r.admin_shares_tracked(),
            r.admin_floor_holds(),
    {
        FundState {
            config,
            denom_decimals,
            lp_total_supply: Decimal::zero(),
            lp_positions: Records::new(),
            admin_owned_shares: Decimal::zero(),
            admin_fee_positions: Records::new(),
            is_fund_closed: false,
        }
    }
}

} // verus!
