use vstd::prelude::*;

verus! {

/// Why a request was turned down on the rules of the fund or on what the market reports.
#[derive(Clone, Copy, Debug, PartialEq, Eq, Structural)]
pub enum Rejection {
    FundClosed,
    InvalidCoinDenomination,
    NegativeQuoteDeposits,
    NegativeBaseDeposits,
    NoPosition,
    HoldPeriodNotElapsed,
    NonPositiveDeposit,
    InsufficientFundsToMint,
    AlreadySubscribed,
    AdminBelowFloor,
}

/// Every reason for which a call fails.
#[derive(Clone, Copy, Debug, PartialEq, Eq, Structural)]
pub enum ContractError {
    Std(Rejection),
    Unauthorized,
    NoMarketsProvided,
    InvalidSpotOracleTypes,
    IncorrectMarketQuoteDenom,
    NonZeroVaultPosition,
}

impl Rejection {
    /// The text that belongs to each rejection.
    pub open spec fn spec_message(self) -> Seq<char> {
        match self {
            Rejection::FundClosed => "Fund is closed"@,
            Rejection::InvalidCoinDenomination => "Invalid coin denomination"@,
            Rejection::NegativeQuoteDeposits => "Vault quote deposits are negative"@,
            Rejection::NegativeBaseDeposits => "Vault base deposits are negative"@,
            Rejection::NoPosition => "Redeemer LP position does not exist"@,
            Rejection::HoldPeriodNotElapsed => "Redeemer LP position has not been updated"@,
            Rejection::NonPositiveDeposit => "Supplied quote funds must be greater than 0"@,
            Rejection::InsufficientFundsToMint => "Insufficient funds to mint LP tokens"@,
            Rejection::AlreadySubscribed => "Already subscribed"@,
            Rejection::AdminBelowFloor => "Admin must own at least 10% of fund"@,
        }
    }

    /// The rejection in words.
    pub fn message(&self) -> (r: String)
        ensures
            r@ == self.spec_message(),
    {
        match self {
            Rejection::FundClosed => String::from_str("Fund is closed"),
            Rejection::InvalidCoinDenomination => String::from_str("Invalid coin denomination"),
            Rejection::NegativeQuoteDeposits => String::from_str(
                "Vault quote deposits are negative",
            ),
            Rejection::NegativeBaseDeposits => String::from_str("Vault base deposits are negative"),
            Rejection::NoPosition => String::from_str("Redeemer LP position does not exist"),
            Rejection::HoldPeriodNotElapsed => String::from_str(
                "Redeemer LP position has not been updated",
            ),
            Rejection::NonPositiveDeposit => String::from_str(
                "Supplied quote funds must be greater than 0",
            ),
            Rejection::InsufficientFundsToMint => String::from_str(
                "Insufficient funds to mint LP tokens",
            ),
            Rejection::AlreadySubscribed => String::from_str("Already subscribed"),
            Rejection::AdminBelowFloor => String::from_str("Admin must own at least 10% of fund"),
        }
    }
}

impl ContractError {
    /// The text that belongs to each error.
    pub open spec fn spec_message(self) -> Seq<char> {
        match self {
            ContractError::Std(rejection) => rejection.spec_message(),
            ContractError::Unauthorized => "Unauthorized"@,
            ContractError::NoMarketsProvided => "No markets provided"@,
            ContractError::InvalidSpotOracleTypes => "Invalid spot oracle types"@,
            ContractError::IncorrectMarketQuoteDenom => "Incorrect market quote denom"@,
            ContractError::NonZeroVaultPosition => "Non-zero vault position"@,
        }
    }

    /// The error in words.
    pub fn message(&self) -> (r: String)
        ensures
            r@ == self.spec_message(),
    {
        match self {
            ContractError::Std(rejection) => rejection.message(),
            ContractError::Unauthorized => String::from_str("Unauthorized"),
            ContractError::NoMarketsProvided => String::from_str("No markets provided"),
            ContractError::InvalidSpotOracleTypes => String::from_str("Invalid spot oracle types"),
            ContractError::IncorrectMarketQuoteDenom => String::from_str(
                "Incorrect market quote denom",
            ),
            ContractError::NonZeroVaultPosition => String::from_str("Non-zero vault position"),
        }
    }
}

} // verus!
