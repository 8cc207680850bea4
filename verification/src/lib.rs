pub mod closing_fund;
pub mod contract;
pub mod decimal;
pub mod error;
pub mod laws;
pub mod lp_actions;
pub mod market;
pub mod msg;
pub mod records;
pub mod state;

pub use crate::error::ContractError;
