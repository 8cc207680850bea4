pub mod derivative_position_helpers;
pub mod oracle_price;
pub mod redemptions;
pub mod subscriptions;
pub mod utils;
