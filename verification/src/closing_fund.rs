use crate::error::ContractError;
use crate::market::{Position, Response};
use crate::state::FundState;
use vstd::prelude::*;

verus! {

/// The fund holds a position in some derivative market.
pub open spec fn has_vault_position(vault_positions: Seq<Option<Position>>) -> bool {
    exists|i: int| 0 <= i < vault_positions.len() && (#[trigger] vault_positions[i]).is_some()
}

/// Whether the fund may be closed: only by the admin, and only while it holds no position in
/// any derivative market.
pub open spec fn spec_close_fund(
    state: FundState,
    sender: Seq<char>,
    vault_positions: Seq<Option<Position>>,
) -> Result<(), ContractError> {
    if sender != state.config.admin@ {
        Err(ContractError::Unauthorized)
    } else if has_vault_position(vault_positions) {
        Err(ContractError::NonZeroVaultPosition)
    } else {
        Ok(())
    }
}

/// Closes the fund for good. `vault_positions` holds what each derivative market of the
/// configuration reports as the fund's position, in the order of the configuration.
pub fn close_fund(state: &mut FundState, sender: &String, vault_positions: &Vec<Option<Position>>) -> (r:
    Result<Response, ContractError>)
    requires
        vault_positions@.len() == old(state).config.derivative_market_ids@.len(),
    ensures
        match r {
            Ok(_) => Ok::<(), ContractError>(()),
            Err(e) => Err(e),
        } == spec_close_fund(*old(state), sender@, vault_positions@),
        r matches Err(_) ==> *final(state) == *old(state),
        r matches Ok(response) ==> {
            &&& response.is_empty()
            &&& final(state).is_fund_closed
            &&& final(state).config == old(state).config
            &&& final(state).denom_decimals == old(state).denom_decimals
            &&& final(state).lp_total_supply == old(state).lp_total_supply
            &&& final(state).lp_positions == old(state).lp_positions
            &&& final(state).admin_owned_shares == old(state).admin_owned_shares
            &&& final(state).admin_fee_positions == old(state).admin_fee_positions
        },
{
    if *sender != state.config.admin {
        return Err(ContractError::Unauthorized);
    }
    let mut i: usize = 0;
    while i < vault_positions.len()
        invariant
            i <= vault_positions@.len(),
            *state == *old(state),
            sender@ == state.config.admin@,
            forall|k: int| 0 <= k < i ==> (#[trigger] vault_positions@[k]).is_none(),
        decreases vault_positions@.len() - i,
    {
        if vault_positions[i].is_some() {
            assert(vault_positions@[i as int].is_some());
            return Err(ContractError::NonZeroVaultPosition);
        }
        i += 1;
    }
    state.is_fund_closed = true;
    Ok(Response::new())
}

} // verus!
