use crate::decimal::{
    add_fits, fp_add, fp_is_zero, fp_mul, fp_sub, mul_fits, spec_add, spec_mul, spec_sub, sub_fits,
    zero_value, Decimal, DecimalValue,
};
use crate::market::{DerivativeMarket, Position, PositionValue};
use vstd::prelude::*;

verus! {

/// The funding that one unit of the position has yet to receive: what has accrued in the
/// market since the position last settled, counted against a long position and for a short.
pub open spec fn funding_gap(p: PositionValue, cumulative_funding: DecimalValue) -> DecimalValue {
    if p.is_long {
        spec_sub(p.cumulative_funding_entry, cumulative_funding)
    } else {
        spec_sub(cumulative_funding, p.cumulative_funding_entry)
    }
}

/// The funding that the whole position has yet to receive.
pub open spec fn unrealized_funding(
    p: PositionValue,
    cumulative_funding: DecimalValue,
) -> DecimalValue {
    spec_mul(p.quantity, funding_gap(p, cumulative_funding))
}

/// Gap and product of the funding still to be received are in range.
pub open spec fn unrealized_funding_fits(
    p: PositionValue,
    cumulative_funding: DecimalValue,
) -> bool {
    &&& if p.is_long {
        sub_fits(p.cumulative_funding_entry, cumulative_funding)
    } else {
        sub_fits(cumulative_funding, p.cumulative_funding_entry)
    }
    &&& mul_fits(p.quantity, funding_gap(p, cumulative_funding))
}

/// The position after its funding is settled: the funding goes into the margin, and the
/// position stands at the market's cumulative funding.
pub open spec fn funded(p: PositionValue, cumulative_funding: DecimalValue) -> PositionValue {
    PositionValue {
        is_long: p.is_long,
        quantity: p.quantity,
        entry_price: p.entry_price,
        margin: spec_add(p.margin, unrealized_funding(p, cumulative_funding)),
        cumulative_funding_entry: cumulative_funding,
    }
}

/// The funding still to be received and the margin with it are in range.
pub open spec fn funding_fits(p: PositionValue, cumulative_funding: DecimalValue) -> bool {
    &&& unrealized_funding_fits(p, cumulative_funding)
    &&& add_fits(p.margin, unrealized_funding(p, cumulative_funding))
}

/// What one unit of the position has gained at `price`.
pub open spec fn price_gap(p: PositionValue, price: DecimalValue) -> DecimalValue {
    if p.is_long {
        spec_sub(price, p.entry_price)
    } else {
        spec_sub(p.entry_price, price)
    }
}

/// What the position has gained at `price`.
pub open spec fn unrealized_pnl(p: PositionValue, price: DecimalValue) -> DecimalValue {
    spec_mul(p.quantity, price_gap(p, price))
}

/// Margin, gain at `price`, and the funding still to be received.
pub open spec fn position_value(
    p: PositionValue,
    price: DecimalValue,
    cumulative_funding: DecimalValue,
) -> DecimalValue {
    spec_add(
        spec_add(p.margin, unrealized_pnl(p, price)),
        unrealized_funding(p, cumulative_funding),
    )
}

/// Every step of the value of a position is in range.
pub open spec fn position_value_fits(
    p: PositionValue,
    price: DecimalValue,
    cumulative_funding: DecimalValue,
) -> bool {
    &&& if p.is_long {
        sub_fits(price, p.entry_price)
    } else {
        sub_fits(p.entry_price, price)
    }
    &&& mul_fits(p.quantity, price_gap(p, price))
    &&& unrealized_funding_fits(p, cumulative_funding)
    &&& add_fits(p.margin, unrealized_pnl(p, price))
    &&& add_fits(
        spec_add(p.margin, unrealized_pnl(p, price)),
        unrealized_funding(p, cumulative_funding),
    )
}

/// The notional of what may be a position: nothing where there is none or its size is zero,
/// else its value at the market's mark price.
pub open spec fn spec_position_notional(
    position: Option<PositionValue>,
    market: DerivativeMarket,
) -> DecimalValue {
    match position {
        Some(p) => if p.quantity.is_zero() {
            zero_value()
        } else {
            position_value(p, market.mark_price@, market.cumulative_funding.unwrap()@)
        },
        None => zero_value(),
    }
}

/// A position comes with the market's cumulative funding, and the value of one whose size
/// is not zero is in range.
pub open spec fn position_notional_fits(
    position: Option<PositionValue>,
    market: DerivativeMarket,
) -> bool {
    match position {
        Some(p) => market.cumulative_funding.is_some() && (!p.quantity.is_zero()
            ==> position_value_fits(
            p,
            market.mark_price@,
            market.cumulative_funding.unwrap()@,
        )),
        None => true,
    }
}

/// What may be a position, after its funding is settled.
pub open spec fn spec_apply_funding(
    position: Option<PositionValue>,
    market: DerivativeMarket,
) -> Option<PositionValue> {
    match position {
        Some(p) => Some(funded(p, market.cumulative_funding.unwrap()@)),
        None => None,
    }
}

/// A position comes with the market's cumulative funding, and its funding is in range.
pub open spec fn apply_funding_fits(
    position: Option<PositionValue>,
    market: DerivativeMarket,
) -> bool {
    match position {
        Some(p) => market.cumulative_funding.is_some() && funding_fits(
            p,
            market.cumulative_funding.unwrap()@,
        ),
        None => true,
    }
}

/// The view of what may be a position.
pub open spec fn position_view(position: Option<Position>) -> Option<PositionValue> {
    match position {
        Some(p) => Some(p@),
        None => None,
    }
}

/// The funding that a position has yet to receive, as `Position::apply_funding` of
/// `injective_cosmwasm` counts it.
fn position_unrealized_funding(p: &Position, cumulative_funding: Decimal) -> (r: Decimal)
    requires
        unrealized_funding_fits(p@, cumulative_funding@),
    ensures
        r@ == unrealized_funding(p@, cumulative_funding@),
{
    let gap = if p.is_long {
        fp_sub(p.cumulative_funding_entry, cumulative_funding)
    } else {
        fp_sub(cumulative_funding, p.cumulative_funding_entry)
    };
    fp_mul(p.quantity, gap)
}

/// The value of a position, as `Position::get_position_value_with_funding` of
/// `injective_cosmwasm` computes it: margin, then gain, then funding.
fn position_value_with_funding(p: &Position, price: Decimal, cumulative_funding: Decimal) -> (r:
    Decimal)
    requires
        position_value_fits(p@, price@, cumulative_funding@),
    ensures
        r@ == position_value(p@, price@, cumulative_funding@),
{
    let gap = if p.is_long {
        fp_sub(price, p.entry_price)
    } else {
        fp_sub(p.entry_price, price)
    };
    let pnl = fp_mul(p.quantity, gap);
    let funding = position_unrealized_funding(p, cumulative_funding);
    fp_add(fp_add(p.margin, pnl), funding)
}

/// The estimated notional of the fund's position in a market, in the quote asset.
pub fn get_vault_estimated_position_notional(
    vault_position: &Option<Position>,
    market: &DerivativeMarket,
) -> (r: Decimal)
    requires
        position_notional_fits(position_view(*vault_position), *market),
    ensures
        r@ == spec_position_notional(position_view(*vault_position), *market),
{
    match vault_position {
        None => Decimal::zero(),
        Some(p) => {
            let cumulative_funding = market.cumulative_funding.unwrap();
            if fp_is_zero(p.quantity) {
                Decimal::zero()
            } else {
                position_value_with_funding(p, market.mark_price, cumulative_funding)
            }
        },
    }
}

/// Settles the funding that has accrued on the fund's position, if it has one.
pub fn apply_funding_to_position(vault_position: &mut Option<Position>, market: &DerivativeMarket)
    requires
        apply_funding_fits(position_view(*old(vault_position)), *market),
    ensures
        position_view(*final(vault_position)) == spec_apply_funding(
            position_view(*old(vault_position)),
            *market,
        ),
{
    match *vault_position {
        Some(p) => {
            let cumulative_funding = market.cumulative_funding.unwrap();
            let funding = position_unrealized_funding(&p, cumulative_funding);
            *vault_position = Some(
                Position {
                    is_long: p.is_long,
                    quantity: p.quantity,
                    entry_price: p.entry_price,
                    margin: fp_add(p.margin, funding),
                    cumulative_funding_entry: cumulative_funding,
                },
            );
        },
        None => {},
    }
}

} // verus!
