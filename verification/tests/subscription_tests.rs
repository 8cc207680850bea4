use fund_accounting::decimal::Decimal;
use fund_accounting::error::{ContractError, Rejection};
use fund_accounting::lp_actions::redemptions::get_fund_redemption_response;
use fund_accounting::lp_actions::subscriptions::{
    get_fund_subscription_response, get_token_mint_data, is_admin_below_floor, store_subscription,
};
use fund_accounting::market::{Coin, FundHoldings, Response, SpotHolding};
use fund_accounting::records::Records;
use fund_accounting::state::{Config, FundState, LPPosition, OracleType, Timestamp};

const ONE: u128 = 1_000_000_000_000_000_000;

fn d(units: u128) -> Decimal {
    Decimal::from_u128(units)
}

fn raw(r: u128) -> Decimal {
    Decimal::from_raw([r as u64, (r >> 64) as u64, 0, 0], 1).unwrap()
}

fn neg(r: u128) -> Decimal {
    Decimal::from_raw([r as u64, (r >> 64) as u64, 0, 0], 0).unwrap()
}

fn fund() -> FundState {
    let mut decimals = Records::new();
    decimals.insert("usdt".to_string(), 6);
    decimals.insert("atom".to_string(), 6);
    FundState::new(
        Config {
            admin: "admin".to_string(),
            spot_oracle_types: vec![OracleType::PriceFeed],
            spot_market_ids: vec!["0xspot".to_string()],
            derivative_market_ids: vec![],
            quote_denom: "usdt".to_string(),
            fund_subaccount_id: "0xfund".to_string(),
            performance_fee_rate: raw(ONE / 5),
            min_yearly_roi_for_fees: raw(ONE / 10),
        },
        decimals,
    )
}

fn holdings(quote_balance: u128, base_balance: u128) -> FundHoldings {
    FundHoldings {
        quote_balance: d(quote_balance),
        spot: vec![SpotHolding {
            base_denom: "atom".to_string(),
            base_balance: d(base_balance),
            raw_oracle_price: d(2),
        }],
        derivatives: vec![],
    }
}

fn usdt(amount: u128) -> Vec<Coin> {
    vec![Coin { denom: "usdt".to_string(), amount }]
}

fn at(seconds: u64) -> Timestamp {
    Timestamp { nanos: seconds * 1_000_000_000 }
}

#[test]
fn first_subscription_mints_the_baseline() {
    assert_eq!(get_token_mint_data(d(1_000_000_000), d(0), d(0)), Ok(d(ONE)));
}

#[test]
fn first_subscription_mints_the_baseline_whatever_is_deposited() {
    for deposit in [0u128, 1, 7, 1_000_000_000, u128::MAX] {
        for notional in [0u128, 1, 55, u128::MAX] {
            assert_eq!(get_token_mint_data(d(deposit), d(notional), d(0)), Ok(d(ONE)));
        }
    }
    assert_eq!(get_token_mint_data(neg(5), neg(9), neg(0)), Ok(d(ONE)));
}

#[test]
fn later_subscription_mints_at_the_price_of_the_fund() {
    // 10^18 * 500,000,000 / 1,000,000,000
    assert_eq!(
        get_token_mint_data(d(500_000_000), d(1_000_000_000), d(ONE)),
        Ok(d(500_000_000_000_000_000))
    );
}

#[test]
fn minted_shares_are_rounded_down() {
    // 1 * 1 / 3 = 0.333333333333333333
    assert_eq!(get_token_mint_data(d(1), d(3), d(1)), Ok(raw(333_333_333_333_333_333)));
    // 2 * 1 / 3 = 0.666666666666666666
    assert_eq!(get_token_mint_data(d(1), d(3), d(2)), Ok(raw(666_666_666_666_666_666)));
}

#[test]
fn minted_shares_stay_within_the_rounding_bound() {
    let scale = ONE;
    for (supply, deposit, notional) in
        [
            (7 * ONE, 3 * ONE, 11 * ONE),
            (ONE, ONE, 3 * ONE),
            (ONE + 1, 2 * ONE - 1, 7 * ONE + 3),
            (5 * ONE, 5 * ONE, ONE),
            (9 * ONE + 123_456, 7, 1_000_003),
            (10 * ONE, 10 * ONE, 9_999_999_999_999_999_999),
        ]
    {
        let minted = get_token_mint_data(raw(deposit), raw(notional), raw(supply)).unwrap();
        let limbs = minted.raw_limbs();
        assert_eq!((limbs[2], limbs[3]), (0, 0));
        let m = (limbs[0] as u128) | ((limbs[1] as u128) << 64);
        assert!(m * notional <= supply * deposit);
        assert!(supply * deposit < m * notional + notional + scale);
    }
}

#[test]
fn deposit_of_zero_is_rejected_once_shares_exist() {
    assert_eq!(
        get_token_mint_data(d(0), d(1_000), d(ONE)),
        Err(ContractError::Std(Rejection::NonPositiveDeposit))
    );
}

#[test]
fn negative_deposit_is_rejected() {
    assert_eq!(
        get_token_mint_data(neg(5 * ONE), d(1_000), d(ONE)),
        Err(ContractError::Std(Rejection::NonPositiveDeposit))
    );
}

#[test]
fn deposit_that_mints_nothing_is_rejected() {
    // 0.000000000000000001 shares * 1 / 2 is cut to zero
    assert_eq!(
        get_token_mint_data(d(1), d(2), raw(1)),
        Err(ContractError::Std(Rejection::InsufficientFundsToMint))
    );
}

#[test]
fn two_subscriptions_into_a_fund_with_one_spot_market() {
    let mut state = fund();
    let admin = "admin".to_string();
    let holder = "holder".to_string();

    let first = get_fund_subscription_response(
        &mut state,
        at(1_000),
        &admin,
        &usdt(1_000_000_000),
        &holdings(0, 0),
    );
    assert_eq!(first, Ok(Response::new()));
    assert_eq!(state.lp_total_supply, d(ONE));
    assert_eq!(state.admin_owned_shares, d(ONE));
    assert_eq!(
        state.lp_positions.get(&admin),
        Some(LPPosition {
            shares: d(ONE),
            subscription_time: at(1_000),
            subscription_amount: d(1_000_000_000),
        })
    );

    let second = get_fund_subscription_response(
        &mut state,
        at(2_000),
        &holder,
        &usdt(500_000_000),
        &holdings(1_000_000_000, 0),
    );
    assert_eq!(second, Ok(Response::new()));
    assert_eq!(
        state.lp_positions.get(&holder),
        Some(LPPosition {
            shares: d(500_000_000_000_000_000),
            subscription_time: at(2_000),
            subscription_amount: d(500_000_000),
        })
    );
    assert_eq!(state.lp_total_supply, d(1_500_000_000_000_000_000));
    assert_eq!(state.admin_owned_shares, d(ONE));
    assert_eq!(state.lp_positions.len(), 2);
}

#[test]
fn spot_holdings_count_towards_the_price_of_new_shares() {
    let mut state = fund();
    let admin = "admin".to_string();
    let holder = "holder".to_string();
    get_fund_subscription_response(&mut state, at(0), &admin, &usdt(100), &holdings(0, 0)).unwrap();
    // the fund holds 100 usdt and 50 atom at 2 usdt: notional 200
    get_fund_subscription_response(&mut state, at(1), &holder, &usdt(100), &holdings(100, 50))
        .unwrap();
    assert_eq!(state.lp_positions.get(&holder).unwrap().shares, d(ONE / 2));
}

#[test]
fn closed_fund_takes_no_subscription() {
    let mut state = fund();
    state.is_fund_closed = true;
    let r = get_fund_subscription_response(
        &mut state,
        at(0),
        &"admin".to_string(),
        &usdt(100),
        &holdings(0, 0),
    );
    assert_eq!(r, Err(ContractError::Std(Rejection::FundClosed)));
    assert_eq!(state.lp_positions.len(), 0);
    assert_eq!(state.lp_total_supply, Decimal::zero());
}

#[test]
fn coin_of_another_asset_is_rejected() {
    let mut state = fund();
    let coins = vec![
        Coin { denom: "usdt".to_string(), amount: 100 },
        Coin { denom: "atom".to_string(), amount: 5 },
    ];
    let r = get_fund_subscription_response(
        &mut state,
        at(0),
        &"admin".to_string(),
        &coins,
        &holdings(0, 0),
    );
    assert_eq!(r, Err(ContractError::Std(Rejection::InvalidCoinDenomination)));
    assert_eq!(state.lp_positions.len(), 0);
}

#[test]
fn last_quote_coin_is_the_deposit() {
    let mut state = fund();
    let coins = vec![
        Coin { denom: "usdt".to_string(), amount: 100 },
        Coin { denom: "usdt".to_string(), amount: 40 },
    ];
    get_fund_subscription_response(&mut state, at(0), &"admin".to_string(), &coins, &holdings(0, 0))
        .unwrap();
    assert_eq!(
        state.lp_positions.get(&"admin".to_string()).unwrap().subscription_amount,
        d(40)
    );
}

#[test]
fn subscription_without_coins_deposits_nothing() {
    let mut state = fund();
    get_fund_subscription_response(
        &mut state,
        at(0),
        &"admin".to_string(),
        &vec![],
        &holdings(0, 0),
    )
    .unwrap();
    let position = state.lp_positions.get(&"admin".to_string()).unwrap();
    assert_eq!(position.subscription_amount, d(0));
    assert_eq!(position.shares, d(ONE));
}

#[test]
fn fund_that_cannot_be_priced_takes_no_subscription() {
    let mut state = fund();
    let mut bad = holdings(10, 0);
    bad.quote_balance = neg(ONE);
    let r = get_fund_subscription_response(
        &mut state,
        at(0),
        &"admin".to_string(),
        &usdt(100),
        &bad,
    );
    assert_eq!(r, Err(ContractError::Std(Rejection::NegativeQuoteDeposits)));
    let mut bad = holdings(10, 0);
    bad.spot[0].base_balance = neg(ONE);
    let r = get_fund_subscription_response(
        &mut state,
        at(0),
        &"admin".to_string(),
        &usdt(100),
        &bad,
    );
    assert_eq!(r, Err(ContractError::Std(Rejection::NegativeBaseDeposits)));
    assert_eq!(state.lp_positions.len(), 0);
}

#[test]
fn holder_cannot_subscribe_twice() {
    let mut state = fund();
    let admin = "admin".to_string();
    get_fund_subscription_response(&mut state, at(0), &admin, &usdt(100), &holdings(0, 0)).unwrap();
    let r = get_fund_subscription_response(&mut state, at(5), &admin, &usdt(100), &holdings(100, 0));
    assert_eq!(r, Err(ContractError::Std(Rejection::AlreadySubscribed)));
    assert_eq!(state.lp_total_supply, d(ONE));
    assert_eq!(state.admin_owned_shares, d(ONE));
    assert_eq!(state.lp_positions.get(&admin).unwrap().subscription_time, at(0));
}

#[test]
fn subscription_that_leaves_the_admin_below_a_tenth_is_rejected() {
    let mut state = fund();
    let admin = "admin".to_string();
    let holder = "holder".to_string();
    // nobody but the admin can be first
    let r = get_fund_subscription_response(&mut state, at(0), &holder, &usdt(100), &holdings(0, 0));
    assert_eq!(r, Err(ContractError::Std(Rejection::AdminBelowFloor)));
    assert_eq!(state.lp_positions.len(), 0);
    assert_eq!(state.lp_total_supply, Decimal::zero());

    get_fund_subscription_response(&mut state, at(0), &admin, &usdt(100), &holdings(0, 0)).unwrap();
    // 901 against 100 would mint 9.01 * 10^18: the admin would hold less than a tenth
    let r = get_fund_subscription_response(&mut state, at(1), &holder, &usdt(901), &holdings(100, 0));
    assert_eq!(r, Err(ContractError::Std(Rejection::AdminBelowFloor)));
    assert_eq!(state.lp_positions.len(), 1);
    assert_eq!(state.lp_total_supply, d(ONE));
    // 900 leaves the admin exactly a tenth
    let r = get_fund_subscription_response(&mut state, at(1), &holder, &usdt(900), &holdings(100, 0));
    assert_eq!(r, Ok(Response::new()));
    assert_eq!(state.lp_total_supply, d(10 * ONE));
    assert_eq!(state.admin_owned_shares, d(ONE));
}

#[test]
fn store_subscription_records_the_position() {
    let mut state = fund();
    let admin = "admin".to_string();
    assert_eq!(store_subscription(&mut state, at(9), &admin, d(7), d(3)), Ok(()));
    assert_eq!(state.lp_total_supply, d(7));
    assert_eq!(state.admin_owned_shares, d(7));
    assert_eq!(
        state.lp_positions.get(&admin),
        Some(LPPosition { shares: d(7), subscription_time: at(9), subscription_amount: d(3) })
    );
    assert_eq!(
        store_subscription(&mut state, at(10), &admin, d(1), d(1)),
        Err(ContractError::Std(Rejection::AlreadySubscribed))
    );
    assert_eq!(
        store_subscription(&mut state, at(10), &"holder".to_string(), d(64), d(1)),
        Err(ContractError::Std(Rejection::AdminBelowFloor))
    );
    assert_eq!(store_subscription(&mut state, at(10), &"holder".to_string(), d(63), d(1)), Ok(()));
    assert_eq!(state.lp_total_supply, d(70));
    assert_eq!(state.admin_owned_shares, d(7));
}

#[test]
fn redemption_right_after_subscription_is_rejected() {
    let mut state = fund();
    let admin = "admin".to_string();
    let holder = "holder".to_string();
    get_fund_subscription_response(&mut state, at(50), &admin, &usdt(100), &holdings(0, 0))
        .unwrap();
    get_fund_subscription_response(&mut state, at(50), &holder, &usdt(100), &holdings(100, 0))
        .unwrap();
    for who in [&admin, &holder] {
        let r = get_fund_redemption_response(
            &mut state,
            at(50),
            who,
            &"0xredeemer".to_string(),
            &holdings(200, 0),
        );
        assert_eq!(r, Err(ContractError::Std(Rejection::HoldPeriodNotElapsed)));
    }
    assert_eq!(state.lp_positions.len(), 2);
    assert_eq!(state.lp_total_supply, d(2 * ONE));
}

#[test]
fn shares_are_minted_up_to_the_end_of_the_range() {
    let max = Decimal::from_raw([u64::MAX; 4], 1).unwrap();
    // the largest supply at a notional of one mints the deposit's multiple of itself
    assert_eq!(get_token_mint_data(d(1), d(1), max), Ok(max));
    // and at a notional of two, half of it
    assert_eq!(
        get_token_mint_data(d(1), d(2), max),
        Ok(Decimal::from_raw([u64::MAX, u64::MAX, u64::MAX, u64::MAX >> 1], 1).unwrap())
    );
    // a negative notional mints negative shares
    assert_eq!(get_token_mint_data(d(6), neg(3 * ONE), d(2)), Ok(neg(4 * ONE)));
}

fn assert_floor(admin_owned: Decimal, total: Decimal, below: bool) {
    assert_eq!(is_admin_below_floor(admin_owned, total), below);
}

#[test]
fn admin_floor_is_a_tenth_of_the_total() {
    assert_floor(d(1), d(10), false);
    assert_floor(d(1), d(11), true);
    assert_floor(raw(ONE / 10), d(1), false);
    assert_floor(raw(ONE / 10 - 1), d(1), true);
    assert_floor(d(0), d(0), false);
    assert_floor(d(0), raw(1), true);
    assert_floor(d(5), neg(ONE), false);
}
