use fund_accounting::decimal::Decimal;
use fund_accounting::error::{ContractError, Rejection};
use fund_accounting::lp_actions::redemptions::{
    ensure_valid_redemption, get_fund_redemption_response, get_redemption_response,
    get_updated_redemption_notional_and_update_derivative_position_transfers,
    ONE_YEAR_IN_SECONDS,
};
use fund_accounting::lp_actions::utils::{get_fund_total_notional, get_spot_base_in_quote};
use fund_accounting::market::{
    BankSend, Coin, DerivativeHolding, DerivativeMarket, FundHoldings, Position,
    PositionTransferAction, Response, SpotHolding,
};
use fund_accounting::records::Records;
use fund_accounting::state::{Config, FundState, LPPosition, OracleType, Timestamp};

const ONE: u128 = 1_000_000_000_000_000_000;
const DAY: u64 = 24 * 60 * 60;

fn d(units: u128) -> Decimal {
    Decimal::from_u128(units)
}

fn raw(r: u128) -> Decimal {
    Decimal::from_raw([r as u64, (r >> 64) as u64, 0, 0], 1).unwrap()
}

fn neg(r: u128) -> Decimal {
    Decimal::from_raw([r as u64, (r >> 64) as u64, 0, 0], 0).unwrap()
}

fn at(seconds: u64) -> Timestamp {
    Timestamp { nanos: seconds * 1_000_000_000 }
}

fn config(min_yearly_roi_for_fees: Decimal) -> Config {
    Config {
        admin: "admin".to_string(),
        spot_oracle_types: vec![OracleType::PriceFeed],
        spot_market_ids: vec!["0xspot".to_string()],
        derivative_market_ids: vec!["0xperp".to_string()],
        quote_denom: "usdt".to_string(),
        fund_subaccount_id: "0xfund".to_string(),
        performance_fee_rate: raw(ONE / 5),
        min_yearly_roi_for_fees,
    }
}

/// A fund in which the admin holds `admin_shares` and a holder `holder_shares`, both subscribed
/// at second 0 with a deposit of 100,000,000.
fn fund(admin_shares: u128, holder_shares: u128, min_yearly_roi_for_fees: Decimal) -> FundState {
    let mut decimals = Records::new();
    decimals.insert("usdt".to_string(), 6);
    decimals.insert("atom".to_string(), 6);
    let mut state = FundState::new(config(min_yearly_roi_for_fees), decimals);
    state.lp_positions.insert(
        "admin".to_string(),
        LPPosition {
            shares: d(admin_shares),
            subscription_time: at(0),
            subscription_amount: d(100_000_000),
        },
    );
    state.lp_positions.insert(
        "holder".to_string(),
        LPPosition {
            shares: d(holder_shares),
            subscription_time: at(0),
            subscription_amount: d(100_000_000),
        },
    );
    state.lp_total_supply = d(admin_shares + holder_shares);
    state.admin_owned_shares = d(admin_shares);
    state
}

fn cash(quote_balance: u128) -> FundHoldings {
    FundHoldings {
        quote_balance: d(quote_balance),
        spot: vec![SpotHolding {
            base_denom: "atom".to_string(),
            base_balance: d(0),
            raw_oracle_price: d(2),
        }],
        derivatives: vec![DerivativeHolding {
            position: None,
            market: DerivativeMarket { mark_price: d(1), cumulative_funding: None },
        }],
    }
}

fn send(to: &str, denom: &str, amount: u128) -> BankSend {
    BankSend { to_address: to.to_string(), denom: denom.to_string(), amount }
}

#[test]
fn hold_period_ends_after_one_year() {
    let year = ONE_YEAR_IN_SECONDS;
    assert_eq!(year, 365 * DAY);
    let rejected = Err(ContractError::Std(Rejection::HoldPeriodNotElapsed));
    assert_eq!(ensure_valid_redemption(at(0), at(0), d(1)), rejected);
    assert_eq!(ensure_valid_redemption(at(year - 1), at(0), d(1)), rejected);
    assert_eq!(
        ensure_valid_redemption(Timestamp { nanos: year * 1_000_000_000 - 1 }, at(0), d(1)),
        rejected
    );
    assert_eq!(ensure_valid_redemption(at(year), at(0), d(1)), Ok(()));
    assert_eq!(ensure_valid_redemption(at(year + 1), at(0), d(1)), Ok(()));
    assert_eq!(ensure_valid_redemption(at(1_000 + year), at(1_000), d(0)), Ok(()));
    assert_eq!(ensure_valid_redemption(at(999 + year), at(1_000), d(0)), rejected);
}

#[test]
fn hold_period_is_checked_at_the_end_of_time() {
    let late = Timestamp { nanos: u64::MAX };
    assert_eq!(
        ensure_valid_redemption(late, late, d(1)),
        Err(ContractError::Std(Rejection::HoldPeriodNotElapsed))
    );
}

#[test]
fn hold_period_is_checked_before_the_balance() {
    assert_eq!(
        ensure_valid_redemption(at(5), at(0), neg(ONE)),
        Err(ContractError::Std(Rejection::HoldPeriodNotElapsed))
    );
    assert_eq!(
        ensure_valid_redemption(at(366 * DAY), at(0), neg(ONE)),
        Err(ContractError::Std(Rejection::NegativeQuoteDeposits))
    );
}

#[test]
fn redemption_before_the_hold_period_is_rejected_whatever_the_fund_holds() {
    let holder = "holder".to_string();
    for now in [0, 1, 364 * DAY, 365 * DAY - 1] {
        for holdings in [cash(0), cash(300_000_000), {
            let mut h = cash(5);
            h.quote_balance = neg(ONE);
            h.spot[0].base_balance = neg(ONE);
            h
        }] {
            let mut state = fund(ONE, ONE, raw(ONE / 10));
            let r = get_fund_redemption_response(
                &mut state,
                at(now),
                &holder,
                &"0xredeemer".to_string(),
                &holdings,
            );
            assert_eq!(r, Err(ContractError::Std(Rejection::HoldPeriodNotElapsed)));
            assert_eq!(state.lp_positions.len(), 2);
            assert_eq!(state.lp_total_supply, d(2 * ONE));
        }
    }
}

#[test]
fn redemption_without_a_position_is_rejected() {
    let mut state = fund(ONE, ONE, raw(ONE / 10));
    let r = get_fund_redemption_response(
        &mut state,
        at(366 * DAY),
        &"stranger".to_string(),
        &"0xredeemer".to_string(),
        &cash(300_000_000),
    );
    assert_eq!(r, Err(ContractError::Std(Rejection::NoPosition)));
    assert_eq!(state.lp_positions.len(), 2);
}

#[test]
fn redemption_with_profit_above_the_threshold_pays_a_fee() {
    // deposit 100, returned 150 after 366 days, threshold 100 * 0.10 = 10 a year, fee rate 20%
    let mut state = fund(ONE, ONE, raw(ONE / 10));
    let holder = "holder".to_string();
    let r = get_fund_redemption_response(
        &mut state,
        at(366 * DAY),
        &holder,
        &"0xredeemer".to_string(),
        &cash(300_000_000),
    );
    // fee = 0.2 * 50 / 150 = 0.066666666666666666 of 150,000,000, cut to whole coins
    assert_eq!(
        r,
        Ok(Response {
            bank_sends: vec![
                send("admin", "usdt", 9_999_999),
                send("holder", "usdt", 140_000_001),
                send("holder", "atom", 0),
            ],
            position_transfers: vec![],
            pass_through: false,
        })
    );
    assert_eq!(state.lp_positions.get(&holder), None);
    assert_eq!(state.lp_positions.len(), 1);
    assert_eq!(state.lp_total_supply, d(ONE));
    assert_eq!(state.admin_owned_shares, d(ONE));
    assert_eq!(state.admin_fee_positions.len(), 0);
}

#[test]
fn redemption_with_profit_below_the_threshold_pays_no_fee() {
    // the same redemption against a threshold of 100 * 1.10 = 110 a year
    let mut state = fund(ONE, ONE, raw(ONE * 11 / 10));
    let r = get_fund_redemption_response(
        &mut state,
        at(366 * DAY),
        &"holder".to_string(),
        &"0xredeemer".to_string(),
        &cash(300_000_000),
    );
    assert_eq!(
        r,
        Ok(Response {
            bank_sends: vec![send("holder", "usdt", 150_000_000), send("holder", "atom", 0)],
            position_transfers: vec![],
            pass_through: false,
        })
    );
}

#[test]
fn yearly_profit_at_the_threshold_pays_no_fee() {
    // held for exactly one year with a profit of 50,000,000: the yearly profit is 50,000,000
    let at_threshold = raw(ONE / 2);
    let mut state = fund(ONE, ONE, at_threshold);
    let r = get_fund_redemption_response(
        &mut state,
        at(365 * DAY),
        &"holder".to_string(),
        &"0xredeemer".to_string(),
        &cash(300_000_000),
    );
    assert_eq!(
        r.unwrap().bank_sends,
        vec![send("holder", "usdt", 150_000_000), send("holder", "atom", 0)]
    );
    // one unit below the threshold a fee is due
    let below = raw(ONE / 2 - 1);
    let mut state = fund(ONE, ONE, below);
    let r = get_fund_redemption_response(
        &mut state,
        at(365 * DAY),
        &"holder".to_string(),
        &"0xredeemer".to_string(),
        &cash(300_000_000),
    );
    assert_eq!(
        r.unwrap().bank_sends,
        vec![
            send("admin", "usdt", 9_999_999),
            send("holder", "usdt", 140_000_001),
            send("holder", "atom", 0),
        ]
    );
}

#[test]
fn redemption_at_a_loss_pays_no_fee() {
    let mut state = fund(ONE, ONE, raw(ONE / 10));
    let r = get_fund_redemption_response(
        &mut state,
        at(400 * DAY),
        &"holder".to_string(),
        &"0xredeemer".to_string(),
        &cash(100_000_000),
    );
    assert_eq!(
        r.unwrap().bank_sends,
        vec![send("holder", "usdt", 50_000_000), send("holder", "atom", 0)]
    );
}

#[test]
fn redemption_returns_the_pro_rata_part_of_every_asset() {
    // the holder owns 1 of 4 shares; the fund holds 400 usdt, 100 atom at 2, and a long
    // position of 8 with margin 40
    let mut state = fund(3 * ONE, ONE, d(1_000_000_000));
    let holdings = FundHoldings {
        quote_balance: d(400),
        spot: vec![SpotHolding {
            base_denom: "atom".to_string(),
            base_balance: d(100),
            raw_oracle_price: d(2),
        }],
        derivatives: vec![DerivativeHolding {
            position: Some(Position {
                is_long: true,
                quantity: d(8),
                entry_price: d(10),
                margin: d(40),
                cumulative_funding_entry: d(1),
            }),
            market: DerivativeMarket { mark_price: d(12), cumulative_funding: Some(d(1)) },
        }],
    };
    let r = get_fund_redemption_response(
        &mut state,
        at(366 * DAY),
        &"holder".to_string(),
        &"0xredeemer".to_string(),
        &holdings,
    );
    assert_eq!(
        r,
        Ok(Response {
            bank_sends: vec![send("holder", "usdt", 100), send("holder", "atom", 25)],
            position_transfers: vec![PositionTransferAction {
                market_id: "0xperp".to_string(),
                source_subaccount_id: "0xfund".to_string(),
                destination_subaccount_id: "0xredeemer".to_string(),
                quantity: d(2),
            }],
            pass_through: false,
        })
    );
    assert_eq!(state.lp_total_supply, d(3 * ONE));
    assert_eq!(state.admin_fee_positions.len(), 0);
}

#[test]
fn fee_on_a_position_transfer_goes_to_the_ledger() {
    // the holder owns half of the fund: 100 usdt and a position of quantity 8, margin 40, up
    // by 2 a unit. Returned: 50 + (20 + 4 * 2) = 78 against a deposit of 28.
    let mut state = fund(ONE, ONE, raw(ONE / 10));
    state.lp_positions.insert(
        "holder".to_string(),
        LPPosition { shares: d(ONE), subscription_time: at(0), subscription_amount: d(28) },
    );
    let holdings = FundHoldings {
        quote_balance: d(100),
        spot: vec![],
        derivatives: vec![DerivativeHolding {
            position: Some(Position {
                is_long: true,
                quantity: d(8),
                entry_price: d(10),
                margin: d(40),
                cumulative_funding_entry: d(1),
            }),
            market: DerivativeMarket { mark_price: d(12), cumulative_funding: Some(d(1)) },
        }],
    };
    let r = get_fund_redemption_response(
        &mut state,
        at(365 * DAY),
        &"holder".to_string(),
        &"0xredeemer".to_string(),
        &holdings,
    )
    .unwrap();
    // profit 50, fee rate 0.2 * 50 / 78 = 0.128205128205128205
    let fee_rate = 128_205_128_205_128_205u128;
    assert_eq!(r.bank_sends, vec![send("admin", "usdt", 6), send("holder", "usdt", 44)]);
    assert_eq!(
        r.position_transfers,
        vec![PositionTransferAction {
            market_id: "0xperp".to_string(),
            source_subaccount_id: "0xfund".to_string(),
            destination_subaccount_id: "0xredeemer".to_string(),
            quantity: raw(4 * ONE - 4 * fee_rate),
        }]
    );
    assert_eq!(state.admin_fee_positions.get(&"0xperp".to_string()), Some(raw(4 * fee_rate)));
    assert_eq!(state.admin_fee_positions.len(), 1);
}

#[test]
fn admin_redeeming_from_an_open_fund_must_keep_a_tenth() {
    // the admin owns exactly a tenth and tries to redeem all of it
    let mut state = fund(ONE, 9 * ONE, raw(ONE / 10));
    let r = get_fund_redemption_response(
        &mut state,
        at(366 * DAY),
        &"admin".to_string(),
        &"0xadmin".to_string(),
        &cash(1_000_000_000),
    );
    assert_eq!(r, Err(ContractError::Std(Rejection::AdminBelowFloor)));
    assert_eq!(state.lp_positions.len(), 2);
    assert_eq!(state.lp_positions.get(&"admin".to_string()).unwrap().shares, d(ONE));
    assert_eq!(state.lp_total_supply, d(10 * ONE));
    assert_eq!(state.admin_owned_shares, d(ONE));
    assert_eq!(state.admin_fee_positions.len(), 0);
}

#[test]
fn admin_alone_in_an_open_fund_redeems_for_nothing() {
    let mut decimals = Records::new();
    decimals.insert("usdt".to_string(), 6);
    let mut state = FundState::new(config(raw(ONE / 10)), decimals);
    state.lp_positions.insert(
        "admin".to_string(),
        LPPosition { shares: d(ONE), subscription_time: at(0), subscription_amount: d(100) },
    );
    state.lp_total_supply = d(ONE);
    state.admin_owned_shares = d(ONE);
    let holdings = FundHoldings {
        quote_balance: d(100),
        spot: vec![],
        derivatives: vec![DerivativeHolding {
            position: None,
            market: DerivativeMarket { mark_price: d(1), cumulative_funding: None },
        }],
    };
    let r = get_fund_redemption_response(
        &mut state,
        at(366 * DAY),
        &"admin".to_string(),
        &"0xadmin".to_string(),
        &holdings,
    );
    assert_eq!(r, Ok(Response::new()));
    assert_eq!(state.lp_positions.len(), 0);
    assert_eq!(state.lp_total_supply, Decimal::zero());
    assert_eq!(state.admin_owned_shares, Decimal::zero());
}

#[test]
fn admin_redeems_from_a_closed_fund_like_anyone() {
    let mut state = fund(ONE, 9 * ONE, raw(ONE * 11 / 10));
    state.is_fund_closed = true;
    let r = get_fund_redemption_response(
        &mut state,
        at(366 * DAY),
        &"admin".to_string(),
        &"0xadmin".to_string(),
        &cash(1_000_000_000),
    );
    assert_eq!(
        r.unwrap().bank_sends,
        vec![send("admin", "usdt", 100_000_000), send("admin", "atom", 0)]
    );
    assert_eq!(state.lp_positions.len(), 1);
    assert_eq!(state.lp_total_supply, d(9 * ONE));
    assert_eq!(state.admin_owned_shares, Decimal::zero());
}

#[test]
fn negative_balances_reject_a_redemption() {
    let mut state = fund(ONE, ONE, raw(ONE / 10));
    let mut holdings = cash(100);
    holdings.quote_balance = neg(ONE);
    let r = get_fund_redemption_response(
        &mut state,
        at(366 * DAY),
        &"holder".to_string(),
        &"0xredeemer".to_string(),
        &holdings,
    );
    assert_eq!(r, Err(ContractError::Std(Rejection::NegativeQuoteDeposits)));
    let mut holdings = cash(100);
    holdings.spot[0].base_balance = neg(ONE);
    let r = get_fund_redemption_response(
        &mut state,
        at(366 * DAY),
        &"holder".to_string(),
        &"0xredeemer".to_string(),
        &holdings,
    );
    assert_eq!(r, Err(ContractError::Std(Rejection::NegativeBaseDeposits)));
    assert_eq!(state.lp_positions.len(), 2);
    assert_eq!(state.lp_total_supply, d(2 * ONE));
}

#[test]
fn derivative_market_without_position_adds_nothing() {
    let mut transfers: Vec<PositionTransferAction> = Vec::new();
    let total = get_updated_redemption_notional_and_update_derivative_position_transfers(
        d(17),
        &mut transfers,
        &DerivativeHolding {
            position: None,
            market: DerivativeMarket { mark_price: d(1), cumulative_funding: None },
        },
        &"0xperp".to_string(),
        &"0xfund".to_string(),
        &"0xredeemer".to_string(),
        d(1),
        d(4),
    );
    assert_eq!(total, d(17));
    assert!(transfers.is_empty());
}

#[test]
fn derivative_market_adds_the_notional_of_the_slice_once() {
    let mut transfers: Vec<PositionTransferAction> = Vec::new();
    // a quarter of quantity 8 and of margin 40 - 8 * 0.5 funding = 36, up by 2 a unit:
    // 9 + 2 * 2 = 13
    let total = get_updated_redemption_notional_and_update_derivative_position_transfers(
        d(17),
        &mut transfers,
        &DerivativeHolding {
            position: Some(Position {
                is_long: true,
                quantity: d(8),
                entry_price: d(10),
                margin: d(40),
                cumulative_funding_entry: d(1),
            }),
            market: DerivativeMarket {
                mark_price: d(12),
                cumulative_funding: Some(raw(ONE * 3 / 2)),
            },
        },
        &"0xperp".to_string(),
        &"0xfund".to_string(),
        &"0xredeemer".to_string(),
        d(1),
        d(4),
    );
    assert_eq!(total, d(30));
    assert_eq!(
        transfers,
        vec![PositionTransferAction {
            market_id: "0xperp".to_string(),
            source_subaccount_id: "0xfund".to_string(),
            destination_subaccount_id: "0xredeemer".to_string(),
            quantity: d(2),
        }]
    );
}

#[test]
fn response_without_fee_hands_everything_to_the_redeemer() {
    let mut ledger: Records<Decimal> = Records::new();
    ledger.insert("0xperp".to_string(), d(3));
    let transfers = vec![PositionTransferAction {
        market_id: "0xperp".to_string(),
        source_subaccount_id: "0xfund".to_string(),
        destination_subaccount_id: "0xredeemer".to_string(),
        quantity: d(2),
    }];
    let r = get_redemption_response(
        &mut ledger,
        &"holder".to_string(),
        &config(raw(ONE / 10)),
        &vec![Coin { denom: "usdt".to_string(), amount: 10 }],
        d(50),
        d(0),
        &transfers,
        false,
    );
    assert_eq!(r.bank_sends, vec![send("holder", "usdt", 10)]);
    assert_eq!(r.position_transfers, transfers);
    assert_eq!(ledger.get(&"0xperp".to_string()), Some(d(3)));
    assert_eq!(ledger.len(), 1);
}

#[test]
fn response_with_fee_withholds_from_every_asset() {
    let mut ledger: Records<Decimal> = Records::new();
    ledger.insert("0xperp".to_string(), d(3));
    let transfer = |market: &str, quantity: Decimal| PositionTransferAction {
        market_id: market.to_string(),
        source_subaccount_id: "0xfund".to_string(),
        destination_subaccount_id: "0xredeemer".to_string(),
        quantity,
    };
    // fee = 50 * 0.2 / 100 = 0.1
    let r = get_redemption_response(
        &mut ledger,
        &"holder".to_string(),
        &config(raw(ONE / 10)),
        &vec![
            Coin { denom: "usdt".to_string(), amount: 1_000 },
            Coin { denom: "atom".to_string(), amount: 9 },
            Coin { denom: "inj".to_string(), amount: 25 },
        ],
        d(50),
        d(100),
        &vec![transfer("0xperp", d(20)), transfer("0xfut", d(5)), transfer("0xperp", d(10))],
        true,
    );
    assert_eq!(
        r.bank_sends,
        vec![
            send("admin", "usdt", 100),
            send("holder", "usdt", 900),
            send("holder", "atom", 9),
            send("admin", "inj", 2),
            send("holder", "inj", 23),
        ]
    );
    assert_eq!(
        r.position_transfers,
        vec![
            transfer("0xperp", d(18)),
            transfer("0xfut", raw(ONE * 9 / 2)),
            transfer("0xperp", d(9)),
        ]
    );
    assert_eq!(ledger.get(&"0xperp".to_string()), Some(d(6)));
    assert_eq!(ledger.get(&"0xfut".to_string()), Some(raw(ONE / 2)));
    assert_eq!(ledger.len(), 2);
    assert!(!r.pass_through);
}

#[test]
fn what_is_paid_out_for_a_coin_adds_up_to_the_coin() {
    let mut ledger: Records<Decimal> = Records::new();
    let coins: Vec<Coin> = [0u128, 1, 2, 3, 14, 15, 16, 999, 1_000_000_007]
        .iter()
        .map(|amount| Coin { denom: "usdt".to_string(), amount: *amount })
        .collect();
    // fee = 1 * 0.2 / 3 = 0.066666666666666666
    let r = get_redemption_response(
        &mut ledger,
        &"holder".to_string(),
        &config(raw(ONE / 10)),
        &coins,
        d(1),
        d(3),
        &vec![],
        true,
    );
    let mut paid: u128 = 0;
    for s in r.bank_sends.iter() {
        paid += s.amount;
    }
    let mut due: u128 = 0;
    for c in coins.iter() {
        due += c.amount;
    }
    assert_eq!(paid, due);
    let to_admin: u128 =
        r.bank_sends.iter().filter(|s| s.to_address == "admin").map(|s| s.amount).sum();
    // whole part of 0.0666... of each amount: 0 below 16, then 1, 66 and 66,666,667
    assert_eq!(to_admin, 1 + 66 + 66_666_667);
}

#[test]
fn what_a_redemption_returns_is_worth_its_share_of_the_fund() {
    // the fund holds 400 usdt, 100 atom at 2 usdt, and a long position of 8 with margin 40 that
    // is up by 2 a unit: 400 + 200 + 56 = 656
    let state = fund(3 * ONE, ONE, raw(ONE / 10));
    let holdings = FundHoldings {
        quote_balance: d(400),
        spot: vec![SpotHolding {
            base_denom: "atom".to_string(),
            base_balance: d(100),
            raw_oracle_price: d(2),
        }],
        derivatives: vec![DerivativeHolding {
            position: Some(Position {
                is_long: true,
                quantity: d(8),
                entry_price: d(10),
                margin: d(40),
                cumulative_funding_entry: d(1),
            }),
            market: DerivativeMarket { mark_price: d(12), cumulative_funding: Some(d(1)) },
        }],
    };
    let fund_notional =
        get_fund_total_notional(&state.config, &state.denom_decimals, &holdings).unwrap();
    assert_eq!(fund_notional, d(656));

    // a quarter of the shares: 100 usdt, 25 atom worth 50, and a slice worth 14
    let mut coins = vec![Coin { denom: "usdt".to_string(), amount: 100 }];
    let spot_value = get_spot_base_in_quote(
        &holdings.spot[0],
        &state.denom_decimals,
        6,
        Some((d(ONE), d(4 * ONE))),
        &mut coins,
    )
    .unwrap();
    assert_eq!(spot_value, d(50));
    let mut transfers = Vec::new();
    let redeemed = get_updated_redemption_notional_and_update_derivative_position_transfers(
        d(150),
        &mut transfers,
        &holdings.derivatives[0],
        &"0xperp".to_string(),
        &"0xfund".to_string(),
        &"0xredeemer".to_string(),
        d(ONE),
        d(4 * ONE),
    );
    assert_eq!(redeemed, d(656 / 4));
    assert_eq!(
        coins,
        vec![
            Coin { denom: "usdt".to_string(), amount: 100 },
            Coin { denom: "atom".to_string(), amount: 25 },
        ]
    );
    assert_eq!(transfers[0].quantity, d(2));
}

#[test]
fn timestamp_counts_whole_seconds() {
    assert_eq!(Timestamp { nanos: 0 }.seconds(), 0);
    assert_eq!(Timestamp { nanos: 999_999_999 }.seconds(), 0);
    assert_eq!(Timestamp { nanos: 1_000_000_000 }.seconds(), 1);
    assert_eq!(Timestamp { nanos: u64::MAX }.seconds(), 18_446_744_073);
}
