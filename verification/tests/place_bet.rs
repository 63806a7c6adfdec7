use wager_prediction_market_capstone::context::placebet::PlaceBet;
use wager_prediction_market_capstone::errors::ErrorCode;
use wager_prediction_market_capstone::key::Pubkey;
use wager_prediction_market_capstone::state::bet::Bet;
use wager_prediction_market_capstone::state::event::{Event, EventType};
use wager_prediction_market_capstone::state::market::{Market, MarketOutcome};
use wager_prediction_market_capstone::state::pool::LiquidityPool;
use wager_prediction_market_capstone::state::user::User;
use wager_prediction_market_capstone::state::vault::Vault;

fn key(b: u8) -> Pubkey {
    Pubkey { bytes: [b; 32] }
}

fn user() -> User {
    User { wallet: key(20), total_bets: 2, total_winnings: 0, total_losses: 0, active_bets: vec![key(30)], bump: 1 }
}

fn market() -> Market {
    Market {
        event_type: EventType::Match,
        description: "Derby".to_string(),
        possible_outcomes: vec!["Home".to_string(), "Away".to_string()],
        outcome_liquidity: vec![0, 0],
        total_liquidity: 0,
        oracle_feed: key(3),
        result: MarketOutcome::NotYetCommenced,
        start_time: 10,
        end_time: 20,
        is_settled: false,
        house_pool: key(4),
        market_authority: key(5),
        creation_time: 1,
    }
}

fn setup() -> PlaceBet {
    let event = Event {
        creator: key(1),
        id: 7,
        outcomes: vec!["Home".to_string(), "Away".to_string(), "Draw".to_string()],
        winning_outcome: 0,
        odds: vec![150, 200, 300],
        is_active: true,
        total_bets: vec![100, 200, 0],
        winner: None,
        bump: 2,
    };
    let bet = Bet {
        bettor: User { wallet: key(0), total_bets: 0, total_winnings: 0, total_losses: 0, active_bets: vec![], bump: 0 },
        market: market(),
        user_usdt_account: key(40),
        user_main_account: key(41),
        amount: 0,
        user_risk: 3,
        user_payout: 9,
        points: 4,
        user_market_side: 1,
        outcome: 0,
        bump: 6,
        timestamp: 0,
        odds: 0,
        settled: true,
        cancelled: false,
    };
    let pool = LiquidityPool {
        total_liquidity: 10_000,
        locked_liquidity: 0,
        live_liquidity: 0,
        pending_bets: 0,
        owner: key(1),
        fee_percentage: 2,
        is_active: true,
        house_pool_usdt: key(10),
        betting_pool_usdt: key(11),
        insurance_fund_usdt: key(12),
        wager_foundation_proceeds_usdt: key(13),
        events: vec![key(50)],
        bump: 0,
    };
    PlaceBet {
        bet,
        bet_key: key(60),
        event,
        vault: Vault { event: key(50), balance: 300, bump: 9 },
        user: user(),
        market: market(),
        liquidity_pool: pool,
    }
}

#[test]
fn check_bet_gives_odds_stakes() {
    let s = setup();
    assert_eq!(s.check_bet(1, 50), Ok((350, 250)));
    assert_eq!(s.check_bet(2, 0), Ok((300, 0)));
    assert_eq!(s.odds_stakes(0, 1), Ok((301, 101)));
}

#[test]
fn place_bet_records_bet_and_moves_stake() {
    let mut s = setup();
    assert_eq!(s.place_bet(1, 50, 140, 1_700_000_123), Ok(()));
    assert_eq!(s.bet.bettor, user());
    assert_eq!(s.bet.market, market());
    assert_eq!(s.bet.outcome, 1);
    assert_eq!(s.bet.amount, 50);
    assert_eq!(s.bet.odds, 140);
    assert_eq!(s.bet.timestamp, 1_700_000_123);
    assert!(!s.bet.settled);
    assert_eq!(s.bet.user_payout, 0);
    assert_eq!(s.bet.user_risk, 3);
    assert_eq!(s.event.total_bets, vec![100, 250, 0]);
    assert_eq!(s.event.odds, vec![150, 140, 300]);
    assert!(s.event.is_active);
    assert_eq!(s.user.total_bets, 3);
    assert_eq!(s.user.active_bets, vec![key(30), key(60)]);
    assert_eq!(s.liquidity_pool.total_liquidity, 9_950);
    assert_eq!(s.vault.balance, 350);
    // the stake only moves between pool and vault
    assert_eq!(s.vault.balance + s.liquidity_pool.total_liquidity, 300 + 10_000);
    let total: u64 = s.event.total_bets.iter().sum();
    assert_eq!(total, 350);
}

#[test]
fn place_bet_on_inactive_event_is_refused() {
    let mut s = setup();
    s.event.is_active = false;
    let before = s.clone();
    assert_eq!(s.place_bet(1, 50, 140, 1), Err(ErrorCode::EventInactive));
    assert_eq!(s, before);
}

#[test]
fn place_bet_on_unknown_outcome_is_refused() {
    let mut s = setup();
    let before = s.clone();
    assert_eq!(s.place_bet(3, 50, 140, 1), Err(ErrorCode::InvalidOutcomeIndex));
    assert_eq!(s, before);
}

#[test]
fn place_bet_amount_must_fit_u32() {
    let mut s = setup();
    s.liquidity_pool.total_liquidity = u64::MAX;
    let before = s.clone();
    assert_eq!(s.place_bet(0, u32::MAX as u64 + 1, 140, 1), Err(ErrorCode::AmountTooBig));
    assert_eq!(s, before);
    assert_eq!(s.place_bet(0, u32::MAX as u64, 140, 1), Ok(()));
}

#[test]
fn place_bet_needs_liquidity() {
    let mut s = setup();
    s.liquidity_pool.total_liquidity = 49;
    let before = s.clone();
    assert_eq!(s.place_bet(0, 50, 140, 1), Err(ErrorCode::InsufficientLiquidity));
    assert_eq!(s, before);
    s.liquidity_pool.total_liquidity = 50;
    assert_eq!(s.place_bet(0, 50, 140, 1), Ok(()));
    assert_eq!(s.liquidity_pool.total_liquidity, 0);
}

#[test]
fn place_bet_stake_overflow_is_refused() {
    let mut s = setup();
    s.event.total_bets = vec![u64::MAX - 10, 0, 0];
    let before = s.clone();
    assert_eq!(s.check_bet(1, 11), Err(ErrorCode::PayoutOverflow));
    assert_eq!(s.place_bet(1, 11, 140, 1), Err(ErrorCode::PayoutOverflow));
    assert_eq!(s, before);
}

#[test]
fn place_bet_user_count_overflow_is_refused() {
    let mut s = setup();
    s.user.total_bets = u64::MAX;
    let before = s.clone();
    assert_eq!(s.place_bet(1, 50, 140, 1), Err(ErrorCode::PayoutOverflow));
    assert_eq!(s, before);
}

#[test]
fn place_bet_vault_overflow_is_refused() {
    let mut s = setup();
    s.vault.balance = u64::MAX - 49;
    let before = s.clone();
    assert_eq!(s.place_bet(1, 50, 140, 1), Err(ErrorCode::PayoutOverflow));
    assert_eq!(s, before);
    assert_eq!(s.place_bet(1, 49, 140, 1), Ok(()));
    assert_eq!(s.vault.balance, u64::MAX);
}

#[test]
fn place_bet_total_overflow_comes_before_outcome_stake() {
    let mut s = setup();
    s.event.total_bets = vec![u64::MAX - 10];
    s.event.odds = vec![];
    let before = s.clone();
    assert_eq!(s.check_bet(2, 11), Err(ErrorCode::PayoutOverflow));
    assert_eq!(s.place_bet(2, 11, 140, 1), Err(ErrorCode::PayoutOverflow));
    assert_eq!(s, before);
}
