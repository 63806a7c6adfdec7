use wager_prediction_market_capstone::context::resolvebet::{ed25519_program_id, ResolveEvent, Transfers};
use wager_prediction_market_capstone::errors::ErrorCode;
use wager_prediction_market_capstone::key::Pubkey;
use wager_prediction_market_capstone::state::bet::Bet;
use wager_prediction_market_capstone::state::event::{Event, EventType};
use wager_prediction_market_capstone::state::market::{Market, MarketOutcome};
use wager_prediction_market_capstone::state::pool::LiquidityPool;
use wager_prediction_market_capstone::state::user::User;
use wager_prediction_market_capstone::state::vault::Vault;

fn key(b: u8) -> Pubkey {
    Pubkey { bytes: [b; 32] }
}

/// An event whose recorded winning outcome is 1, with 300 staked, and a bet
/// on outcome 1 that pays 300.
fn setup() -> ResolveEvent {
    let event = Event {
        creator: key(1),
        id: 7,
        outcomes: vec!["Home".to_string(), "Away".to_string(), "Draw".to_string()],
        winning_outcome: 1,
        odds: vec![150, 200, 300],
        is_active: true,
        total_bets: vec![100, 200, 0],
        winner: None,
        bump: 2,
    };
    let bet = Bet {
        bettor: User { wallet: key(20), total_bets: 1, total_winnings: 0, total_losses: 0, active_bets: vec![], bump: 0 },
        market: Market {
            event_type: EventType::Match,
            description: String::new(),
            possible_outcomes: vec![],
            outcome_liquidity: vec![],
            total_liquidity: 0,
            oracle_feed: key(3),
            result: MarketOutcome::Commenced,
            start_time: 0,
            end_time: 0,
            is_settled: false,
            house_pool: key(4),
            market_authority: key(5),
            creation_time: 0,
        },
        user_usdt_account: key(40),
        user_main_account: key(41),
        amount: 200,
        user_risk: 0,
        user_payout: 300,
        points: 0,
        user_market_side: 0,
        outcome: 1,
        bump: 6,
        timestamp: 5,
        odds: 150,
        settled: false,
        cancelled: false,
    };
    let pool = LiquidityPool {
        total_liquidity: 1_000,
        locked_liquidity: 0,
        live_liquidity: 0,
        pending_bets: 0,
        owner: key(1),
        fee_percentage: 2,
        is_active: true,
        house_pool_usdt: key(10),
        betting_pool_usdt: key(11),
        insurance_fund_usdt: key(12),
        wager_foundation_proceeds_usdt: key(13),
        events: vec![key(50)],
        bump: 0,
    };
    ResolveEvent {
        event,
        event_key: key(50),
        vault: Vault { event: key(50), balance: 300, bump: 9 },
        bet,
        liquidity_pool: pool,
        instruction_program_id: ed25519_program_id(),
        instruction_data: vec![0; 96],
    }
}

#[test]
fn total_payout_is_all_stakes_for_recorded_winner() {
    let s = setup();
    assert_eq!(ResolveEvent::calculate_total_payout(&s.event, 1), Ok(300));
    assert_eq!(ResolveEvent::calculate_total_payout(&s.event, 0), Ok(0));
}

#[test]
fn resolve_pays_winning_bet() {
    let mut s = setup();
    let r = s.resolve_event(1);
    assert_eq!(r, Ok(Transfers { to_bettor: Some(300), vault_to_pool: 300 }));
    assert!(!s.event.is_active);
    assert_eq!(s.event.winning_outcome, 1);
    assert_eq!(s.event.total_bets, vec![100, 200, 0]);
    assert_eq!(s.event.winner, Some("Away".to_string()));
    assert!(s.bet.settled);
    assert_eq!(s.bet.points, 0);
    assert_eq!(s.bet.user_market_side, 0);
    assert_eq!(s.bet.user_usdt_account, key(40));
    assert_eq!(s.vault.balance, 0);
    assert_eq!(s.liquidity_pool.total_liquidity, 1_000);
    // pool and vault give up exactly what the bettor is paid
    assert_eq!(s.liquidity_pool.total_liquidity + s.vault.balance + 300, 1_000 + 300);
}

#[test]
fn resolve_with_losing_bet_returns_vault_to_pool() {
    let mut s = setup();
    s.event.winning_outcome = 0;
    s.bet.outcome = 0;
    let r = s.resolve_event(2);
    assert_eq!(r, Ok(Transfers { to_bettor: None, vault_to_pool: 300 }));
    assert!(!s.event.is_active);
    assert_eq!(s.event.winning_outcome, 2);
    assert_eq!(s.event.winner, Some("Draw".to_string()));
    assert!(!s.bet.settled);
    assert_eq!(s.vault.balance, 0);
    assert_eq!(s.liquidity_pool.total_liquidity, 1_300);
}

#[test]
fn resolve_twice_is_refused() {
    let mut s = setup();
    s.resolve_event(1).unwrap();
    let before = s.clone();
    assert_eq!(s.resolve_event(1), Err(ErrorCode::EventAlreadyResolved));
    assert_eq!(s.resolve_event(0), Err(ErrorCode::EventAlreadyResolved));
    assert_eq!(s, before);
}

#[test]
fn resolve_needs_signature_program_instruction() {
    let mut s = setup();
    s.instruction_program_id = key(78);
    let before = s.clone();
    assert_eq!(s.resolve_event(1), Err(ErrorCode::UnauthorizedResolution));
    assert_eq!(s, before);
}

#[test]
fn resolve_needs_signature_and_key_in_data() {
    let mut s = setup();
    s.instruction_data = vec![0; 95];
    let before = s.clone();
    assert_eq!(s.resolve_event(1), Err(ErrorCode::InvalidInstructionData));
    assert_eq!(s, before);
}

#[test]
fn resolve_unknown_outcome_is_refused() {
    let mut s = setup();
    let before = s.clone();
    assert_eq!(s.resolve_event(3), Err(ErrorCode::InvalidWinningOutcome));
    assert_eq!(s, before);
}

#[test]
fn resolve_needs_vault_to_cover_payout() {
    let mut s = setup();
    s.vault.balance = 299;
    let before = s.clone();
    assert_eq!(s.resolve_event(1), Err(ErrorCode::InsufficientVaultBalance));
    assert_eq!(s, before);
}

#[test]
fn resolve_settled_bet_is_refused() {
    let mut s = setup();
    s.bet.settled = true;
    let before = s.clone();
    assert_eq!(s.resolve_event(1), Err(ErrorCode::BetAlreadyResolved));
    assert_eq!(s, before);
}

#[test]
fn resolve_needs_pool_to_cover_bet() {
    let mut s = setup();
    s.liquidity_pool.total_liquidity = 299;
    let before = s.clone();
    assert_eq!(s.resolve_event(1), Err(ErrorCode::InsufficientLiquidity));
    assert_eq!(s, before);
}

#[test]
fn resolve_payout_mismatch_is_refused() {
    let mut s = setup();
    s.bet.user_payout = 100;
    let before = s.clone();
    assert_eq!(s.resolve_event(1), Err(ErrorCode::PayoutMismatch));
    assert_eq!(s, before);
    let mut t = setup();
    t.bet.outcome = 0;
    assert_eq!(t.resolve_event(1), Err(ErrorCode::PayoutMismatch));
}

#[test]
fn resolve_pool_overflow_is_refused() {
    let mut s = setup();
    s.event.winning_outcome = 0;
    s.bet.outcome = 0;
    s.liquidity_pool.total_liquidity = u64::MAX - 299;
    let before = s.clone();
    assert_eq!(s.resolve_event(1), Err(ErrorCode::PayoutOverflow));
    assert_eq!(s, before);
}

#[test]
fn signature_program_is_the_ed25519_program() {
    let id = anchor_lang::solana_program::ed25519_program::ID;
    assert_eq!(ed25519_program_id().bytes, id.to_bytes());
}
