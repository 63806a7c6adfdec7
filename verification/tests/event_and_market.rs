use wager_prediction_market_capstone::errors::ErrorCode;
use wager_prediction_market_capstone::key::Pubkey;
use wager_prediction_market_capstone::state::event::{ErrorCode as EventError, Event, EventType};
use wager_prediction_market_capstone::state::house::HousePool;
use wager_prediction_market_capstone::state::market::{
    ErrorCode as MarketError, Market, MarketOutcome, MarketParams,
};

fn key(b: u8) -> Pubkey {
    Pubkey { bytes: [b; 32] }
}

fn strings(names: &[&str]) -> Vec<String> {
    names.iter().map(|s| s.to_string()).collect()
}

fn blank_event() -> Event {
    Event {
        creator: key(0),
        id: 0,
        outcomes: vec![],
        winning_outcome: 3,
        odds: vec![],
        is_active: false,
        total_bets: vec![9],
        winner: Some("old".to_string()),
        bump: 8,
    }
}

fn blank_market() -> Market {
    Market {
        event_type: EventType::Match,
        description: String::new(),
        possible_outcomes: vec![],
        outcome_liquidity: vec![5],
        total_liquidity: 77,
        oracle_feed: key(0),
        result: MarketOutcome::Settled,
        start_time: 0,
        end_time: 0,
        is_settled: true,
        house_pool: key(0),
        market_authority: key(0),
        creation_time: 0,
    }
}

fn params(outcomes: &[&str]) -> MarketParams {
    MarketParams {
        event_id: 42,
        event_type: EventType::Custom("Derby".to_string()),
        description: "Cup final".to_string(),
        possible_outcomes: strings(outcomes),
        odds: vec![150; outcomes.len()],
        start_time: 1000,
        end_time: 2000,
        oracle_feed: key(5),
        house_pool: key(6),
    }
}

#[test]
fn event_set_data_opens_event() {
    let mut e = blank_event();
    let r = e.set_data(42, strings(&["Home", "Away", "Draw"]), vec![150, 250, 300], key(1));
    assert_eq!(r, Ok(()));
    assert_eq!(e.creator, key(1));
    assert_eq!(e.id, 42);
    assert_eq!(e.outcomes, strings(&["Home", "Away", "Draw"]));
    assert_eq!(e.odds, vec![150, 250, 300]);
    assert!(e.is_active);
    assert_eq!(e.total_bets, vec![0, 0, 0]);
    assert_eq!(e.winner, None);
    assert_eq!(e.winning_outcome, 3);
    assert_eq!(e.bump, 8);
}

#[test]
fn event_set_data_mismatch_is_refused() {
    let mut e = blank_event();
    let r = e.set_data(42, strings(&["Home", "Away"]), vec![150], key(1));
    assert_eq!(r, Err(EventError::OutcomesOddsMismatch));
    assert_eq!(e, blank_event());
}

#[test]
fn event_set_data_count_is_checked() {
    let mut e = blank_event();
    assert_eq!(e.set_data(1, vec![], vec![], key(1)), Err(EventError::InvalidOutcomesCount));
    let seven = strings(&["a", "b", "c", "d", "e", "f", "g"]);
    assert_eq!(e.set_data(1, seven, vec![1; 7], key(1)), Err(EventError::InvalidOutcomesCount));
    assert_eq!(e, blank_event());
    let six = strings(&["a", "b", "c", "d", "e", "f"]);
    assert_eq!(e.set_data(1, six, vec![1; 6], key(1)), Ok(()));
    assert_eq!(e.total_bets, vec![0; 6]);
}

#[test]
fn event_type_names() {
    assert_eq!(EventType::Match.to_string(), "Match");
    assert_eq!(EventType::Tournament.to_string(), "Tournament");
    assert_eq!(EventType::SeasonOutcome.to_string(), "Season Outcome");
    assert_eq!(EventType::PlayerTransfer.to_string(), "Player Transfer");
    assert_eq!(EventType::CoachChange.to_string(), "Coach Change");
    assert_eq!(EventType::AwardWinner.to_string(), "Award Winner");
    assert_eq!(EventType::Custom("Special Event".to_string()).to_string(), "Special Event");
}

#[test]
fn market_outcome_names() {
    let name = |o: MarketOutcome| -> &'static str { o.into() };
    assert_eq!(name(MarketOutcome::MarketSide0Won), "Market side 0 won");
    assert_eq!(name(MarketOutcome::MarketSide1Won), "Market side 1 won");
    assert_eq!(name(MarketOutcome::MarketSide2Won), "Market side 2 won");
    assert_eq!(name(MarketOutcome::NotYetCommenced), "Not yet commenced");
    assert_eq!(name(MarketOutcome::Commenced), "Commenced");
    assert_eq!(name(MarketOutcome::Settled), "Settled");
}

#[test]
fn error_messages() {
    assert_eq!(ErrorCode::EventAlreadyResolved.msg(), "Event is already resolved");
    assert_eq!(ErrorCode::AmountTooBig.msg(), "amount is too big to parse to u32");
    assert_eq!(ErrorCode::CannotPlacebet.msg(), "Cannot Enter");
    assert_eq!(ErrorCode::CannotClaim.msg(), "Cannot Enter");
    assert_eq!(ErrorCode::InsufficientLiquidity.msg(), "Insufficient Liquidity");
}

#[test]
fn market_set_data_opens_market() {
    let mut m = blank_market();
    let r = m.set_data(params(&["Home", "Away"]), key(2), key(3), 1_700_000_000);
    assert_eq!(r, Ok(()));
    assert_eq!(m.event_type, EventType::Custom("Derby".to_string()));
    assert_eq!(m.description, "Cup final");
    assert_eq!(m.possible_outcomes, strings(&["Home", "Away"]));
    assert_eq!(m.outcome_liquidity, vec![0, 0]);
    assert_eq!(m.total_liquidity, 0);
    assert_eq!(m.oracle_feed, key(5));
    assert_eq!(m.result, MarketOutcome::NotYetCommenced);
    assert_eq!(m.start_time, 1000);
    assert_eq!(m.end_time, 2000);
    assert!(!m.is_settled);
    assert_eq!(m.house_pool, key(3));
    assert_eq!(m.market_authority, key(2));
    assert_eq!(m.creation_time, 1_700_000_000);
}

#[test]
fn market_set_data_count_is_checked() {
    let mut m = blank_market();
    assert_eq!(m.set_data(params(&[]), key(2), key(3), 1), Err(MarketError::InvalidOutcomesCount));
    assert_eq!(
        m.set_data(params(&["a", "b", "c", "d"]), key(2), key(3), 1),
        Err(MarketError::InvalidOutcomesCount)
    );
    assert_eq!(m, blank_market());
    assert_eq!(m.set_data(params(&["a", "b", "c"]), key(2), key(3), 1), Ok(()));
}

#[test]
fn house_pool_space() {
    assert_eq!(HousePool::INIT_SPACE, 66);
}
