use vstd::prelude::*;

use crate::key::Pubkey;
use crate::state::event::EventType;

verus! {

/// The most outcomes a market may have.
pub const MAX_MARKET_OUTCOMES: usize = 3;

/// A betting market on one event.
#[derive(Debug, PartialEq)]
pub struct Market {
    pub event_type: EventType,
    pub description: String,
    pub possible_outcomes: Vec<String>,
    /// Liquidity placed on each outcome.
    pub outcome_liquidity: Vec<u64>,
    pub total_liquidity: u64,
    pub oracle_feed: Pubkey,
    pub result: MarketOutcome,
    pub start_time: i64,
    pub end_time: i64,
    pub is_settled: bool,
    pub house_pool: Pubkey,
    pub market_authority: Pubkey,
    pub creation_time: i64,
}

/// What a market is created from.
#[derive(Clone, Debug, PartialEq)]
pub struct MarketParams {
    pub event_id: u64,
    pub event_type: EventType,
    pub description: String,
    pub possible_outcomes: Vec<String>,
    pub odds: Vec<u64>,
    pub start_time: i64,
    pub end_time: i64,
    pub oracle_feed: Pubkey,
    pub house_pool: Pubkey,
}

/// Where a market stands.
#[derive(Clone, Copy, Debug, PartialEq, Eq, Structural)]
pub enum MarketOutcome {
    MarketSide0Won,
    MarketSide1Won,
    MarketSide2Won,
    NotYetCommenced,
    Commenced,
    Settled,
}

/// The winning side of a settled market.
#[derive(Clone, Copy, Debug, PartialEq, Eq, Structural)]
pub enum MarketWinner {
    Side0,
    Side1,
    Side2,
}

/// The phase of a market.
#[derive(Clone, Copy, Debug, PartialEq, Eq, Structural)]
pub enum MarketState {
    NotYetCommenced,
    Commenced,
    Settled(MarketWinner),
}

/// Errors of setting up a market.
#[derive(Clone, Copy, Debug, PartialEq, Eq, Structural)]
pub enum ErrorCode {
    InvalidOutcomesCount,
}

impl From<MarketOutcome> for &'static str {
    fn from(val: MarketOutcome) -> (s: &'static str) {
        match val {
            MarketOutcome::MarketSide0Won => "Market side 0 won",
            MarketOutcome::MarketSide1Won => "Market side 1 won",
            MarketOutcome::MarketSide2Won => "Market side 2 won",
            MarketOutcome::NotYetCommenced => "Not yet commenced",
            MarketOutcome::Commenced => "Commenced",
            MarketOutcome::Settled => "Settled",
        }
    }
}

impl vstd::std_specs::convert::FromSpecImpl<MarketOutcome> for &'static str {
    open spec fn obeys_from_spec() -> bool {
        true
    }

    open spec fn from_spec(val: MarketOutcome) -> &'static str {
        match val {
            MarketOutcome::MarketSide0Won => "Market side 0 won",
            MarketOutcome::MarketSide1Won => "Market side 1 won",
            MarketOutcome::MarketSide2Won => "Market side 2 won",
            MarketOutcome::NotYetCommenced => "Not yet commenced",
            MarketOutcome::Commenced => "Commenced",
            MarketOutcome::Settled => "Settled",
        }
    }
}

/// Why `set_data` refuses a market with this many outcomes, if it does.
pub open spec fn market_set_data_error(num_outcomes: nat) -> Option<ErrorCode> {
    if num_outcomes > MAX_MARKET_OUTCOMES || num_outcomes == 0 {
        Some(ErrorCode::InvalidOutcomesCount)
    } else {
        None
    }
}

/// The two markets hold the same values.
pub open spec fn same_market(a: Market, b: Market) -> bool {
    &&& a.event_type == b.event_type
    &&& a.description == b.description
    &&& a.possible_outcomes@ == b.possible_outcomes@
    &&& a.outcome_liquidity@ == b.outcome_liquidity@
    &&& a.total_liquidity == b.total_liquidity
    &&& a.oracle_feed == b.oracle_feed
    &&& a.result == b.result
    &&& a.start_time == b.start_time
    &&& a.end_time == b.end_time
    &&& a.is_settled == b.is_settled
    &&& a.house_pool == b.house_pool
    &&& a.market_authority == b.market_authority
    &&& a.creation_time == b.creation_time
}

impl Clone for Market {
    fn clone(&self) -> (r: Self)
        ensures
            same_market(r, *self),
    {
        let possible_outcomes = self.possible_outcomes.clone();
        let outcome_liquidity = self.outcome_liquidity.clone();
        assert(possible_outcomes@ =~= self.possible_outcomes@);
        assert(outcome_liquidity@ =~= self.outcome_liquidity@);
        Market {
            event_type: self.event_type.clone(),
            description: self.description.clone(),
            possible_outcomes,
            outcome_liquidity,
            total_liquidity: self.total_liquidity,
            oracle_feed: self.oracle_feed,
            result: self.result,
            start_time: self.start_time,
            end_time: self.end_time,
            is_settled: self.is_settled,
            house_pool: self.house_pool,
            market_authority: self.market_authority,
            creation_time: self.creation_time,
        }
    }
}

impl Market {
    /// Opens the market described by `market_params`: not yet commenced, not
    /// settled, with no liquidity on any outcome, created at `creation_time`
    /// (the cluster's clock when the market is set up). Refused when there are
    /// no outcomes or more than three; a refusal leaves the market unchanged.
    pub fn set_data(
        &mut self,
        market_params: MarketParams,
        market_authority: Pubkey,
        house_pool: Pubkey,
        creation_time: i64,
    ) -> (r: Result<(), ErrorCode>)
        ensures
            match market_set_data_error(market_params.possible_outcomes.len() as nat) {
                Some(e) => r == Err::<(), ErrorCode>(e) && *final(self) == *old(self),
                None => {
                    &&& r is Ok
                    &&& final(self).event_type == market_params.event_type
                    &&& final(self).description == market_params.description
                    &&& final(self).possible_outcomes@ == market_params.possible_outcomes@
                    &&& final(self).outcome_liquidity@ == Seq::new(
                        market_params.possible_outcomes.len() as nat,
                        |i: int| 0u64,
                    )
                    &&& final(self).total_liquidity == 0
                    &&& final(self).oracle_feed == market_params.oracle_feed
                    &&& final(self).result == MarketOutcome::NotYetCommenced
                    &&& final(self).start_time == market_params.start_time
                    &&& final(self).end_time == market_params.end_time
                    &&& !final(self).is_settled
                    &&& final(self).house_pool == house_pool
                    &&& final(self).market_authority == market_authority
                    &&& final(self).creation_time == creation_time
                },
            },
    {
        if market_params.possible_outcomes.len() > MAX_MARKET_OUTCOMES
            || market_params.possible_outcomes.len() == 0 {
            return Err(ErrorCode::InvalidOutcomesCount);
        }
        let n = market_params.possible_outcomes.len();
        self.event_type = market_params.event_type;
        self.description = market_params.description;
        self.possible_outcomes = market_params.possible_outcomes;
        let zeros: Vec<u64> = vec![0; n];
        assert(zeros@ =~= Seq::new(n as nat, |i: int| 0u64));
        self.outcome_liquidity = zeros;
        self.total_liquidity = 0;
        self.oracle_feed = market_params.oracle_feed;
        self.result = MarketOutcome::NotYetCommenced;
        self.start_time = market_params.start_time;
        self.end_time = market_params.end_time;
        self.is_settled = false;
        self.house_pool = house_pool;
        self.market_authority = market_authority;
        self.creation_time = creation_time;
        Ok(())
    }
}

/// A market with one, two or three outcomes is accepted; none, or four or more, is refused.
pub proof fn lemma_market_outcome_count(num_outcomes: nat)
    ensures
        (market_set_data_error(num_outcomes) is None) <==> (1 <= num_outcomes <= 3),
{
}

} // verus!
