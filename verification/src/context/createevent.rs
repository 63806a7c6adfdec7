use vstd::prelude::*;

use crate::errors::WagerError;
use crate::key::Pubkey;
use crate::state::event::{Event, set_data_error, stake_sum, stakes_consistent, lemma_set_data_consistent};
use crate::state::market::{Market, MarketParams, MarketOutcome, market_set_data_error};
use crate::state::pool::{LiquidityPool, add_event_result, same_but_events, lemma_added_event_is_listed};
use crate::state::vault::Vault;

verus! {

/// The accounts that setting up an event touches: the new event, its vault and
/// market, and the creator's liquidity pool.
#[derive(Clone, Debug, PartialEq)]
pub struct CreateEvent {
    pub event: Event,
    /// Address of the new event.
    pub event_key: Pubkey,
    pub vault: Vault,
    pub market: Market,
    /// The creator, who signs.
    pub creator: Pubkey,
    pub liquidity_pool: LiquidityPool,
}

/// The error that refuses setting up the event, if any.
pub open spec fn create_event_error(s: CreateEvent, market_params: MarketParams) -> Option<WagerError> {
    match set_data_error(market_params.possible_outcomes.len() as nat, market_params.odds.len() as nat) {
        Some(e) => Some(WagerError::Event(e)),
        None => match market_set_data_error(market_params.possible_outcomes.len() as nat) {
            Some(e) => Some(WagerError::Market(e)),
            None => match add_event_result(s.liquidity_pool.events@, s.event_key) {
                Err(e) => Some(WagerError::Pool(e)),
                Ok(_) => None,
            },
        },
    }
}

impl CreateEvent {
    /// Sets up the event with the market's outcomes and odds, the market with
    /// the creator as its authority, and the vault for the event, and lists the
    /// event in the creator's pool. `creation_time` is the cluster's clock.
    ///
    /// Refused, in this order, by the event (outcomes and odds differ in number,
    /// or there are none or more than six), by the market (more than three
    /// outcomes), or by the pool (ten events listed already). All checks precede
    /// any write, so a refusal leaves every account unchanged.
    pub fn create_event(
        &mut self,
        event_id: u64,
        house_pool: Pubkey,
        market_params: MarketParams,
        creation_time: i64,
    ) -> (r: Result<(), WagerError>)
        ensures
            match create_event_error(*old(self), market_params) {
                Some(e) => r == Err::<(), WagerError>(e) && *final(self) == *old(self),
                None => {
                    &&& r is Ok
                    // the event
                    &&& final(self).event.creator == old(self).creator
                    &&& final(self).event.id == event_id
                    &&& final(self).event.outcomes@ == market_params.possible_outcomes@
                    &&& final(self).event.odds@ == market_params.odds@
                    &&& final(self).event.is_active
                    &&& final(self).event.total_bets@ == Seq::new(market_params.possible_outcomes.len() as nat, |i: int| 0u64)
                    &&& final(self).event.winner is None
                    &&& final(self).event.winning_outcome == old(self).event.winning_outcome
                    &&& final(self).event.bump == old(self).event.bump
                    &&& stakes_consistent(final(self).event)
                    &&& stake_sum(final(self).event.total_bets@) == 0
                    // the market
                    &&& final(self).market.event_type == market_params.event_type
                    &&& final(self).market.description == market_params.description
                    &&& final(self).market.possible_outcomes@ == market_params.possible_outcomes@
                    &&& final(self).market.outcome_liquidity@ == Seq::new(market_params.possible_outcomes.len() as nat, |i: int| 0u64)
                    &&& final(self).market.total_liquidity == 0
                    &&& final(self).market.oracle_feed == market_params.oracle_feed
                    &&& final(self).market.result == MarketOutcome::NotYetCommenced
                    &&& final(self).market.start_time == market_params.start_time
                    &&& final(self).market.end_time == market_params.end_time
                    &&& !final(self).market.is_settled
                    &&& final(self).market.house_pool == house_pool
                    &&& final(self).market.market_authority == old(self).creator
                    &&& final(self).market.creation_time == creation_time
                    // the vault
                    &&& final(self).vault.event == old(self).event_key
                    &&& final(self).vault.balance == 0
                    &&& final(self).vault.bump == old(self).vault.bump
                    // the pool
                    &&& final(self).liquidity_pool.events@ == old(self).liquidity_pool.events@.push(old(self).event_key)
                    &&& final(self).liquidity_pool.events@.contains(old(self).event_key)
                    &&& same_but_events(final(self).liquidity_pool, old(self).liquidity_pool)
                    &&& final(self).event_key == old(self).event_key
                    &&& final(self).creator == old(self).creator
                },
            },
    {
        if market_params.possible_outcomes.len() != market_params.odds.len()
            || market_params.possible_outcomes.len() > crate::state::event::MAX_OUTCOMES
            || market_params.possible_outcomes.len() == 0 {
            let e = if market_params.possible_outcomes.len() != market_params.odds.len() {
                crate::state::event::ErrorCode::OutcomesOddsMismatch
            } else {
                crate::state::event::ErrorCode::InvalidOutcomesCount
            };
            return Err(WagerError::Event(e));
        }
        if market_params.possible_outcomes.len() > crate::state::market::MAX_MARKET_OUTCOMES {
            return Err(WagerError::Market(crate::state::market::ErrorCode::InvalidOutcomesCount));
        }
        if self.liquidity_pool.events.len() >= crate::state::pool::MAX_EVENTS {
            return Err(WagerError::Pool(crate::state::pool::ErrorCode::MaxEventsReached));
        }
        let possible_outcomes = market_params.possible_outcomes.clone();
        let odds = market_params.odds.clone();
        assert(possible_outcomes@ =~= market_params.possible_outcomes@);
        assert(odds@ =~= market_params.odds@);
        let creator = self.creator;
        let event_key = self.event_key;
        match self.event.set_data(event_id, possible_outcomes, odds, creator) {
            Ok(()) => {},
            Err(e) => return Err(WagerError::Event(e)),
        }
        proof {
            lemma_set_data_consistent(self.event, market_params.possible_outcomes@, market_params.odds@);
        }
        match self.market.set_data(market_params, creator, house_pool, creation_time) {
            Ok(()) => {},
            Err(e) => return Err(WagerError::Market(e)),
        }
        match self.vault.set_data(event_key) {
            Ok(()) => {},
            Err(e) => return Err(WagerError::Vault(e)),
        }
        proof {
            lemma_added_event_is_listed(self.liquidity_pool.events@, event_key);
        }
        match self.liquidity_pool.add_event(event_key) {
            Ok(()) => {},
            Err(e) => return Err(WagerError::Pool(e)),
        }
        Ok(())
    }
}

/// Setting up an event goes through whenever the outcomes and odds match in
/// number, there are one to three outcomes, and the pool lists fewer than ten
/// events; a three-way market (home, draw, away) included.
pub proof fn lemma_create_event_accepted(s: CreateEvent, market_params: MarketParams)
    requires
        market_params.possible_outcomes.len() == market_params.odds.len(),
        1 <= market_params.possible_outcomes.len() <= 3,
        s.liquidity_pool.events.len() < 10,
    ensures
        create_event_error(s, market_params) is None,
{
}

} // verus!
