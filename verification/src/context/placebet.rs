use vstd::prelude::*;

use crate::errors::ErrorCode;
use crate::key::Pubkey;
use crate::state::bet::Bet;
use crate::state::event::{Event, stake_sum, stakes_consistent, total_staked, lemma_stake_sum_update, lemma_stake_sum_zeros, lemma_stake_sum_nonneg};
use crate::state::market::{Market, same_market};
use crate::state::pool::LiquidityPool;
use crate::state::user::{User, same_user};
use crate::state::vault::Vault;

verus! {

/// The accounts a bet touches: the new bet, the event it is on, the event's
/// vault, the bettor's record and market, and the pool that backs the event.
#[derive(Clone, Debug, PartialEq)]
pub struct PlaceBet {
    pub bet: Bet,
    /// Address of the new bet.
    pub bet_key: Pubkey,
    pub event: Event,
    pub vault: Vault,
    pub user: User,
    pub market: Market,
    pub liquidity_pool: LiquidityPool,
}

/// The bet passes the checks that come before its odds are computed: the event
/// is active, the outcome is one of the event's, the amount fits in a `u32`
/// and the pool holds at least that much.
pub open spec fn bet_admissible(s: PlaceBet, outcome: u8, amount: u64) -> bool {
    &&& s.event.is_active
    &&& outcome < (s.event.outcomes.len() as u8)
    &&& amount <= u32::MAX
    &&& s.liquidity_pool.total_liquidity >= amount
}

/// Where a bet gets past its first checks, its stakes sum to an amount that
/// fits in a `u64`, and where that sum plus the amount fits too, the outcome
/// indexes the event's stakes.
pub open spec fn bet_checks_defined(s: PlaceBet, outcome: u8, amount: u64) -> bool {
    bet_admissible(s, outcome, amount) ==> {
        &&& stake_sum(s.event.total_bets@) <= u64::MAX
        &&& (stake_sum(s.event.total_bets@) + amount <= u64::MAX
            ==> (outcome as int) < s.event.total_bets.len())
    }
}

/// Beyond `bet_checks_defined`: where the bet passes all the checks that
/// `check_bet` runs, the outcome also indexes the event's odds.
pub open spec fn bet_stakes_defined(s: PlaceBet, outcome: u8, amount: u64) -> bool {
    &&& bet_checks_defined(s, outcome, amount)
    &&& (bet_check_result(s, outcome, amount) is Ok ==> (outcome as int) < s.event.odds.len())
}

/// The total staked and the amount staked on `outcome` once `bet_amount` is
/// added, or the overflow that refuses it.
pub open spec fn odds_stakes_result(total_bets: Seq<u64>, outcome: u8, bet_amount: u64) -> Result<(u64, u64), ErrorCode> {
    if stake_sum(total_bets) + bet_amount > u64::MAX {
        Err(ErrorCode::PayoutOverflow)
    } else if total_bets[outcome as int] + bet_amount > u64::MAX {
        Err(ErrorCode::PayoutOverflow)
    } else {
        Ok(((stake_sum(total_bets) + bet_amount) as u64, (total_bets[outcome as int] + bet_amount) as u64))
    }
}

/// What the checks of a bet give: the stakes its odds are computed from, or the
/// first check it fails.
pub open spec fn bet_check_result(s: PlaceBet, outcome: u8, amount: u64) -> Result<(u64, u64), ErrorCode> {
    if !s.event.is_active {
        Err(ErrorCode::EventInactive)
    } else if !(outcome < (s.event.outcomes.len() as u8)) {
        Err(ErrorCode::InvalidOutcomeIndex)
    } else if amount > u32::MAX {
        Err(ErrorCode::AmountTooBig)
    } else if s.liquidity_pool.total_liquidity < amount {
        Err(ErrorCode::InsufficientLiquidity)
    } else {
        odds_stakes_result(s.event.total_bets@, outcome, amount)
    }
}

/// The error that refuses a bet, if any.
pub open spec fn place_bet_error(s: PlaceBet, outcome: u8, amount: u64) -> Option<ErrorCode> {
    match bet_check_result(s, outcome, amount) {
        Err(e) => Some(e),
        Ok(_) => if s.user.total_bets == u64::MAX {
            Some(ErrorCode::PayoutOverflow)
        } else if s.vault.balance + amount > u64::MAX {
            Some(ErrorCode::PayoutOverflow)
        } else {
            None
        },
    }
}

/// Every field of the two events but the stakes and odds agrees.
pub open spec fn same_event_but_stakes(a: Event, b: Event) -> bool {
    &&& a.creator == b.creator
    &&& a.id == b.id
    &&& a.outcomes@ == b.outcomes@
    &&& a.winning_outcome == b.winning_outcome
    &&& a.is_active == b.is_active
    &&& a.winner == b.winner
    &&& a.bump == b.bump
}

/// The fields a bet keeps when it is placed.
pub open spec fn bet_fields_kept(a: Bet, b: Bet) -> bool {
    &&& a.user_usdt_account == b.user_usdt_account
    &&& a.user_main_account == b.user_main_account
    &&& a.user_risk == b.user_risk
    &&& a.points == b.points
    &&& a.user_market_side == b.user_market_side
    &&& a.bump == b.bump
    &&& a.cancelled == b.cancelled
}

/// Every field of the two pools but the total liquidity agrees.
pub open spec fn same_pool_but_liquidity(a: LiquidityPool, b: LiquidityPool) -> bool {
    &&& a.locked_liquidity == b.locked_liquidity
    &&& a.live_liquidity == b.live_liquidity
    &&& a.pending_bets == b.pending_bets
    &&& a.owner == b.owner
    &&& a.fee_percentage == b.fee_percentage
    &&& a.is_active == b.is_active
    &&& a.house_pool_usdt == b.house_pool_usdt
    &&& a.betting_pool_usdt == b.betting_pool_usdt
    &&& a.insurance_fund_usdt == b.insurance_fund_usdt
    &&& a.wager_foundation_proceeds_usdt == b.wager_foundation_proceeds_usdt
    &&& a.events@ == b.events@
    &&& a.bump == b.bump
}

impl PlaceBet {
    /// The total staked on the event and the amount staked on `outcome`, each
    /// with `bet_amount` added: the integer inputs of a bet's odds. Refused when
    /// either sum overflows a `u64`.
    pub fn odds_stakes(&self, outcome: u8, bet_amount: u64) -> (r: Result<(u64, u64), ErrorCode>)
        requires
            stake_sum(self.event.total_bets@) <= u64::MAX,
            stake_sum(self.event.total_bets@) + bet_amount <= u64::MAX
                ==> (outcome as int) < self.event.total_bets.len(),
        ensures
            r == odds_stakes_result(self.event.total_bets@, outcome, bet_amount),
    {
        let total_bets = total_staked(&self.event.total_bets);
        let new_total_bets = match total_bets.checked_add(bet_amount) {
            Some(v) => v,
            None => return Err(ErrorCode::PayoutOverflow),
        };
        let outcome_bets = self.event.total_bets[outcome as usize];
        let new_outcome_bets = match outcome_bets.checked_add(bet_amount) {
            Some(v) => v,
            None => return Err(ErrorCode::PayoutOverflow),
        };
        Ok((new_total_bets, new_outcome_bets))
    }

    /// Runs the checks of a bet of `amount` on `outcome`, in order: the event is
    /// active, the outcome is one of its own, the amount fits in a `u32`, the pool
    /// holds the amount, and the stakes with the amount added fit in a `u64`.
    /// Gives the stakes the bet's odds are computed from.
    pub fn check_bet(&self, outcome: u8, amount: u64) -> (r: Result<(u64, u64), ErrorCode>)
        requires
            bet_checks_defined(*self, outcome, amount),
        ensures
            r == bet_check_result(*self, outcome, amount),
    {
        if !self.event.is_active {
            return Err(ErrorCode::EventInactive);
        }
        if !(outcome < self.event.outcomes.len() as u8) {
            return Err(ErrorCode::InvalidOutcomeIndex);
        }
        if amount > 0xffff_ffffu64 {
            return Err(ErrorCode::AmountTooBig);
        }
        if !(self.liquidity_pool.total_liquidity >= amount) {
            return Err(ErrorCode::InsufficientLiquidity);
        }
        self.odds_stakes(outcome, amount)
    }

    /// Places a bet of `amount` on `outcome` at `new_odds` (computed from the
    /// stakes that `check_bet` gives), at time `timestamp`.
    ///
    /// The bet records the bettor and market as they stand, the outcome, amount,
    /// odds and time, and is unsettled with no payout. The amount is added to
    /// the outcome's stake, the outcome's odds become `new_odds`, the user's bet
    /// count grows by one and the bet joins the user's active bets, and the
    /// amount moves from the pool's liquidity into the vault.
    ///
    /// Refused with the first failing check of `check_bet`, or with
    /// `PayoutOverflow` when the user's bet count or the vault's balance would
    /// overflow. All checks precede any write, so a refused bet leaves every
    /// account unchanged.
    pub fn place_bet(&mut self, outcome: u8, amount: u64, new_odds: u64, timestamp: i64) -> (r: Result<(), ErrorCode>)
        requires
            bet_stakes_defined(*old(self), outcome, amount),
        ensures
            match place_bet_error(*old(self), outcome, amount) {
                Some(e) => r == Err::<(), ErrorCode>(e) && *final(self) == *old(self),
                None => {
                    let o = outcome as int;
                    let staked = old(self).event.total_bets@[o];
                    &&& r is Ok
                    &&& same_user(final(self).bet.bettor, old(self).user)
                    &&& same_market(final(self).bet.market, old(self).market)
                    &&& final(self).bet.outcome == outcome
                    &&& final(self).bet.amount == amount
                    &&& final(self).bet.odds == new_odds
                    &&& final(self).bet.timestamp == timestamp
                    &&& !final(self).bet.settled
                    &&& final(self).bet.user_payout == 0
                    &&& bet_fields_kept(final(self).bet, old(self).bet)
                    &&& final(self).event.total_bets@ == old(self).event.total_bets@.update(o, (staked + amount) as u64)
                    &&& final(self).event.odds@ == old(self).event.odds@.update(o, new_odds)
                    &&& same_event_but_stakes(final(self).event, old(self).event)
                    &&& final(self).user.total_bets == old(self).user.total_bets + 1
                    &&& final(self).user.active_bets@ == old(self).user.active_bets@.push(old(self).bet_key)
                    &&& final(self).user.wallet == old(self).user.wallet
                    &&& final(self).user.total_winnings == old(self).user.total_winnings
                    &&& final(self).user.total_losses == old(self).user.total_losses
                    &&& final(self).user.bump == old(self).user.bump
                    &&& final(self).liquidity_pool.total_liquidity == old(self).liquidity_pool.total_liquidity - amount
                    &&& same_pool_but_liquidity(final(self).liquidity_pool, old(self).liquidity_pool)
                    &&& final(self).vault.balance == old(self).vault.balance + amount
                    &&& final(self).vault.event == old(self).vault.event
                    &&& final(self).vault.bump == old(self).vault.bump
                    &&& final(self).market == old(self).market
                    &&& final(self).bet_key == old(self).bet_key
                    // the stake moves from the pool to the vault: their sum is kept
                    &&& final(self).vault.balance + final(self).liquidity_pool.total_liquidity
                        == old(self).vault.balance + old(self).liquidity_pool.total_liquidity
                    // the event's total stake grows by the amount
                    &&& stake_sum(final(self).event.total_bets@) == stake_sum(old(self).event.total_bets@) + amount
                    &&& stakes_consistent(old(self).event) ==> stakes_consistent(final(self).event)
                },
            },
    {
        match self.check_bet(outcome, amount) {
            Ok(_) => {},
            Err(e) => return Err(e),
        }
        let o = outcome as usize;
        let staked = self.event.total_bets[o];
        if self.user.total_bets == u64::MAX {
            return Err(ErrorCode::PayoutOverflow);
        }
        if self.vault.balance > u64::MAX - amount {
            return Err(ErrorCode::PayoutOverflow);
        }
        proof {
            lemma_stake_sum_update(self.event.total_bets@, o as int, (staked + amount) as u64);
        }
        let bettor = self.user.clone();
        let market = self.market.clone();
        self.bet.bettor = bettor;
        self.bet.market = market;
        self.bet.outcome = outcome;
        self.bet.amount = amount;
        self.bet.odds = new_odds;
        self.bet.timestamp = timestamp;
        self.bet.settled = false;
        self.bet.user_payout = 0;
        self.event.total_bets.set(o, staked + amount);
        self.event.odds.set(o, new_odds);
        self.user.total_bets = self.user.total_bets + 1;
        let bet_key = self.bet_key;
        self.user.active_bets.push(bet_key);
        self.liquidity_pool.total_liquidity = self.liquidity_pool.total_liquidity - amount;
        self.vault.balance = self.vault.balance + amount;
        Ok(())
    }
}

/// No bet is taken on an event that is no longer active, such as one that has
/// been resolved: the bet is refused as `EventInactive` and changes nothing.
pub proof fn lemma_no_bets_on_inactive_event(s: PlaceBet, outcome: u8, amount: u64)
    requires
        !s.event.is_active,
    ensures
        place_bet_error(s, outcome, amount) == Some(ErrorCode::EventInactive),
{
}

/// A bet is taken whenever the event is active, the outcome is one of its own
/// (of fewer than 256), the amount fits in a `u32`, the pool holds it, the
/// stakes with the amount added fit in a `u64`, the user has placed fewer than
/// `u64::MAX` bets and the vault can take the amount.
pub proof fn lemma_place_bet_accepted(s: PlaceBet, outcome: u8, amount: u64)
    requires
        s.event.is_active,
        s.event.outcomes.len() < 256,
        (outcome as int) < s.event.outcomes.len(),
        (outcome as int) < s.event.total_bets@.len(),
        amount <= u32::MAX,
        s.liquidity_pool.total_liquidity >= amount,
        stake_sum(s.event.total_bets@) + amount <= u64::MAX,
        s.user.total_bets < u64::MAX,
        s.vault.balance + amount <= u64::MAX,
    ensures
        place_bet_error(s, outcome, amount) is None,
{
    lemma_stake_sum_nonneg(s.event.total_bets@);
    crate::state::event::lemma_stake_le_sum(s.event.total_bets@, outcome as int);
    assert(s.event.outcomes.len() as u8 == s.event.outcomes.len());
}

/// The odds stakes count every stake of the event: raising or lowering any
/// single outcome's stake, the last one included, changes the total by the same
/// amount, and changes the outcome's own stake only when it is that outcome.
pub proof fn lemma_odds_stakes_count_each_stake(
    s1: Seq<u64>,
    s2: Seq<u64>,
    i: int,
    v: u64,
    outcome: u8,
    bet_amount: u64,
)
    requires
        0 <= i < s2.len(),
        (outcome as int) < s2.len(),
        s1 == s2.update(i, v),
        odds_stakes_result(s1, outcome, bet_amount) is Ok,
        odds_stakes_result(s2, outcome, bet_amount) is Ok,
    ensures
        odds_stakes_result(s1, outcome, bet_amount)->Ok_0.0
            == odds_stakes_result(s2, outcome, bet_amount)->Ok_0.0 - s2[i] + v,
        odds_stakes_result(s1, outcome, bet_amount)->Ok_0.1 == (if i == outcome as int {
            v + bet_amount
        } else {
            odds_stakes_result(s2, outcome, bet_amount)->Ok_0.1 as int
        }),
{
    lemma_stake_sum_update(s2, i, v);
    lemma_stake_sum_nonneg(s1);
    lemma_stake_sum_nonneg(s2);
}

/// With no stakes yet, a bet's odds stakes are its own amount, both for the
/// total and for the outcome.
pub proof fn lemma_odds_stakes_of_first_bet(s: Seq<u64>, outcome: u8, bet_amount: u64)
    requires
        (outcome as int) < s.len(),
        forall|i: int| 0 <= i < s.len() ==> s[i] == 0,
    ensures
        odds_stakes_result(s, outcome, bet_amount) == Ok::<(u64, u64), ErrorCode>((bet_amount, bet_amount)),
{
    lemma_stake_sum_zeros(s);
}

/// The checks of a bet read only the event and the pool, and the stakes they
/// give count every stake of the event: for two states whose events and pools
/// agree but for one outcome's stake, whatever the bettor's market, user, vault
/// or bet records hold, the totals differ by exactly that stake's change.
pub proof fn lemma_check_bet_counts_each_stake(
    s1: PlaceBet,
    s2: PlaceBet,
    i: int,
    v: u64,
    outcome: u8,
    amount: u64,
)
    requires
        s1.event.is_active == s2.event.is_active,
        s1.event.outcomes.len() == s2.event.outcomes.len(),
        s1.liquidity_pool.total_liquidity == s2.liquidity_pool.total_liquidity,
        0 <= i < s2.event.total_bets@.len(),
        (outcome as int) < s2.event.total_bets@.len(),
        s1.event.total_bets@ == s2.event.total_bets@.update(i, v),
        bet_check_result(s1, outcome, amount) is Ok,
        bet_check_result(s2, outcome, amount) is Ok,
    ensures
        bet_check_result(s1, outcome, amount)->Ok_0.0
            == bet_check_result(s2, outcome, amount)->Ok_0.0 - s2.event.total_bets@[i] + v,
        bet_check_result(s1, outcome, amount)->Ok_0.1 == (if i == outcome as int {
            v + amount
        } else {
            bet_check_result(s2, outcome, amount)->Ok_0.1 as int
        }),
{
    lemma_odds_stakes_count_each_stake(s1.event.total_bets@, s2.event.total_bets@, i, v, outcome, amount);
}

/// A first bet on an event with no stakes passes its checks with its own amount
/// as both stakes, whenever the event is active, the outcome is one of its own,
/// the amount fits in a `u32` and the pool holds it.
pub proof fn lemma_check_first_bet(s: PlaceBet, outcome: u8, amount: u64)
    requires
        bet_admissible(s, outcome, amount),
        (outcome as int) < s.event.total_bets@.len(),
        forall|i: int| 0 <= i < s.event.total_bets@.len() ==> s.event.total_bets@[i] == 0,
    ensures
        bet_check_result(s, outcome, amount) == Ok::<(u64, u64), ErrorCode>((amount, amount)),
{
    lemma_odds_stakes_of_first_bet(s.event.total_bets@, outcome, amount);
}

} // verus!
