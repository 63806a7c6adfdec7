use vstd::prelude::*;

use crate::key::Pubkey;

verus! {

/// The most outcomes an event may have.
pub const MAX_OUTCOMES: usize = 6;

/// An event on which bets are placed: its outcomes, the odds of each, and the
/// amount staked on each.
#[derive(Clone, Debug, PartialEq)]
pub struct Event {
    pub creator: Pubkey,
    /// Unique identifier of the event.
    pub id: u64,
    pub outcomes: Vec<String>,
    /// Index of the winning outcome, set when the event is resolved.
    pub winning_outcome: u8,
    pub odds: Vec<u64>,
    pub is_active: bool,
    /// Amount staked on each outcome.
    pub total_bets: Vec<u64>,
    pub winner: Option<String>,
    pub bump: u8,
}

/// Errors of setting up an event.
#[derive(Clone, Copy, Debug, PartialEq, Eq, Structural)]
pub enum ErrorCode {
    OutcomesOddsMismatch,
    InvalidOutcomesCount,
}

/// The kind of sports event a market is about.
#[derive(Debug, PartialEq)]
pub enum EventType {
    Match,
    Tournament,
    SeasonOutcome,
    PlayerTransfer,
    CoachChange,
    AwardWinner,
    /// Any other kind, named by its string.
    Custom(String),
}

/// The sum of a sequence of stakes.
pub open spec fn stake_sum(s: Seq<u64>) -> int
    decreases s.len(),
{
    if s.len() == 0 {
        0
    } else {
        stake_sum(s.drop_last()) + s.last()
    }
}

/// A sum of stakes is never negative.
pub proof fn lemma_stake_sum_nonneg(s: Seq<u64>)
    ensures
        stake_sum(s) >= 0,
    decreases s.len(),
{
    if s.len() > 0 {
        lemma_stake_sum_nonneg(s.drop_last());
    }
}

/// The sum of a prefix is at most the sum of a longer prefix.
pub proof fn lemma_stake_sum_prefix(s: Seq<u64>, i: int, j: int)
    requires
        0 <= i <= j <= s.len(),
    ensures
        stake_sum(s.take(i)) <= stake_sum(s.take(j)),
    decreases j - i,
{
    if i < j {
        lemma_stake_sum_prefix(s, i, j - 1);
        assert(s.take(j).drop_last() =~= s.take(j - 1));
    }
}

/// Replacing one stake changes the sum by the difference.
pub proof fn lemma_stake_sum_update(s: Seq<u64>, i: int, v: u64)
    requires
        0 <= i < s.len(),
    ensures
        stake_sum(s.update(i, v)) == stake_sum(s) - s[i] + v,
    decreases s.len(),
{
    if i == s.len() - 1 {
        assert(s.update(i, v).drop_last() =~= s.drop_last());
    } else {
        lemma_stake_sum_update(s.drop_last(), i, v);
        assert(s.update(i, v).drop_last() =~= s.drop_last().update(i, v));
    }
}

/// Each stake is at most the sum of all of them.
pub proof fn lemma_stake_le_sum(s: Seq<u64>, i: int)
    requires
        0 <= i < s.len(),
    ensures
        s[i] <= stake_sum(s),
    decreases s.len(),
{
    lemma_stake_sum_nonneg(s.drop_last());
    if i < s.len() - 1 {
        lemma_stake_le_sum(s.drop_last(), i);
    }
}

/// A sequence of zeros sums to zero.
pub proof fn lemma_stake_sum_zeros(s: Seq<u64>)
    requires
        forall|i: int| 0 <= i < s.len() ==> s[i] == 0,
    ensures
        stake_sum(s) == 0,
    decreases s.len(),
{
    if s.len() > 0 {
        lemma_stake_sum_zeros(s.drop_last());
    }
}

/// The sum of the stakes held in `v`; the sum must fit in a `u64`.
pub fn total_staked(v: &Vec<u64>) -> (total: u64)
    requires
        stake_sum(v@) <= u64::MAX,
    ensures
        total == stake_sum(v@),
{
    let mut total: u64 = 0;
    let mut i: usize = 0;
    while i < v.len()
        invariant
            0 <= i <= v.len(),
            total == stake_sum(v@.take(i as int)),
            stake_sum(v@) <= u64::MAX,
        decreases v.len() - i,
    {
        proof {
            assert(v@.take(i + 1).drop_last() =~= v@.take(i as int));
            lemma_stake_sum_prefix(v@, i + 1, v.len() as int);
            assert(v@.take(v.len() as int) =~= v@);
        }
        total = total + v[i];
        i = i + 1;
    }
    assert(v@.take(v.len() as int) =~= v@);
    total
}

/// The event's outcomes, odds and stakes line up, and the stakes sum to
/// an amount that fits in a `u64`.
pub open spec fn stakes_consistent(e: Event) -> bool {
    &&& e.odds.len() == e.outcomes.len()
    &&& e.total_bets.len() == e.outcomes.len()
    &&& stake_sum(e.total_bets@) <= u64::MAX
}

/// Why `set_data` refuses the given outcomes and odds, if it does.
pub open spec fn set_data_error(num_outcomes: nat, num_odds: nat) -> Option<ErrorCode> {
    if num_outcomes != num_odds {
        Some(ErrorCode::OutcomesOddsMismatch)
    } else if num_outcomes > MAX_OUTCOMES || num_outcomes == 0 {
        Some(ErrorCode::InvalidOutcomesCount)
    } else {
        None
    }
}

impl Event {
    /// Sets the event up as active, with its outcomes and odds and no stakes yet.
    /// Refused when the outcomes and odds differ in number, or when there are
    /// none or more than six of them; a refusal leaves the event unchanged.
    pub fn set_data(&mut self, event_id: u64, outcomes: Vec<String>, odds: Vec<u64>, creator: Pubkey)
        -> (r: Result<(), ErrorCode>)
        ensures
            match set_data_error(outcomes.len() as nat, odds.len() as nat) {
                Some(e) => r == Err::<(), ErrorCode>(e) && *final(self) == *old(self),
                None => {
                    &&& r is Ok
                    &&& final(self).creator == creator
                    &&& final(self).id == event_id
                    &&& final(self).outcomes@ == outcomes@
                    &&& final(self).odds@ == odds@
                    &&& final(self).is_active
                    &&& final(self).total_bets@ == Seq::new(outcomes.len() as nat, |i: int| 0u64)
                    &&& final(self).winner is None
                    &&& final(self).winning_outcome == old(self).winning_outcome
                    &&& final(self).bump == old(self).bump
                },
            },
    {
        if outcomes.len() != odds.len() {
            return Err(ErrorCode::OutcomesOddsMismatch);
        }
        if outcomes.len() > MAX_OUTCOMES || outcomes.len() == 0 {
            return Err(ErrorCode::InvalidOutcomesCount);
        }
        let n = outcomes.len();
        self.creator = creator;
        self.id = event_id;
        self.outcomes = outcomes;
        self.odds = odds;
        self.is_active = true;
        let zeros: Vec<u64> = vec![0; n];
        assert(zeros@ =~= Seq::new(n as nat, |i: int| 0u64));
        self.total_bets = zeros;
        self.winner = None;
        Ok(())
    }
}

/// An event with as many odds as outcomes, and one to six of them, is accepted.
pub proof fn lemma_event_outcome_count(num_outcomes: nat, num_odds: nat)
    ensures
        (set_data_error(num_outcomes, num_odds) is None) <==> (num_outcomes == num_odds && 1 <= num_outcomes <= 6),
{
}

/// A freshly set up event has consistent stakes, all zero.
pub proof fn lemma_set_data_consistent(e: Event, outcomes: Seq<String>, odds: Seq<u64>)
    requires
        e.outcomes@ == outcomes,
        e.odds@ == odds,
        outcomes.len() == odds.len(),
        e.total_bets@ == Seq::new(outcomes.len(), |i: int| 0u64),
    ensures
        stakes_consistent(e),
        stake_sum(e.total_bets@) == 0,
{
    lemma_stake_sum_zeros(e.total_bets@);
}

/// The display name of each kind of event.
pub open spec fn event_type_name(t: EventType) -> Seq<char> {
    match t {
        EventType::Match => "Match"@,
        EventType::Tournament => "Tournament"@,
        EventType::SeasonOutcome => "Season Outcome"@,
        EventType::PlayerTransfer => "Player Transfer"@,
        EventType::CoachChange => "Coach Change"@,
        EventType::AwardWinner => "Award Winner"@,
        EventType::Custom(s) => s@,
    }
}

impl Clone for EventType {
    fn clone(&self) -> (r: Self)
        ensures
            r == *self,
    {
        match self {
            EventType::Match => EventType::Match,
            EventType::Tournament => EventType::Tournament,
            EventType::SeasonOutcome => EventType::SeasonOutcome,
            EventType::PlayerTransfer => EventType::PlayerTransfer,
            EventType::CoachChange => EventType::CoachChange,
            EventType::AwardWinner => EventType::AwardWinner,
            EventType::Custom(s) => EventType::Custom(s.clone()),
        }
    }
}

impl EventType {
    /// The display name of the kind of event; a custom kind is named by its own string.
    pub fn to_string(&self) -> (s: String)
        ensures
            s@ == event_type_name(*self),
    {
        match self {
            EventType::Match => "Match".to_string(),
            EventType::Tournament => "Tournament".to_string(),
            EventType::SeasonOutcome => "Season Outcome".to_string(),
            EventType::PlayerTransfer => "Player Transfer".to_string(),
            EventType::CoachChange => "Coach Change".to_string(),
            EventType::AwardWinner => "Award Winner".to_string(),
            EventType::Custom(s) => s.clone(),
        }
    }
}

} // verus!
