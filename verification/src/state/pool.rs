use vstd::prelude::*;

use crate::key::Pubkey;

verus! {

/// The most events a pool may list.
pub const MAX_EVENTS: usize = 10;

/// The liquidity that backs the bets on a creator's events.
#[derive(Clone, Debug, PartialEq, Eq)]
pub struct LiquidityPool {
    pub total_liquidity: u64,
    pub locked_liquidity: u64,
    pub live_liquidity: u64,
    pub pending_bets: u64,
    pub owner: Pubkey,
    pub fee_percentage: u8,
    pub is_active: bool,
    pub house_pool_usdt: Pubkey,
    pub betting_pool_usdt: Pubkey,
    pub insurance_fund_usdt: Pubkey,
    pub wager_foundation_proceeds_usdt: Pubkey,
    /// The events the pool backs, at most ten.
    pub events: Vec<Pubkey>,
    pub bump: u8,
}

/// Errors of the pool's event list.
#[derive(Clone, Copy, Debug, PartialEq, Eq, Structural)]
pub enum ErrorCode {
    MaxEventsReached,
    EventNotFound,
}

/// Every field of the two pools but the event list agrees.
pub open spec fn same_but_events(a: LiquidityPool, b: LiquidityPool) -> bool {
    &&& a.total_liquidity == b.total_liquidity
    &&& a.locked_liquidity == b.locked_liquidity
    &&& a.live_liquidity == b.live_liquidity
    &&& a.pending_bets == b.pending_bets
    &&& a.owner == b.owner
    &&& a.fee_percentage == b.fee_percentage
    &&& a.is_active == b.is_active
    &&& a.house_pool_usdt == b.house_pool_usdt
    &&& a.betting_pool_usdt == b.betting_pool_usdt
    &&& a.insurance_fund_usdt == b.insurance_fund_usdt
    &&& a.wager_foundation_proceeds_usdt == b.wager_foundation_proceeds_usdt
    &&& a.bump == b.bump
}

/// The event list after adding `event`, or the error that refuses it.
pub open spec fn add_event_result(events: Seq<Pubkey>, event: Pubkey) -> Result<Seq<Pubkey>, ErrorCode> {
    if events.len() >= MAX_EVENTS {
        Err(ErrorCode::MaxEventsReached)
    } else {
        Ok(events.push(event))
    }
}

/// The event list after removing the first occurrence of `event`, or the
/// error that refuses it.
pub open spec fn remove_event_result(events: Seq<Pubkey>, event: Pubkey) -> Result<Seq<Pubkey>, ErrorCode> {
    if events.contains(event) {
        Ok(events.remove_value(event))
    } else {
        Err(ErrorCode::EventNotFound)
    }
}

impl LiquidityPool {
    /// Appends `event` to the pool's events; refused once ten are listed.
    pub fn add_event(&mut self, event: Pubkey) -> (r: Result<(), ErrorCode>)
        ensures
            same_but_events(*final(self), *old(self)),
            match add_event_result(old(self).events@, event) {
                Ok(s) => r is Ok && final(self).events@ == s,
                Err(e) => r == Err::<(), ErrorCode>(e) && final(self).events@ == old(self).events@,
            },
    {
        if self.events.len() >= MAX_EVENTS {
            return Err(ErrorCode::MaxEventsReached);
        }
        self.events.push(event);
        Ok(())
    }

    /// Removes the first occurrence of `event`; refused when it is not listed.
    pub fn remove_event(&mut self, event: &Pubkey) -> (r: Result<(), ErrorCode>)
        ensures
            same_but_events(*final(self), *old(self)),
            match remove_event_result(old(self).events@, *event) {
                Ok(s) => r is Ok && final(self).events@ == s,
                Err(e) => r == Err::<(), ErrorCode>(e) && final(self).events@ == old(self).events@,
            },
            r is Ok ==> exists|i: int|
                0 <= i < old(self).events@.len() && old(self).events@[i] == *event
                    && (forall|j: int| 0 <= j < i ==> old(self).events@[j] != *event)
                    && final(self).events@ == old(self).events@.remove(i),
    {
        let mut i: usize = 0;
        while i < self.events.len()
            invariant
                0 <= i <= self.events.len(),
                *self == *old(self),
                forall|j: int| 0 <= j < i ==> self.events@[j] != *event,
            decreases self.events.len() - i,
        {
            if self.events[i].same_as(event) {
                proof {
                    let s = self.events@;
                    s.index_of_first_ensures(*event);
                    let k = s.index_of_first(*event)->Some_0;
                    assert(k == i);
                }
                self.events.remove(i);
                return Ok(());
            }
            i = i + 1;
        }
        Err(ErrorCode::EventNotFound)
    }

    /// Whether `event` is listed.
    pub fn has_event(&self, event: &Pubkey) -> (r: bool)
        ensures
            r == self.events@.contains(*event),
    {
        let mut i: usize = 0;
        while i < self.events.len()
            invariant
                0 <= i <= self.events.len(),
                forall|j: int| 0 <= j < i ==> self.events@[j] != *event,
            decreases self.events.len() - i,
        {
            if self.events[i].same_as(event) {
                return true;
            }
            i = i + 1;
        }
        false
    }
}

/// Adding goes through exactly when fewer than ten events are listed, and
/// removing exactly when the event is listed; each changes the count by one.
pub proof fn lemma_pool_accepts(events: Seq<Pubkey>, event: Pubkey)
    ensures
        (add_event_result(events, event) is Ok) <==> events.len() < MAX_EVENTS,
        add_event_result(events, event) is Ok ==> add_event_result(events, event)->Ok_0.len() == events.len() + 1,
        (remove_event_result(events, event) is Ok) <==> events.contains(event),
        remove_event_result(events, event) is Ok ==> remove_event_result(events, event)->Ok_0.len() == events.len() - 1,
{
    if events.contains(event) {
        events.index_of_first_ensures(event);
    }
}

/// An event that was just added is listed.
pub proof fn lemma_added_event_is_listed(events: Seq<Pubkey>, event: Pubkey)
    requires
        add_event_result(events, event) is Ok,
    ensures
        add_event_result(events, event)->Ok_0.contains(event),
{
    let s = events.push(event);
    assert(s[events.len() as int] == event);
}

/// Removing an event that was just added to a list that did not hold it gives
/// back the list one started from.
pub proof fn lemma_add_then_remove(events: Seq<Pubkey>, event: Pubkey)
    requires
        add_event_result(events, event) is Ok,
        !events.contains(event),
    ensures
        remove_event_result(add_event_result(events, event)->Ok_0, event) == Ok::<Seq<Pubkey>, ErrorCode>(events),
{
    let s = events.push(event);
    assert(s[events.len() as int] == event);
    s.index_of_first_ensures(event);
    let k = s.index_of_first(event)->Some_0;
    assert(k == events.len());
    assert(s.remove(k) =~= events);
}

/// Removing an event that was just added leaves the same events, counted with
/// their repetitions, as before the addition.
pub proof fn lemma_add_then_remove_same_events(events: Seq<Pubkey>, event: Pubkey)
    requires
        add_event_result(events, event) is Ok,
    ensures
        remove_event_result(add_event_result(events, event)->Ok_0, event) is Ok,
        remove_event_result(add_event_result(events, event)->Ok_0, event)->Ok_0.to_multiset()
            =~= events.to_multiset(),
{
    broadcast use vstd::seq_lib::group_to_multiset_ensures;
    let s = events.push(event);
    assert(s[events.len() as int] == event);
    s.index_of_first_ensures(event);
    let k = s.index_of_first(event)->Some_0;
    let r = s.remove(k);
    assert(s =~= r.insert(k, event));
    lemma_multiset_insert(r, k, event);
}

/// The multiset of a sequence after inserting one element.
proof fn lemma_multiset_insert(s: Seq<Pubkey>, k: int, a: Pubkey)
    requires
        0 <= k <= s.len(),
    ensures
        s.insert(k, a).to_multiset() =~= s.to_multiset().insert(a),
    decreases s.len(),
{
    broadcast use vstd::seq_lib::group_to_multiset_ensures;
    if k == s.len() {
        assert(s.insert(k, a) =~= s.push(a));
    } else {
        lemma_multiset_insert(s.drop_last(), k, a);
        assert(s.insert(k, a) =~= s.drop_last().insert(k, a).push(s.last()));
        assert(s =~= s.drop_last().push(s.last()));
    }
}

/// The pool never lists more than ten events: adding and removing keep the bound.
pub proof fn lemma_event_capacity_kept(events: Seq<Pubkey>, event: Pubkey)
    requires
        events.len() <= MAX_EVENTS,
    ensures
        add_event_result(events, event) is Ok ==> add_event_result(events, event)->Ok_0.len() <= MAX_EVENTS,
        remove_event_result(events, event) is Ok ==> remove_event_result(events, event)->Ok_0.len()
            == events.len() - 1,
{
    if events.contains(event) {
        events.index_of_first_ensures(event);
    }
}

} // verus!
