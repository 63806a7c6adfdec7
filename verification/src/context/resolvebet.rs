use vstd::prelude::*;

use crate::errors::ErrorCode;
use crate::key::Pubkey;
use crate::state::bet::Bet;
use crate::state::event::{Event, stake_sum, total_staked, lemma_stake_sum_nonneg, lemma_stake_sum_update, lemma_stake_sum_zeros};
use crate::state::pool::LiquidityPool;
use crate::state::vault::Vault;
use crate::context::placebet::same_pool_but_liquidity;

verus! {

/// The least length of the signature-verification instruction's data: a
/// 64-byte signature followed by a 32-byte public key.
pub const MIN_INSTRUCTION_DATA_LEN: usize = 96;

/// The accounts a resolution touches: the event and its vault, one bet on the
/// event, the pool that backs it, and the transaction's first instruction,
/// which must be one of the Ed25519 signature-verification program.
#[derive(Clone, Debug, PartialEq)]
pub struct ResolveEvent {
    pub event: Event,
    pub event_key: Pubkey,
    pub vault: Vault,
    pub bet: Bet,
    pub liquidity_pool: LiquidityPool,
    /// Program of the transaction's first instruction.
    pub instruction_program_id: Pubkey,
    /// Data of the transaction's first instruction.
    pub instruction_data: Vec<u8>,
}

/// Address of the native program that verifies Ed25519 signatures
/// (`Ed25519SigVerify111111111111111111111111111`).
pub open spec fn ed25519_program_key() -> Pubkey {
    Pubkey {
        bytes: [
            3u8, 125u8, 70u8, 214u8, 124u8, 147u8, 251u8, 190u8, 18u8, 249u8, 66u8, 143u8, 131u8, 141u8,
            64u8, 255u8, 5u8, 112u8, 116u8, 73u8, 39u8, 244u8, 138u8, 100u8, 252u8, 202u8, 112u8, 68u8,
            128u8, 0u8, 0u8, 0u8,
        ],
    }
}

/// Address of the native program that verifies Ed25519 signatures.
pub fn ed25519_program_id() -> (k: Pubkey)
    ensures
        k == ed25519_program_key(),
{
    Pubkey {
        bytes: [
            3u8, 125u8, 70u8, 214u8, 124u8, 147u8, 251u8, 190u8, 18u8, 249u8, 66u8, 143u8, 131u8, 141u8,
            64u8, 255u8, 5u8, 112u8, 116u8, 73u8, 39u8, 244u8, 138u8, 100u8, 252u8, 202u8, 112u8, 68u8,
            128u8, 0u8, 0u8, 0u8,
        ],
    }
}

/// A truncated length is at most the length.
proof fn lemma_truncated_len_le(x: usize)
    ensures
        (x as u8) as int <= x as int,
{
    assert((x as u8) as usize <= x) by (bit_vector);
}

/// The token movements a resolution calls for: the payout from the pool to
/// the bettor, when the bet is on the winning outcome, and the vault's whole
/// balance back to the pool.
#[derive(Clone, Copy, Debug, PartialEq, Eq, Structural)]
pub struct Transfers {
    pub to_bettor: Option<u64>,
    pub vault_to_pool: u64,
}

/// What the event pays out when `winning_outcome` is declared: all its stakes
/// when the outcome it records as winning is that one, and nothing otherwise.
pub open spec fn total_payout_of(e: Event, winning_outcome: u8) -> int {
    if e.winning_outcome == winning_outcome {
        stake_sum(e.total_bets@)
    } else {
        0
    }
}

/// The pool's liquidity after paying the bet, when it wins.
pub open spec fn liquidity_after_payout(s: ResolveEvent, winning_outcome: u8) -> int {
    if s.bet.outcome == winning_outcome {
        s.liquidity_pool.total_liquidity - s.bet.user_payout
    } else {
        s.liquidity_pool.total_liquidity as int
    }
}

/// The error that refuses the payouts, if any.
pub open spec fn payout_error(s: ResolveEvent, winning_outcome: u8, total_payout: u64) -> Option<ErrorCode> {
    let wins = s.bet.outcome == winning_outcome;
    let initial = s.liquidity_pool.total_liquidity;
    if wins && s.bet.settled {
        Some(ErrorCode::BetAlreadyResolved)
    } else if wins && s.bet.user_payout > initial {
        Some(ErrorCode::InsufficientLiquidity)
    } else if liquidity_after_payout(s, winning_outcome) != initial - total_payout {
        Some(ErrorCode::PayoutMismatch)
    } else if liquidity_after_payout(s, winning_outcome) + s.vault.balance > u64::MAX {
        Some(ErrorCode::PayoutOverflow)
    } else {
        None
    }
}

/// Where the payouts get to their consistency check, the pool's liquidity
/// before them covers the total payout.
pub open spec fn payout_defined(s: ResolveEvent, winning_outcome: u8, total_payout: u64) -> bool {
    let wins = s.bet.outcome == winning_outcome;
    !(wins && (s.bet.settled || s.bet.user_payout > s.liquidity_pool.total_liquidity))
        ==> s.liquidity_pool.total_liquidity >= total_payout
}

/// The resolution gets past its checks of the instruction, the event's state
/// and the outcome.
pub open spec fn resolution_admissible(s: ResolveEvent, winning_outcome: u8) -> bool {
    &&& s.instruction_program_id == ed25519_program_key()
    &&& s.instruction_data.len() >= MIN_INSTRUCTION_DATA_LEN
    &&& s.event.is_active
    &&& winning_outcome < (s.event.outcomes.len() as u8)
}

/// Where a resolution gets past its first checks, the payout is defined, and
/// where the vault covers it, the payouts are too.
pub open spec fn resolution_defined(s: ResolveEvent, winning_outcome: u8) -> bool {
    resolution_admissible(s, winning_outcome) ==> {
        &&& (s.event.winning_outcome == winning_outcome ==> stake_sum(s.event.total_bets@) <= u64::MAX)
        &&& (s.vault.balance >= total_payout_of(s.event, winning_outcome)
            ==> payout_defined(s, winning_outcome, total_payout_of(s.event, winning_outcome) as u64))
    }
}

/// The error that refuses the resolution, if any.
pub open spec fn resolve_error(s: ResolveEvent, winning_outcome: u8) -> Option<ErrorCode> {
    if s.instruction_program_id != ed25519_program_key() {
        Some(ErrorCode::UnauthorizedResolution)
    } else if s.instruction_data.len() < MIN_INSTRUCTION_DATA_LEN {
        Some(ErrorCode::InvalidInstructionData)
    } else if !s.event.is_active {
        Some(ErrorCode::EventAlreadyResolved)
    } else if !(winning_outcome < (s.event.outcomes.len() as u8)) {
        Some(ErrorCode::InvalidWinningOutcome)
    } else if s.vault.balance < total_payout_of(s.event, winning_outcome) {
        Some(ErrorCode::InsufficientVaultBalance)
    } else {
        payout_error(s, winning_outcome, total_payout_of(s.event, winning_outcome) as u64)
    }
}

/// What the payouts do, when they are not refused: the winning bet is paid from
/// the pool and marked settled, and the vault's balance goes back to the pool.
pub open spec fn payouts_done(old_s: ResolveEvent, new_s: ResolveEvent, winning_outcome: u8, t: Transfers) -> bool {
    let wins = old_s.bet.outcome == winning_outcome;
    &&& t.to_bettor == (if wins { Some(old_s.bet.user_payout) } else { None::<u64> })
    &&& t.vault_to_pool == old_s.vault.balance
    &&& new_s.liquidity_pool.total_liquidity == liquidity_after_payout(old_s, winning_outcome) + old_s.vault.balance
    &&& same_pool_but_liquidity(new_s.liquidity_pool, old_s.liquidity_pool)
    &&& new_s.vault.balance == 0
    &&& new_s.vault.event == old_s.vault.event
    &&& new_s.vault.bump == old_s.vault.bump
    &&& new_s.bet.settled == (old_s.bet.settled || wins)
    &&& new_s.bet.bettor == old_s.bet.bettor
    &&& new_s.bet.market == old_s.bet.market
    &&& new_s.bet.user_usdt_account == old_s.bet.user_usdt_account
    &&& new_s.bet.user_main_account == old_s.bet.user_main_account
    &&& new_s.bet.amount == old_s.bet.amount
    &&& new_s.bet.user_risk == old_s.bet.user_risk
    &&& new_s.bet.user_payout == old_s.bet.user_payout
    &&& new_s.bet.points == old_s.bet.points
    &&& new_s.bet.user_market_side == old_s.bet.user_market_side
    &&& new_s.bet.outcome == old_s.bet.outcome
    &&& new_s.bet.bump == old_s.bet.bump
    &&& new_s.bet.timestamp == old_s.bet.timestamp
    &&& new_s.bet.odds == old_s.bet.odds
    &&& new_s.bet.cancelled == old_s.bet.cancelled
    &&& new_s.event_key == old_s.event_key
    &&& new_s.instruction_program_id == old_s.instruction_program_id
    &&& new_s.instruction_data@ == old_s.instruction_data@
    // what leaves the pool and vault is exactly what the bettor is paid
    &&& new_s.liquidity_pool.total_liquidity + new_s.vault.balance + (if wins { old_s.bet.user_payout as int } else { 0 })
        == old_s.liquidity_pool.total_liquidity + old_s.vault.balance
}

impl ResolveEvent {
    /// What the event pays out when `winning_outcome` is declared: the sum of
    /// its stakes when its recorded winning outcome is that one, else nothing.
    pub fn calculate_total_payout(event: &Event, winning_outcome: u8) -> (r: Result<u64, ErrorCode>)
        requires
            event.winning_outcome == winning_outcome ==> stake_sum(event.total_bets@) <= u64::MAX,
        ensures
            r == Ok::<u64, ErrorCode>(total_payout_of(*event, winning_outcome) as u64),
    {
        let mut total_payout: u64 = 0;
        if event.winning_outcome == winning_outcome {
            let staked = total_staked(&event.total_bets);
            total_payout = match total_payout.checked_add(staked) {
                Some(v) => v,
                None => return Err(ErrorCode::PayoutOverflow),
            };
        }
        Ok(total_payout)
    }

    /// Pays the bet when it is on `winning_outcome`, then moves the vault's whole
    /// balance back to the pool, and gives the transfers this calls for.
    ///
    /// Refused, in this order, when the winning bet is already settled, when the
    /// pool cannot cover its payout, when what leaves the pool differs from
    /// `total_payout`, or when the pool's liquidity would overflow. All checks
    /// precede any write, so a refusal leaves every account unchanged.
    pub fn process_payouts(&mut self, winning_outcome: u8, total_payout: u64) -> (r: Result<Transfers, ErrorCode>)
        requires
            payout_defined(*old(self), winning_outcome, total_payout),
        ensures
            match payout_error(*old(self), winning_outcome, total_payout) {
                Some(e) => r == Err::<Transfers, ErrorCode>(e) && *final(self) == *old(self),
                None => {
                    &&& r is Ok
                    &&& payouts_done(*old(self), *final(self), winning_outcome, r->Ok_0)
                    &&& final(self).event == old(self).event
                    // the bettor is paid exactly the total payout, which is all that leaves the pool
                    &&& (if old(self).bet.outcome == winning_outcome { old(self).bet.user_payout as int } else { 0 })
                        == total_payout
                    &&& final(self).liquidity_pool.total_liquidity
                        == old(self).liquidity_pool.total_liquidity - total_payout + old(self).vault.balance
                },
            },
    {
        let initial_liquidity = self.liquidity_pool.total_liquidity;
        let wins = self.bet.outcome == winning_outcome;
        let mut liquidity = initial_liquidity;
        let mut to_bettor: Option<u64> = None;
        if wins {
            let payout_amount = self.bet.user_payout;
            if self.bet.settled {
                return Err(ErrorCode::BetAlreadyResolved);
            }
            liquidity = match liquidity.checked_sub(payout_amount) {
                Some(v) => v,
                None => return Err(ErrorCode::InsufficientLiquidity),
            };
            to_bettor = Some(payout_amount);
        }
        if liquidity != initial_liquidity - total_payout {
            return Err(ErrorCode::PayoutMismatch);
        }
        let remaining_balance = self.vault.balance;
        let new_liquidity = match liquidity.checked_add(remaining_balance) {
            Some(v) => v,
            None => return Err(ErrorCode::PayoutOverflow),
        };
        if wins {
            self.bet.settled = true;
        }
        self.vault.balance = 0;
        self.liquidity_pool.total_liquidity = new_liquidity;
        Ok(Transfers { to_bettor, vault_to_pool: remaining_balance })
    }

    /// Resolves the event with `winning_outcome` and settles the bet.
    ///
    /// Refused, in this order: when the transaction's first instruction is not
    /// one of the signature-verification program, or its data is shorter than a
    /// signature and a public key; when the event is already resolved; when the
    /// outcome is not one of the event's; when the vault cannot cover the total
    /// payout; or when `process_payouts` refuses. All checks precede any write,
    /// so a refusal leaves every account unchanged.
    ///
    /// Otherwise the event becomes inactive with `winning_outcome` as its
    /// winning outcome and that outcome's name as its winner, and the payouts are made as `process_payouts` says.
    pub fn resolve_event(&mut self, winning_outcome: u8) -> (r: Result<Transfers, ErrorCode>)
        requires
            resolution_defined(*old(self), winning_outcome),
        ensures
            match resolve_error(*old(self), winning_outcome) {
                Some(e) => r == Err::<Transfers, ErrorCode>(e) && *final(self) == *old(self),
                None => {
                    &&& r is Ok
                    &&& payouts_done(*old(self), *final(self), winning_outcome, r->Ok_0)
                    // the bettor is paid exactly the event's total payout, which is all that leaves the pool
                    &&& (if old(self).bet.outcome == winning_outcome { old(self).bet.user_payout as int } else { 0 })
                        == total_payout_of(old(self).event, winning_outcome)
                    &&& final(self).liquidity_pool.total_liquidity
                        == old(self).liquidity_pool.total_liquidity - total_payout_of(old(self).event, winning_outcome)
                            + old(self).vault.balance
                    &&& !final(self).event.is_active
                    &&& final(self).event.winning_outcome == winning_outcome
                    &&& final(self).event.creator == old(self).event.creator
                    &&& final(self).event.id == old(self).event.id
                    &&& final(self).event.outcomes@ == old(self).event.outcomes@
                    &&& final(self).event.odds@ == old(self).event.odds@
                    &&& final(self).event.total_bets@ == old(self).event.total_bets@
                    &&& final(self).event.winner == Some(old(self).event.outcomes@[winning_outcome as int])
                    &&& final(self).event.bump == old(self).event.bump
                },
            },
    {
        let signature_program = ed25519_program_id();
        if !self.instruction_program_id.same_as(&signature_program) {
            return Err(ErrorCode::UnauthorizedResolution);
        }
        if self.instruction_data.len() < MIN_INSTRUCTION_DATA_LEN {
            return Err(ErrorCode::InvalidInstructionData);
        }
        if !self.event.is_active {
            return Err(ErrorCode::EventAlreadyResolved);
        }
        if !(winning_outcome < self.event.outcomes.len() as u8) {
            return Err(ErrorCode::InvalidWinningOutcome);
        }
        proof {
            lemma_stake_sum_nonneg(self.event.total_bets@);
        }
        let total_payout = match Self::calculate_total_payout(&self.event, winning_outcome) {
            Ok(v) => v,
            Err(e) => return Err(e),
        };
        if !(self.vault.balance >= total_payout) {
            return Err(ErrorCode::InsufficientVaultBalance);
        }
        let transfers = match self.process_payouts(winning_outcome, total_payout) {
            Ok(t) => t,
            Err(e) => return Err(e),
        };
        proof {
            lemma_truncated_len_le(self.event.outcomes.len());
        }
        let winner = self.event.outcomes[winning_outcome as usize].clone();
        self.event.is_active = false;
        self.event.winning_outcome = winning_outcome;
        self.event.winner = Some(winner);
        Ok(transfers)
    }
}

/// An event is resolved at most once: once inactive, every later resolution
/// with a valid signature-verification instruction is refused as already resolved.
pub proof fn lemma_resolved_event_stays_resolved(s: ResolveEvent, winning_outcome: u8)
    requires
        !s.event.is_active,
        s.instruction_program_id == ed25519_program_key(),
        s.instruction_data.len() >= MIN_INSTRUCTION_DATA_LEN,
    ensures
        resolve_error(s, winning_outcome) == Some(ErrorCode::EventAlreadyResolved),
{
}

/// A resolution goes through whenever the first instruction is one of the
/// signature-verification program with a signature and key in its data, the
/// event is active, the outcome is one of its own (of fewer than 256), the vault
/// and pool both cover the total payout, the bettor is owed exactly that payout
/// on an unsettled winning bet (or it is nothing and the bet loses), and the
/// pool can take the vault's balance back.
pub proof fn lemma_resolve_accepted(s: ResolveEvent, winning_outcome: u8)
    requires
        s.instruction_program_id == ed25519_program_key(),
        s.instruction_data.len() >= MIN_INSTRUCTION_DATA_LEN,
        s.event.is_active,
        s.event.outcomes.len() < 256,
        (winning_outcome as int) < s.event.outcomes.len(),
        s.vault.balance >= total_payout_of(s.event, winning_outcome),
        s.liquidity_pool.total_liquidity >= total_payout_of(s.event, winning_outcome),
        s.bet.outcome == winning_outcome ==> !s.bet.settled,
        (if s.bet.outcome == winning_outcome { s.bet.user_payout as int } else { 0 })
            == total_payout_of(s.event, winning_outcome),
        s.liquidity_pool.total_liquidity - total_payout_of(s.event, winning_outcome) + s.vault.balance <= u64::MAX,
    ensures
        resolve_error(s, winning_outcome) is None,
{
    lemma_stake_sum_nonneg(s.event.total_bets@);
    assert(s.event.outcomes.len() as u8 == s.event.outcomes.len());
}

/// The total payout counts every stake of the event: where the recorded winning
/// outcome is the declared one, raising or lowering any single outcome's stake,
/// the last one included, changes the payout by the same amount.
pub proof fn lemma_total_payout_counts_each_stake(e1: Event, e2: Event, winning_outcome: u8, i: int, v: u64)
    requires
        e1.winning_outcome == winning_outcome,
        e2.winning_outcome == winning_outcome,
        0 <= i < e2.total_bets@.len(),
        e1.total_bets@ == e2.total_bets@.update(i, v),
    ensures
        total_payout_of(e1, winning_outcome) == total_payout_of(e2, winning_outcome) - e2.total_bets@[i] + v,
{
    lemma_stake_sum_update(e2.total_bets@, i, v);
}

/// With no stakes the total payout is zero, and nothing is paid out when the
/// declared outcome is not the one the event records as winning.
pub proof fn lemma_total_payout_zero(e: Event, winning_outcome: u8)
    requires
        (forall|i: int| 0 <= i < e.total_bets@.len() ==> e.total_bets@[i] == 0)
            || e.winning_outcome != winning_outcome,
    ensures
        total_payout_of(e, winning_outcome) == 0,
{
    if e.winning_outcome == winning_outcome {
        lemma_stake_sum_zeros(e.total_bets@);
    }
}

/// Payouts that go through pay the bettor exactly the total payout: what the
/// winning bet is paid, or nothing for a losing bet, equals `total_payout`.
pub proof fn lemma_payouts_pay_exactly_total(s: ResolveEvent, winning_outcome: u8, total_payout: u64)
    requires
        payout_defined(s, winning_outcome, total_payout),
        payout_error(s, winning_outcome, total_payout) is None,
    ensures
        (if s.bet.outcome == winning_outcome { s.bet.user_payout as int } else { 0 }) == total_payout,
{
}

/// Payouts that would pay the bettor more or less than the total payout are
/// refused as a mismatch, once the bet is unsettled and covered by the pool.
pub proof fn lemma_payout_difference_refused(s: ResolveEvent, winning_outcome: u8, total_payout: u64)
    requires
        s.bet.outcome == winning_outcome ==> !s.bet.settled && s.bet.user_payout <= s.liquidity_pool.total_liquidity,
        s.liquidity_pool.total_liquidity >= total_payout,
        (if s.bet.outcome == winning_outcome { s.bet.user_payout as int } else { 0 }) != total_payout,
    ensures
        payout_error(s, winning_outcome, total_payout) == Some(ErrorCode::PayoutMismatch),
{
}

} // verus!
