use vstd::prelude::*;

use crate::key::Pubkey;

verus! {

/// A bettor's record.
#[derive(Debug, PartialEq, Eq)]
pub struct User {
    pub wallet: Pubkey,
    pub total_bets: u64,
    pub total_winnings: u64,
    pub total_losses: u64,
    /// The bets the user has placed, at most ten.
    pub active_bets: Vec<Pubkey>,
    pub bump: u8,
}

/// The two records hold the same values.
pub open spec fn same_user(a: User, b: User) -> bool {
    &&& a.wallet == b.wallet
    &&& a.total_bets == b.total_bets
    &&& a.total_winnings == b.total_winnings
    &&& a.total_losses == b.total_losses
    &&& a.active_bets@ == b.active_bets@
    &&& a.bump == b.bump
}

impl Clone for User {
    fn clone(&self) -> (r: Self)
        ensures
            same_user(r, *self),
    {
        let mut active_bets: Vec<Pubkey> = Vec::new();
        let mut i: usize = 0;
        while i < self.active_bets.len()
            invariant
                0 <= i <= self.active_bets.len(),
                active_bets@ == self.active_bets@.take(i as int),
            decreases self.active_bets.len() - i,
        {
            active_bets.push(self.active_bets[i]);
            i = i + 1;
            assert(active_bets@ =~= self.active_bets@.take(i as int));
        }
        assert(active_bets@ =~= self.active_bets@);
        User {
            wallet: self.wallet,
            total_bets: self.total_bets,
            total_winnings: self.total_winnings,
            total_losses: self.total_losses,
            active_bets,
            bump: self.bump,
        }
    }
}

} // verus!
