use vstd::prelude::*;

use crate::key::Pubkey;

verus! {

/// The house's funds and totals.
#[derive(Clone, Debug, PartialEq, Eq)]
pub struct HousePool {
    pub total_funds: u64,
    pub owner: Pubkey,
    pub fee_percentage: u8,
    pub is_active: bool,
    pub total_bets_handled: u64,
    pub total_payouts: u64,
}

impl HousePool {
    /// Bytes an account holding a house pool takes: an eight-byte tag and the fields.
    pub const INIT_SPACE: usize = 8 + 8 + 32 + 1 + 1 + 8 + 8;
}

} // verus!
