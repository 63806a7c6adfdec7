use vstd::prelude::*;

use crate::state::event::ErrorCode as EventError;
use crate::state::market::ErrorCode as MarketError;
use crate::state::pool::ErrorCode as PoolError;
use crate::state::vault::ErrorCode as VaultError;

verus! {

/// Errors of placing bets and resolving events.
#[derive(Clone, Copy, Debug, PartialEq, Eq, Structural)]
pub enum ErrorCode {
    EventAlreadyResolved,
    InvalidWinningOutcome,
    InsufficientVaultBalance,
    PayoutOverflow,
    PayoutMismatch,
    CannotPlacebet,
    CannotClaim,
    CannotClose,
    AmountTooBig,
    EventInactive,
    InvalidOutcomeIndex,
    BetNotResolved,
    UnauthorizedResolution,
    InvalidInstructionData,
    InsufficientLiquidity,
    BetAlreadyResolved,
}

impl ErrorCode {
    /// The message that goes with the error.
    pub fn msg(&self) -> (m: &'static str)
        ensures
            m@ == error_message(*self),
    {
        match self {
            ErrorCode::EventAlreadyResolved => "Event is already resolved",
            ErrorCode::InvalidWinningOutcome => "Invalid winning outcome",
            ErrorCode::InsufficientVaultBalance => "Insufficient balance in the vault",
            ErrorCode::PayoutOverflow => "Payout calculation overflow",
            ErrorCode::PayoutMismatch => "Payout mismatch",
            ErrorCode::CannotPlacebet => "Cannot Enter",
            ErrorCode::CannotClaim => "Cannot Enter",
            ErrorCode::CannotClose => "Cannot Close",
            ErrorCode::AmountTooBig => "amount is too big to parse to u32",
            ErrorCode::EventInactive => "The event is currently inactive.",
            ErrorCode::InvalidOutcomeIndex => "Invalid outcome index provided.",
            ErrorCode::BetNotResolved => "Bet has not been resolved yet.",
            ErrorCode::UnauthorizedResolution => "Unauthorized event resolution attempt",
            ErrorCode::InvalidInstructionData => "Invalid instruction data",
            ErrorCode::InsufficientLiquidity => "Insufficient Liquidity",
            ErrorCode::BetAlreadyResolved => "Bet is already resolved",
        }
    }
}

/// An error of one of the accounts that setting up an event touches.
#[derive(Clone, Copy, Debug, PartialEq, Eq, Structural)]
pub enum WagerError {
    Event(EventError),
    Market(MarketError),
    Pool(PoolError),
    Vault(VaultError),
}

/// The message of each error.
pub open spec fn error_message(e: ErrorCode) -> Seq<char> {
    match e {
        ErrorCode::EventAlreadyResolved => "Event is already resolved"@,
        ErrorCode::InvalidWinningOutcome => "Invalid winning outcome"@,
        ErrorCode::InsufficientVaultBalance => "Insufficient balance in the vault"@,
        ErrorCode::PayoutOverflow => "Payout calculation overflow"@,
        ErrorCode::PayoutMismatch => "Payout mismatch"@,
        ErrorCode::CannotPlacebet => "Cannot Enter"@,
        ErrorCode::CannotClaim => "Cannot Enter"@,
        ErrorCode::CannotClose => "Cannot Close"@,
        ErrorCode::AmountTooBig => "amount is too big to parse to u32"@,
        ErrorCode::EventInactive => "The event is currently inactive."@,
        ErrorCode::InvalidOutcomeIndex => "Invalid outcome index provided."@,
        ErrorCode::BetNotResolved => "Bet has not been resolved yet."@,
        ErrorCode::UnauthorizedResolution => "Unauthorized event resolution attempt"@,
        ErrorCode::InvalidInstructionData => "Invalid instruction data"@,
        ErrorCode::InsufficientLiquidity => "Insufficient Liquidity"@,
        ErrorCode::BetAlreadyResolved => "Bet is already resolved"@,
    }
}

} // verus!
