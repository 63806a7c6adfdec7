use vstd::prelude::*;

use crate::key::Pubkey;

verus! {

/// Holds the stakes placed on one event.
#[derive(Clone, Debug, PartialEq, Eq)]
pub struct Vault {
    pub event: Pubkey,
    pub balance: u64,
    pub bump: u8,
}

/// Errors of the vault's own operations.
#[derive(Clone, Copy, Debug, PartialEq, Eq, Structural)]
pub enum ErrorCode {
    ArithmeticOverflow,
    InsufficientFunds,
}

/// The balance after depositing `amount`, or the error that refuses it.
pub open spec fn deposit_result(balance: u64, amount: u64) -> Result<u64, ErrorCode> {
    if balance + amount <= u64::MAX {
        Ok((balance + amount) as u64)
    } else {
        Err(ErrorCode::ArithmeticOverflow)
    }
}

/// The balance after withdrawing `amount`, or the error that refuses it.
pub open spec fn withdraw_result(balance: u64, amount: u64) -> Result<u64, ErrorCode> {
    if amount > balance {
        Err(ErrorCode::InsufficientFunds)
    } else {
        Ok((balance - amount) as u64)
    }
}

impl Vault {
    /// Binds the vault to `event` and empties it.
    pub fn set_data(&mut self, event: Pubkey) -> (r: Result<(), ErrorCode>)
        ensures
            r is Ok,
            final(self).event == event,
            final(self).balance == 0,
            final(self).bump == old(self).bump,
    {
        self.event = event;
        self.balance = 0;
        Ok(())
    }

    /// Adds `amount` to the balance; refused when the sum does not fit in a `u64`.
    pub fn deposit(&mut self, amount: u64) -> (r: Result<(), ErrorCode>)
        ensures
            final(self).event == old(self).event,
            final(self).bump == old(self).bump,
            match deposit_result(old(self).balance, amount) {
                Ok(b) => r is Ok && final(self).balance == b,
                Err(e) => r == Err::<(), ErrorCode>(e) && final(self).balance == old(self).balance,
            },
    {
        match self.balance.checked_add(amount) {
            Some(b) => {
                self.balance = b;
                Ok(())
            },
            None => Err(ErrorCode::ArithmeticOverflow),
        }
    }

    /// Takes `amount` out of the balance; refused when the balance is smaller.
    pub fn withdraw(&mut self, amount: u64) -> (r: Result<(), ErrorCode>)
        ensures
            final(self).event == old(self).event,
            final(self).bump == old(self).bump,
            match withdraw_result(old(self).balance, amount) {
                Ok(b) => r is Ok && final(self).balance == b,
                Err(e) => r == Err::<(), ErrorCode>(e) && final(self).balance == old(self).balance,
            },
    {
        if amount > self.balance {
            return Err(ErrorCode::InsufficientFunds);
        }
        match self.balance.checked_sub(amount) {
            Some(b) => {
                self.balance = b;
                Ok(())
            },
            None => Err(ErrorCode::ArithmeticOverflow),
        }
    }
}

/// Depositing an amount and then withdrawing it gives back the balance one started from.
pub proof fn lemma_deposit_then_withdraw(balance: u64, amount: u64)
    requires
        deposit_result(balance, amount) is Ok,
    ensures
        withdraw_result(deposit_result(balance, amount)->Ok_0, amount) == Ok::<u64, ErrorCode>(balance),
{
}

/// Withdrawing an amount and then depositing it gives back the balance one started from.
pub proof fn lemma_withdraw_then_deposit(balance: u64, amount: u64)
    requires
        withdraw_result(balance, amount) is Ok,
    ensures
        deposit_result(withdraw_result(balance, amount)->Ok_0, amount) == Ok::<u64, ErrorCode>(balance),
{
}

/// A deposit goes through exactly when the new balance fits in a `u64`, and a
/// withdrawal exactly when the balance covers it; each moves the balance by the amount.
pub proof fn lemma_vault_moves_by_amount(balance: u64, amount: u64)
    ensures
        (deposit_result(balance, amount) is Ok) <==> balance + amount <= u64::MAX,
        deposit_result(balance, amount) is Ok ==> deposit_result(balance, amount)->Ok_0 - balance == amount,
        (withdraw_result(balance, amount) is Ok) <==> amount <= balance,
        withdraw_result(balance, amount) is Ok ==> balance - withdraw_result(balance, amount)->Ok_0 == amount,
{
}

} // verus!
