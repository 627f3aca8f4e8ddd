//! The executable ledger: balances by account name, written directly or
//! moved by a transfer that charges a fee.
use crate::ledger::{
    balance_of, credit_fits, ledger_after_transfer, transfer_result, Account, Ledger,
    TRANSACTION_FEE,
};
use vstd::hash_map::StringHashMap;
use vstd::prelude::*;

verus! {

/// Why a transfer was refused.
#[derive(Debug, PartialEq, Eq, Structural)]
pub enum PalletError {
    /// The sender holds less than the amount and the fee together.
    InsufficientFunds,
}

/// A ledger of account balances. An account that was never written holds
/// zero.
pub struct Pallet {
    balances: StringHashMap<u128>,
}

impl View for Pallet {
    type V = Ledger;

    /// The stored entries.
    closed spec fn view(&self) -> Ledger {
        self.balances@
    }
}

impl Pallet {
    /// An empty ledger: every account holds zero.
    pub fn new() -> (pallet: Self)
        ensures
            pallet@ == Map::<Account, u128>::empty(),
            forall|who: Account| #[trigger] balance_of(pallet@, who) == 0,
    {
        Self { balances: StringHashMap::new() }
    }

    /// Writes `amount` as the balance of `who`, whatever it held before. No
    /// other account changes.
    pub fn set_balance(&mut self, who: &String, amount: u128)
        ensures
            final(self)@ == old(self)@.insert(who@, amount),
    {
        self.balances.insert(who.clone(), amount);
    }

    /// The balance of `who`: what was last written for it, or zero.
    pub fn balance(&self, who: &String) -> (held: u128)
        ensures
            held == balance_of(self@, who@),
    {
        match self.balances.get(who.as_str()) {
            Some(stored) => *stored,
            None => 0,
        }
    }

    /// Moves `amount` from `sender` to `recipient` and takes the fee from
    /// `sender` as well. Where `sender` holds less than both together, or
    /// both together exceed what a balance can hold, the transfer is refused
    /// and the ledger stays as it was. The sender is debited before the
    /// recipient is credited, so an account that sends to itself pays the
    /// fee and keeps the rest.
    ///
    /// The caller sees to it that the recipient's new balance fits the
    /// balance type: no balance ever wraps around.
    pub fn transfer(&mut self, sender: &String, recipient: &String, amount: u128) -> (res: Result<
        (),
        PalletError,
    >)
        requires
            credit_fits(old(self)@, sender@, recipient@, amount),
        ensures
            res == transfer_result(old(self)@, sender@, amount),
            final(self)@ == ledger_after_transfer(old(self)@, sender@, recipient@, amount),
    {
        let sender_balance = self.balance(sender);
        let total_deduction = match amount.checked_add(TRANSACTION_FEE) {
            Some(total) => total,
            None => {
                return Err(PalletError::InsufficientFunds);
            },
        };
        if sender_balance < total_deduction {
            return Err(PalletError::InsufficientFunds);
        }
        let new_sender_balance = sender_balance - total_deduction;
        self.set_balance(sender, new_sender_balance);

        let recipient_balance = self.balance(recipient);
        let new_recipient_balance = recipient_balance + amount;
        self.set_balance(recipient, new_recipient_balance);
        Ok(())
    }
}

} // verus!
