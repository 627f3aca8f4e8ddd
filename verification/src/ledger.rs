//! The ledger as mathematics: a map from account names to balances, and the
//! rules of a transfer stated on that map.
use crate::balances::PalletError;
use vstd::prelude::*;

verus! {

/// An account name, as the sequence of its characters.
pub type Account = Seq<char>;

/// The stored entries of a ledger. An account without an entry holds nothing.
pub type Ledger = Map<Account, u128>;

/// What every transfer costs its sender on top of the amount moved. The fee
/// is credited to nobody.
pub const TRANSACTION_FEE: u128 = 10;

/// The balance of `who`: the stored entry, or zero where there is none.
pub open spec fn balance_of(ledger: Ledger, who: Account) -> u128 {
    if ledger.contains_key(who) {
        ledger[who]
    } else {
        0
    }
}

/// What a transfer of `amount` takes from its sender: the amount and the fee.
/// This is an unbounded integer, so it exceeds every balance where the sum
/// does not fit the balance type.
pub open spec fn total_deduction(amount: u128) -> int {
    amount + TRANSACTION_FEE
}

/// Whether `sender` holds enough to pay for a transfer of `amount`.
pub open spec fn can_afford(ledger: Ledger, sender: Account, amount: u128) -> bool {
    balance_of(ledger, sender) >= total_deduction(amount)
}

/// What `who` holds once `sender` has paid `amount` and the fee and
/// `recipient` has received `amount`. An account that is both loses the fee.
pub open spec fn balance_after_transfer(
    ledger: Ledger,
    sender: Account,
    recipient: Account,
    amount: u128,
    who: Account,
) -> int {
    balance_of(ledger, who) - (if who == sender {
        total_deduction(amount)
    } else {
        0
    }) + (if who == recipient {
        amount as int
    } else {
        0
    })
}

/// Whether every balance that a transfer would write fits the balance type.
/// Only the credit to a recipient other than the sender can fail to, and
/// only where the sender can pay.
pub open spec fn credit_fits(
    ledger: Ledger,
    sender: Account,
    recipient: Account,
    amount: u128,
) -> bool {
    can_afford(ledger, sender, amount) && sender != recipient ==> balance_of(ledger, recipient)
        + amount <= u128::MAX
}

/// The ledger in which the transfer has taken place: sender and recipient
/// have entries, and every account holds its `balance_after_transfer`.
pub open spec fn transferred(
    ledger: Ledger,
    sender: Account,
    recipient: Account,
    amount: u128,
) -> Ledger {
    Map::new(
        |who: Account| ledger.contains_key(who) || who == sender || who == recipient,
        |who: Account| balance_after_transfer(ledger, sender, recipient, amount, who) as u128,
    )
}

/// What a transfer answers: success exactly where the sender can pay.
pub open spec fn transfer_result(ledger: Ledger, sender: Account, amount: u128) -> Result<
    (),
    PalletError,
> {
    if can_afford(ledger, sender, amount) {
        Ok(())
    } else {
        Err(PalletError::InsufficientFunds)
    }
}

/// The ledger that a transfer leaves: `transferred` where the sender can
/// pay, and the ledger as it was where not.
pub open spec fn ledger_after_transfer(
    ledger: Ledger,
    sender: Account,
    recipient: Account,
    amount: u128,
) -> Ledger {
    if can_afford(ledger, sender, amount) {
        transferred(ledger, sender, recipient, amount)
    } else {
        ledger
    }
}

} // verus!
