//! What follows from the rules of the ledger. Each law is stated on the
//! mathematical ledger that the contracts of [`crate::balances::Pallet`]
//! speak of, so it holds of every call that meets those contracts.
use crate::balances::PalletError;
use crate::ledger::{
    balance_of, can_afford, credit_fits, ledger_after_transfer, transfer_result, Account, Ledger,
    TRANSACTION_FEE,
};
use vstd::prelude::*;

verus! {

/// In a ledger without entries every account holds zero.
pub proof fn lemma_empty_ledger_holds_nothing(who: Account)
    ensures
        balance_of(Map::<Account, u128>::empty(), who) == 0,
{
}

/// A balance that was written is the balance that is read, whatever the
/// account held before, and no other account is touched.
pub proof fn lemma_written_balance_is_read(ledger: Ledger, who: Account, amount: u128)
    ensures
        balance_of(ledger.insert(who, amount), who) == amount,
        forall|other: Account|
            other != who ==> #[trigger] balance_of(ledger.insert(who, amount), other)
                == balance_of(ledger, other),
{
}

/// Writing the same balance a second time changes nothing.
pub proof fn lemma_writing_twice_is_writing_once(ledger: Ledger, who: Account, amount: u128)
    ensures
        ledger.insert(who, amount).insert(who, amount) == ledger.insert(who, amount),
{
}

/// A sender that holds less than the amount and the fee together is refused
/// for want of funds, and the ledger, with the balances of sender and
/// recipient, stays as it was.
pub proof fn lemma_refused_transfer_changes_nothing(
    ledger: Ledger,
    sender: Account,
    recipient: Account,
    amount: u128,
)
    requires
        balance_of(ledger, sender) < amount + TRANSACTION_FEE,
    ensures
        transfer_result(ledger, sender, amount) == Err::<(), PalletError>(
            PalletError::InsufficientFunds,
        ),
        ledger_after_transfer(ledger, sender, recipient, amount) == ledger,
        balance_of(ledger_after_transfer(ledger, sender, recipient, amount), sender) == balance_of(
            ledger,
            sender,
        ),
        balance_of(ledger_after_transfer(ledger, sender, recipient, amount), recipient)
            == balance_of(ledger, recipient),
{
}

/// A sender that holds the amount and the fee is served: between two
/// different accounts the sender then holds that much less, and the
/// recipient holds the amount more.
pub proof fn lemma_transfer_debits_and_credits(
    ledger: Ledger,
    sender: Account,
    recipient: Account,
    amount: u128,
)
    requires
        sender != recipient,
        balance_of(ledger, sender) >= amount + TRANSACTION_FEE,
        credit_fits(ledger, sender, recipient, amount),
    ensures
        transfer_result(ledger, sender, amount) is Ok,
        balance_of(ledger_after_transfer(ledger, sender, recipient, amount), sender) == balance_of(
            ledger,
            sender,
        ) - amount - TRANSACTION_FEE,
        balance_of(ledger_after_transfer(ledger, sender, recipient, amount), recipient)
            == balance_of(ledger, recipient) + amount,
{
}

/// A transfer touches no account but its sender and its recipient.
pub proof fn lemma_transfer_leaves_the_others(
    ledger: Ledger,
    sender: Account,
    recipient: Account,
    amount: u128,
    other: Account,
)
    requires
        other != sender,
        other != recipient,
    ensures
        balance_of(ledger_after_transfer(ledger, sender, recipient, amount), other) == balance_of(
            ledger,
            other,
        ),
{
}

/// A successful transfer between two different accounts takes the fee, and
/// nothing else, out of what the two hold together.
pub proof fn lemma_transfer_burns_the_fee(
    ledger: Ledger,
    sender: Account,
    recipient: Account,
    amount: u128,
)
    requires
        sender != recipient,
        can_afford(ledger, sender, amount),
        credit_fits(ledger, sender, recipient, amount),
    ensures
        balance_of(ledger, sender) + balance_of(ledger, recipient) == balance_of(
            ledger_after_transfer(ledger, sender, recipient, amount),
            sender,
        ) + balance_of(ledger_after_transfer(ledger, sender, recipient, amount), recipient)
            + TRANSACTION_FEE,
{
}

/// A transfer from an account to itself is served exactly where the account
/// holds the amount and the fee, and then costs it the fee: the amount goes
/// out and comes back.
pub proof fn lemma_self_transfer_costs_the_fee(ledger: Ledger, account: Account, amount: u128)
    ensures
        credit_fits(ledger, account, account, amount),
        transfer_result(ledger, account, amount) is Ok <==> balance_of(ledger, account) >= amount
            + TRANSACTION_FEE,
        transfer_result(ledger, account, amount) is Ok ==> balance_of(
            ledger_after_transfer(ledger, account, account, amount),
            account,
        ) == balance_of(ledger, account) - TRANSACTION_FEE,
{
}

/// A sender that holds exactly the amount and the fee is served and left
/// with nothing. Of a transfer to itself this holds only for the amount
/// zero, since the amount comes back.
pub proof fn lemma_exact_funds_leave_nothing(
    ledger: Ledger,
    sender: Account,
    recipient: Account,
    amount: u128,
)
    requires
        balance_of(ledger, sender) == amount + TRANSACTION_FEE,
        sender != recipient || amount == 0,
        credit_fits(ledger, sender, recipient, amount),
    ensures
        transfer_result(ledger, sender, amount) is Ok,
        balance_of(ledger_after_transfer(ledger, sender, recipient, amount), sender) == 0,
{
}

/// A sender that is one unit short of the amount and the fee is refused for
/// want of funds.
pub proof fn lemma_one_short_is_refused(ledger: Ledger, sender: Account, amount: u128)
    requires
        balance_of(ledger, sender) == amount + TRANSACTION_FEE - 1,
    ensures
        transfer_result(ledger, sender, amount) == Err::<(), PalletError>(
            PalletError::InsufficientFunds,
        ),
{
}

} // verus!
