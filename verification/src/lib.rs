//! An in-memory account ledger with a fee-charging transfer.
//!
//! [`balances::Pallet`] owns a mapping from account names to unsigned
//! balances. Its behaviour is stated against the mathematical ledger of
//! [`ledger`], and the consequences of those statements are proved in
//! [`laws`].
pub mod balances;
pub mod laws;
pub mod ledger;
