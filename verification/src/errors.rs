//! The error taxonomy of the ledger, wallet store and marketplace.

use vstd::prelude::*;

verus! {

/// Every named failure an operation can report. Operations leave all state
/// unchanged when they return an error.
#[derive(Debug, Clone, Copy, PartialEq, Eq, Structural)]
pub enum LedgerError {
    /// The named account does not exist in the wallet store.
    WalletNotFound,
    /// The account's spendable balance is below the fixed stake amount.
    InsufficientStake,
    /// A spendable-balance debit exceeds the current balance.
    InsufficientFunds,
    /// A tradable-token debit exceeds the current tradable balance.
    InsufficientTokens,
    /// A purchase asks for more tokens than the listing still offers.
    InsufficientListingQuantity,
    /// The given listing position does not name an active listing.
    InvalidListing,
    /// A balance or price computation would exceed the counter's range.
    Overflow,
}

} // verus!
