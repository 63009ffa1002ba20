//! The accounts of an instruction, by name.

use solana_sdk::instruction::AccountMeta;
use vstd::prelude::*;

verus! {

/// An instruction whose accounts have a fixed arrangement.
pub trait ArrangeAccounts {
    type ArrangedAccounts;

    /// Names the accounts, or gives `None` if `accounts` does not have the
    /// shape that the instruction asks for.
    fn arrange_accounts(accounts: &[AccountMeta]) -> Option<Self::ArrangedAccounts>;
}

} // verus!
