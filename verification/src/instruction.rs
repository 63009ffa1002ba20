//! Instructions once a decoder has recognised them.

use solana_sdk::instruction::AccountMeta;
use solana_sdk::pubkey::Pubkey;
use vstd::prelude::*;

verus! {

/// An instruction whose data a decoder has read as a `T`.
#[derive(Debug)]
pub struct DecodedInstruction<T> {
    pub program_id: Pubkey,
    pub data: T,
    pub accounts: Vec<AccountMeta>,
}

} // verus!
