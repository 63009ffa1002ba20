//! The Solana types that updates carry.
//!
//! The pipeline carries them through untouched. All that is assumed of them
//! here, without proof, is that cloning one gives an equal value.

use vstd::prelude::*;

verus! {

/// `solana_sdk::pubkey::Pubkey`: the address of an account. Nothing is stated of it.
#[verifier::external_type_specification]
#[verifier::external_body]
pub struct ExPubkey(solana_sdk::pubkey::Pubkey);

/// `solana_sdk::signature::Signature`: the signature of a transaction. Nothing is
/// stated of it.
#[verifier::external_type_specification]
#[verifier::external_body]
pub struct ExSignature(solana_sdk::signature::Signature);

/// `core::array::TryFromSliceError`, which the conversions of `Signature` name.
/// Nothing is stated of it.
#[verifier::external_type_specification]
#[verifier::external_body]
pub struct ExTryFromSliceError(core::array::TryFromSliceError);

/// `solana_sdk::hash::Hash`: the hash of a block. Nothing is stated of it.
#[verifier::external_type_specification]
#[verifier::external_body]
pub struct ExHash(solana_sdk::hash::Hash);

/// `solana_sdk::account::Account`: the state of an account. Nothing is stated of
/// it.
#[verifier::external_type_specification]
#[verifier::external_body]
pub struct ExAccount(solana_sdk::account::Account);

/// `solana_sdk::transaction::VersionedTransaction`: a transaction as it was
/// submitted. Nothing is stated of it.
#[verifier::external_type_specification]
#[verifier::external_body]
pub struct ExVersionedTransaction(solana_sdk::transaction::VersionedTransaction);

/// `solana_transaction_status::TransactionStatusMeta`: what executing a
/// transaction did. Nothing is stated of it.
#[verifier::external_type_specification]
#[verifier::external_body]
pub struct ExTransactionStatusMeta(solana_transaction_status::TransactionStatusMeta);

/// `solana_transaction_status::Reward`: one reward paid in a block. Nothing is
/// stated of it.
#[verifier::external_type_specification]
#[verifier::external_body]
pub struct ExReward(solana_transaction_status::Reward);

/// `solana_sdk::instruction::AccountMeta`: an account that an instruction names.
/// Its three fields are public and read as they are: the key, whether the
/// account signs, and whether it may be written.
#[verifier::external_type_specification]
pub struct ExAccountMeta(solana_sdk::instruction::AccountMeta);

/// `solana_sdk::instruction::Instruction`: an instruction before it is decoded.
/// Nothing is stated of it.
#[verifier::external_type_specification]
#[verifier::external_body]
pub struct ExInstruction(solana_sdk::instruction::Instruction);

/// `Clone::clone` of `Account`, which derives it: the clone has the same
/// lamports, data, owner, executable flag and rent epoch.
pub assume_specification[ <solana_sdk::account::Account as Clone>::clone ](
    source: &solana_sdk::account::Account,
) -> (copy: solana_sdk::account::Account)
    ensures
        copy == *source,
;

/// `Clone::clone` of `VersionedTransaction`, which derives it: the clone has
/// the same signatures and the same message.
pub assume_specification[ <solana_sdk::transaction::VersionedTransaction as Clone>::clone ](
    source: &solana_sdk::transaction::VersionedTransaction,
) -> (copy: solana_sdk::transaction::VersionedTransaction)
    ensures
        copy == *source,
;

/// `Clone::clone` of `TransactionStatusMeta`, which derives it: every field of
/// the clone equals the field it was cloned from.
pub assume_specification[ <solana_transaction_status::TransactionStatusMeta as Clone>::clone ](
    source: &solana_transaction_status::TransactionStatusMeta,
) -> (copy: solana_transaction_status::TransactionStatusMeta)
    ensures
        copy == *source,
;

/// `Vec::clone` on a list of rewards. `Reward` derives `Clone`, so the new
/// list holds, in the same order, rewards whose fields equal those of the
/// rewards cloned.
#[verifier::external_body]
pub(crate) fn clone_rewards(rewards: &Vec<solana_transaction_status::Reward>) -> (copy: Vec<
    solana_transaction_status::Reward,
>)
    ensures
        copy == *rewards,
{
    rewards.clone()
}

} // verus!
