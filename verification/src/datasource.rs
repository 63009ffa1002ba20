//! Updates, their kinds, and the identity of the datasource that emits them.

use crate::sdk::clone_rewards;
use solana_sdk::account::Account;
use solana_sdk::pubkey::Pubkey;
use solana_sdk::signature::Signature;
use solana_sdk::transaction::VersionedTransaction;
use solana_transaction_status::{Rewards, TransactionStatusMeta};
use vstd::prelude::*;
use vstd::std_specs::cmp::PartialEqSpecImpl;

verus! {

/// What a freshly drawn identifier looks like: a version 4 UUID in its
/// hyphenated lower-case form, such as `67e55044-10b1-426f-9247-bb680e5fe0c8`.
pub open spec fn is_hyphenated_v4(text: Seq<char>) -> bool {
    &&& text.len() == 36
    &&& forall|i: int|
        0 <= i < 36 ==> if i == 8 || i == 13 || i == 18 || i == 23 {
            text[i] == '-'
        } else {
            is_lower_hex(#[trigger] text[i])
        }
    &&& text[14] == '4'
    &&& (text[19] == '8' || text[19] == '9' || text[19] == 'a' || text[19] == 'b')
}

/// Whether `c` is one of `0` to `9` or `a` to `f`.
pub open spec fn is_lower_hex(c: char) -> bool {
    ('0' <= c && c <= '9') || ('a' <= c && c <= 'f')
}

/// `uuid::Uuid::new_v4`, then `to_string` on the result. The value is drawn
/// at random, so only its shape is stated, without proof: `new_v4` fixes the
/// version and variant bits, and `Uuid` displays as 32 lower-case hex digits
/// in groups of 8, 4, 4, 4 and 12 with a hyphen between them. Where the
/// system cannot supply random bytes, `new_v4` panics.
#[verifier::external_body]
fn random_uuid() -> (text: String)
    ensures
        is_hyphenated_v4(text@),
{
    uuid::Uuid::new_v4().to_string()
}

/// The identity of a datasource: stable once made, compared by value.
#[derive(Debug, Clone, Eq, Hash)]
pub struct DatasourceId(String);

impl View for DatasourceId {
    type V = Seq<char>;

    /// The identifier's text.
    closed spec fn view(&self) -> Seq<char> {
        self.0@
    }
}

impl PartialEq for DatasourceId {
    fn eq(&self, other: &Self) -> (equal: bool) {
        self.0 == other.0
    }
}

impl PartialEqSpecImpl for DatasourceId {
    open spec fn obeys_eq_spec() -> bool {
        true
    }

    /// Two identifiers are equal if and only if their texts are.
    open spec fn eq_spec(&self, other: &Self) -> bool {
        self@ == other@
    }
}

impl DatasourceId {
    /// An identifier drawn at random: a version 4 UUID. That two of them
    /// differ is a matter of chance and is not stated.
    pub fn new_unique() -> (id: Self)
        ensures
            is_hyphenated_v4(id@),
    {
        Self(random_uuid())
    }

    /// The identifier that the caller names.
    pub fn new_named(name: &str) -> (id: Self)
        ensures
            id@ == name@,
    {
        Self(name.to_string())
    }
}

/// The kinds of update, by which a datasource declares what it emits and the
/// pipeline routes.
#[derive(Debug, Clone, Copy, PartialEq, Eq, Hash, Structural)]
pub enum UpdateType {
    AccountUpdate,
    Transaction,
    AccountDeletion,
    BlockDetails,
}

/// An account's state as of a slot.
#[derive(Debug)]
pub struct AccountUpdate {
    pub pubkey: Pubkey,
    pub account: Account,
    pub slot: u64,
    pub transaction_signature: Option<Signature>,
}

/// What is known of a block.
#[derive(Debug)]
pub struct BlockDetails {
    pub slot: u64,
    pub block_hash: Option<solana_sdk::hash::Hash>,
    pub previous_block_hash: Option<solana_sdk::hash::Hash>,
    pub rewards: Option<Rewards>,
    pub num_reward_partitions: Option<u64>,
    pub block_time: Option<i64>,
    pub block_height: Option<u64>,
}

/// An account that was closed in a slot.
#[derive(Debug)]
pub struct AccountDeletion {
    pub pubkey: Pubkey,
    pub slot: u64,
    pub transaction_signature: Option<Signature>,
}

/// A transaction with the outcome of its execution.
#[derive(Debug)]
pub struct TransactionUpdate {
    pub signature: Signature,
    pub transaction: VersionedTransaction,
    pub meta: TransactionStatusMeta,
    pub is_vote: bool,
    pub slot: u64,
    pub block_time: Option<i64>,
    pub block_hash: Option<solana_sdk::hash::Hash>,
}

/// One event of a datasource.
#[derive(Debug)]
pub enum Update {
    Account(AccountUpdate),
    Transaction(Box<TransactionUpdate>),
    AccountDeletion(AccountDeletion),
    BlockDetails(BlockDetails),
}

impl Clone for AccountUpdate {
    fn clone(&self) -> (copy: Self)
        ensures
            copy == *self,
    {
        AccountUpdate {
            pubkey: self.pubkey,
            account: self.account.clone(),
            slot: self.slot,
            transaction_signature: self.transaction_signature,
        }
    }
}

impl Clone for AccountDeletion {
    fn clone(&self) -> (copy: Self)
        ensures
            copy == *self,
    {
        AccountDeletion {
            pubkey: self.pubkey,
            slot: self.slot,
            transaction_signature: self.transaction_signature,
        }
    }
}

impl Clone for TransactionUpdate {
    fn clone(&self) -> (copy: Self)
        ensures
            copy == *self,
    {
        TransactionUpdate {
            signature: self.signature,
            transaction: self.transaction.clone(),
            meta: self.meta.clone(),
            is_vote: self.is_vote,
            slot: self.slot,
            block_time: self.block_time,
            block_hash: self.block_hash,
        }
    }
}

impl Clone for BlockDetails {
    fn clone(&self) -> (copy: Self)
        ensures
            copy == *self,
    {
        let rewards = match &self.rewards {
            Some(list) => Some(clone_rewards(list)),
            None => None,
        };
        BlockDetails {
            slot: self.slot,
            block_hash: self.block_hash,
            previous_block_hash: self.previous_block_hash,
            rewards,
            num_reward_partitions: self.num_reward_partitions,
            block_time: self.block_time,
            block_height: self.block_height,
        }
    }
}

impl Clone for Update {
    fn clone(&self) -> (copy: Self)
        ensures
            copy == *self,
    {
        match self {
            Update::Account(account) => Update::Account(account.clone()),
            Update::Transaction(transaction) => {
                let inner: &TransactionUpdate = transaction;
                Update::Transaction(Box::new(inner.clone()))
            },
            Update::AccountDeletion(deletion) => Update::AccountDeletion(deletion.clone()),
            Update::BlockDetails(details) => Update::BlockDetails(details.clone()),
        }
    }
}

impl Update {
    /// The kind of this update.
    pub open spec fn spec_kind(&self) -> UpdateType {
        match self {
            Update::Account(_) => UpdateType::AccountUpdate,
            Update::Transaction(_) => UpdateType::Transaction,
            Update::AccountDeletion(_) => UpdateType::AccountDeletion,
            Update::BlockDetails(_) => UpdateType::BlockDetails,
        }
    }

    /// The slot that this update speaks of.
    pub open spec fn spec_slot(&self) -> u64 {
        match self {
            Update::Account(account) => account.slot,
            Update::Transaction(transaction) => transaction.slot,
            Update::AccountDeletion(deletion) => deletion.slot,
            Update::BlockDetails(details) => details.slot,
        }
    }

    /// The payload, if this is an account update.
    pub open spec fn account_update(self) -> Option<AccountUpdate> {
        match self {
            Update::Account(account_update) => Some(account_update),
            _ => None,
        }
    }

    /// The payload, if this is a transaction.
    pub open spec fn transaction_update(self) -> Option<TransactionUpdate> {
        match self {
            Update::Transaction(transaction_update) => Some(*transaction_update),
            _ => None,
        }
    }

    /// The payload, if this is an account deletion.
    pub open spec fn account_deletion(self) -> Option<AccountDeletion> {
        match self {
            Update::AccountDeletion(account_deletion) => Some(account_deletion),
            _ => None,
        }
    }

    /// The payload, if this is about a block.
    pub open spec fn block_details(self) -> Option<BlockDetails> {
        match self {
            Update::BlockDetails(block_details) => Some(block_details),
            _ => None,
        }
    }

    #[verifier::when_used_as_spec(spec_kind)]
    pub fn kind(&self) -> (kind: UpdateType)
        ensures
            kind == self.spec_kind(),
    {
        match self {
            Update::Account(_) => UpdateType::AccountUpdate,
            Update::Transaction(_) => UpdateType::Transaction,
            Update::AccountDeletion(_) => UpdateType::AccountDeletion,
            Update::BlockDetails(_) => UpdateType::BlockDetails,
        }
    }

    #[verifier::when_used_as_spec(spec_slot)]
    pub fn slot(&self) -> (slot: u64)
        ensures
            slot == self.spec_slot(),
    {
        match self {
            Update::Account(account) => account.slot,
            Update::Transaction(transaction) => transaction.slot,
            Update::AccountDeletion(deletion) => deletion.slot,
            Update::BlockDetails(details) => details.slot,
        }
    }
}

} // verus!
