//! The event record and the identifiers it carries.

use vstd::prelude::*;
use crate::period::{ShardOffset, ShardPeriod};

verus! {

/// Identifier of the writer that owns a family of shards.
pub type ProducerId = [u8; 1];

/// Identifier of one ordered partition of a producer's event stream.
pub type ShardId = i16;

/// Slot of the chain in which an event was observed.
pub type Slot = i64;

/// Kind of an event; it selects the fetch query and the residual filter.
#[derive(Clone, Copy, Debug, PartialEq, Eq, Structural)]
pub enum BlockchainEventType {
    AccountUpdate,
    NewTransaction,
}

/// State of one account after a write.
#[derive(Clone, Debug, PartialEq, Eq)]
pub struct AccountUpdate {
    pub pubkey: Vec<u8>,
    pub lamports: i64,
    pub owner: Vec<u8>,
    pub executable: bool,
    pub rent_epoch: i64,
    pub write_version: i64,
    pub data: Vec<u8>,
    pub txn_signature: Option<Vec<u8>>,
}

/// One instruction of a transaction message, in compiled form.
#[derive(Clone, Debug, PartialEq, Eq)]
pub struct CompiledInstr {
    pub program_id_index: i64,
    pub accounts: Vec<u8>,
    pub data: Vec<u8>,
}

/// Accounts that a versioned message loads from an address table.
#[derive(Clone, Debug, PartialEq, Eq)]
pub struct MessageAddrTableLookup {
    pub account_key: Vec<u8>,
    pub writable_indexes: Vec<u8>,
    pub readonly_indexes: Vec<u8>,
}

/// Outcome of a transaction as the chain recorded it.
#[derive(Clone, Debug, PartialEq, Eq)]
pub struct TransactionMeta {
    pub error: Option<Vec<u8>>,
    pub fee: i64,
    pub pre_balances: Vec<i64>,
    pub post_balances: Vec<i64>,
    pub log_messages: Option<Vec<String>>,
}

/// A transaction together with its outcome.
#[derive(Clone, Debug, PartialEq, Eq)]
pub struct NewTransaction {
    pub signature: Vec<u8>,
    pub signatures: Vec<Vec<u8>>,
    pub num_required_signatures: i32,
    pub num_readonly_signed_accounts: i32,
    pub num_readonly_unsigned_accounts: i32,
    pub account_keys: Vec<Vec<u8>>,
    pub recent_blockhash: Vec<u8>,
    pub instructions: Vec<CompiledInstr>,
    pub versioned: bool,
    pub address_table_lookups: Vec<MessageAddrTableLookup>,
    pub meta: TransactionMeta,
    pub is_vote: bool,
    pub tx_index: i64,
}

/// What an event carries besides its position in the log.
#[derive(Clone, Debug, PartialEq, Eq)]
pub enum EventPayload {
    AccountUpdate(AccountUpdate),
    NewTransaction(NewTransaction),
}

/// One entry of the log.
#[derive(Clone, Debug, PartialEq, Eq)]
pub struct BlockchainEvent {
    pub shard_id: ShardId,
    pub period: ShardPeriod,
    pub producer_id: ProducerId,
    pub offset: ShardOffset,
    pub slot: Slot,
    pub payload: EventPayload,
}

impl BlockchainEvent {
    /// Kind of the event, as its payload tells.
    pub open spec fn kind(&self) -> BlockchainEventType {
        match self.payload {
            EventPayload::AccountUpdate(_) => BlockchainEventType::AccountUpdate,
            EventPayload::NewTransaction(_) => BlockchainEventType::NewTransaction,
        }
    }

    /// The account keys of a transaction; an account update has none.
    pub open spec fn account_keys(&self) -> Seq<Seq<u8>> {
        match self.payload {
            EventPayload::AccountUpdate(_) => Seq::empty(),
            EventPayload::NewTransaction(tx) => byte_strings(tx.account_keys@),
        }
    }

    /// Kind of the event.
    pub fn event_type(&self) -> (kind: BlockchainEventType)
        ensures
            kind == self.kind(),
    {
        match &self.payload {
            EventPayload::AccountUpdate(_) => BlockchainEventType::AccountUpdate,
            EventPayload::NewTransaction(_) => BlockchainEventType::NewTransaction,
        }
    }
}

/// The byte strings that a list of keys holds, in order.
pub open spec fn byte_strings(keys: Seq<Vec<u8>>) -> Seq<Seq<u8>> {
    keys.map_values(|key: Vec<u8>| key@)
}

} // verus!
