//! Rows of the log as the fetch queries return them, and their way into the
//! event record.
//!
//! A row has the columns of both kinds of event: those of the common part are
//! always set, those of the other kind are null. Decoding checks the kind
//! and takes the columns that belong to it.

use std::collections::VecDeque;
use vstd::prelude::*;
use crate::period::{ShardOffset, ShardPeriod};
use crate::types::{
    AccountUpdate, BlockchainEvent, BlockchainEventType, CompiledInstr, EventPayload,
    MessageAddrTableLookup, NewTransaction, ProducerId, ShardId, Slot, TransactionMeta,
};

verus! {

/// Value of the `event_type` column of an account update.
pub const ACCOUNT_UPDATE_CODE: i16 = 0;

/// Value of the `event_type` column of a transaction.
pub const NEW_TRANSACTION_CODE: i16 = 1;

/// Why a row is no event.
#[derive(Clone, Copy, Debug, PartialEq, Eq, Structural)]
pub enum DecodeError {
    /// The `event_type` column holds no known kind.
    UnknownEventType,
    /// A column that the kind of the row requires is null.
    NullColumn,
}

/// One row of the log, in the order of the projection.
#[derive(Clone, Debug, PartialEq, Eq)]
pub struct LogRow {
    pub shard_id: ShardId,
    pub period: ShardPeriod,
    pub producer_id: ProducerId,
    pub offset: ShardOffset,
    pub slot: Slot,
    pub event_type: i16,
    pub pubkey: Option<Vec<u8>>,
    pub lamports: Option<i64>,
    pub owner: Option<Vec<u8>>,
    pub executable: Option<bool>,
    pub rent_epoch: Option<i64>,
    pub write_version: Option<i64>,
    pub data: Option<Vec<u8>>,
    pub txn_signature: Option<Vec<u8>>,
    pub signature: Option<Vec<u8>>,
    pub signatures: Option<Vec<Vec<u8>>>,
    pub num_required_signatures: Option<i32>,
    pub num_readonly_signed_accounts: Option<i32>,
    pub num_readonly_unsigned_accounts: Option<i32>,
    pub account_keys: Option<Vec<Vec<u8>>>,
    pub recent_blockhash: Option<Vec<u8>>,
    pub instructions: Option<Vec<CompiledInstr>>,
    pub versioned: Option<bool>,
    pub address_table_lookups: Option<Vec<MessageAddrTableLookup>>,
    pub meta: Option<TransactionMeta>,
    pub is_vote: Option<bool>,
    pub tx_index: Option<i64>,
}

impl BlockchainEventType {
    /// The value of the `event_type` column for this kind.
    pub open spec fn spec_code(self) -> i16 {
        match self {
            BlockchainEventType::AccountUpdate => ACCOUNT_UPDATE_CODE,
            BlockchainEventType::NewTransaction => NEW_TRANSACTION_CODE,
        }
    }

    /// The value of the `event_type` column for this kind.
    pub fn code(self) -> (code: i16)
        ensures
            code == self.spec_code(),
    {
        match self {
            BlockchainEventType::AccountUpdate => ACCOUNT_UPDATE_CODE,
            BlockchainEventType::NewTransaction => NEW_TRANSACTION_CODE,
        }
    }

    /// The kind that a value of the `event_type` column stands for.
    pub fn from_code(code: i16) -> (kind: Option<BlockchainEventType>)
        ensures
            kind matches Some(found) ==> found.spec_code() == code,
            kind is None ==> code != ACCOUNT_UPDATE_CODE && code != NEW_TRANSACTION_CODE,
    {
        if code == ACCOUNT_UPDATE_CODE {
            Some(BlockchainEventType::AccountUpdate)
        } else if code == NEW_TRANSACTION_CODE {
            Some(BlockchainEventType::NewTransaction)
        } else {
            None
        }
    }
}

impl LogRow {
    /// The account update that the row holds, if all its columns but the
    /// transaction signature are set.
    pub open spec fn account_update(self) -> Option<AccountUpdate> {
        if self.pubkey is Some && self.lamports is Some && self.owner is Some && self.executable
            is Some && self.rent_epoch is Some && self.write_version is Some && self.data is Some {
            Some(
                AccountUpdate {
                    pubkey: self.pubkey.unwrap(),
                    lamports: self.lamports.unwrap(),
                    owner: self.owner.unwrap(),
                    executable: self.executable.unwrap(),
                    rent_epoch: self.rent_epoch.unwrap(),
                    write_version: self.write_version.unwrap(),
                    data: self.data.unwrap(),
                    txn_signature: self.txn_signature,
                },
            )
        } else {
            None
        }
    }

    /// The transaction that the row holds, if all its columns are set.
    pub open spec fn new_transaction(self) -> Option<NewTransaction> {
        if self.signature is Some && self.signatures is Some && self.num_required_signatures
            is Some && self.num_readonly_signed_accounts is Some
            && self.num_readonly_unsigned_accounts is Some && self.account_keys is Some
            && self.recent_blockhash is Some && self.instructions is Some && self.versioned
            is Some && self.address_table_lookups is Some && self.meta is Some && self.is_vote
            is Some && self.tx_index is Some {
            Some(
                NewTransaction {
                    signature: self.signature.unwrap(),
                    signatures: self.signatures.unwrap(),
                    num_required_signatures: self.num_required_signatures.unwrap(),
                    num_readonly_signed_accounts: self.num_readonly_signed_accounts.unwrap(),
                    num_readonly_unsigned_accounts: self.num_readonly_unsigned_accounts.unwrap(),
                    account_keys: self.account_keys.unwrap(),
                    recent_blockhash: self.recent_blockhash.unwrap(),
                    instructions: self.instructions.unwrap(),
                    versioned: self.versioned.unwrap(),
                    address_table_lookups: self.address_table_lookups.unwrap(),
                    meta: self.meta.unwrap(),
                    is_vote: self.is_vote.unwrap(),
                    tx_index: self.tx_index.unwrap(),
                },
            )
        } else {
            None
        }
    }

    /// The event with the common columns of the row and `payload`.
    pub open spec fn with_payload(self, payload: EventPayload) -> BlockchainEvent {
        BlockchainEvent {
            shard_id: self.shard_id,
            period: self.period,
            producer_id: self.producer_id,
            offset: self.offset,
            slot: self.slot,
            payload,
        }
    }

    /// The event that the row holds, or why it holds none.
    pub open spec fn decoded(self) -> Result<BlockchainEvent, DecodeError> {
        if self.event_type == ACCOUNT_UPDATE_CODE {
            match self.account_update() {
                Some(update) => Ok(self.with_payload(EventPayload::AccountUpdate(update))),
                None => Err(DecodeError::NullColumn),
            }
        } else if self.event_type == NEW_TRANSACTION_CODE {
            match self.new_transaction() {
                Some(tx) => Ok(self.with_payload(EventPayload::NewTransaction(tx))),
                None => Err(DecodeError::NullColumn),
            }
        } else {
            Err(DecodeError::UnknownEventType)
        }
    }

    /// Decodes the row into an event.
    ///
    /// The kind is taken from the `event_type` column. The columns of that
    /// kind must be set; only the transaction signature of an account update
    /// may be null. The columns of the other kind are ignored.
    pub fn decode(self) -> (event: Result<BlockchainEvent, DecodeError>)
        ensures
            event == self.decoded(),
    {
        let kind = match BlockchainEventType::from_code(self.event_type) {
            Some(kind) => kind,
            None => {
                return Err(DecodeError::UnknownEventType);
            },
        };
        let payload = match kind {
            BlockchainEventType::AccountUpdate => {
                match (
                    self.pubkey,
                    self.lamports,
                    self.owner,
                    self.executable,
                    self.rent_epoch,
                    self.write_version,
                    self.data,
                ) {
                    (
                        Some(pubkey),
                        Some(lamports),
                        Some(owner),
                        Some(executable),
                        Some(rent_epoch),
                        Some(write_version),
                        Some(data),
                    ) => EventPayload::AccountUpdate(
                        AccountUpdate {
                            pubkey,
                            lamports,
                            owner,
                            executable,
                            rent_epoch,
                            write_version,
                            data,
                            txn_signature: self.txn_signature,
                        },
                    ),
                    _ => {
                        return Err(DecodeError::NullColumn);
                    },
                }
            },
            BlockchainEventType::NewTransaction => {
                let head = match (
                    self.signature,
                    self.signatures,
                    self.num_required_signatures,
                    self.num_readonly_signed_accounts,
                    self.num_readonly_unsigned_accounts,
                    self.account_keys,
                    self.recent_blockhash,
                ) {
                    (Some(a), Some(b), Some(c), Some(d), Some(e), Some(f), Some(g)) => (
                        a,
                        b,
                        c,
                        d,
                        e,
                        f,
                        g,
                    ),
                    _ => {
                        return Err(DecodeError::NullColumn);
                    },
                };
                match (
                    self.instructions,
                    self.versioned,
                    self.address_table_lookups,
                    self.meta,
                    self.is_vote,
                    self.tx_index,
                ) {
                    (
                        Some(instructions),
                        Some(versioned),
                        Some(address_table_lookups),
                        Some(meta),
                        Some(is_vote),
                        Some(tx_index),
                    ) => EventPayload::NewTransaction(
                        NewTransaction {
                            signature: head.0,
                            signatures: head.1,
                            num_required_signatures: head.2,
                            num_readonly_signed_accounts: head.3,
                            num_readonly_unsigned_accounts: head.4,
                            account_keys: head.5,
                            recent_blockhash: head.6,
                            instructions,
                            versioned,
                            address_table_lookups,
                            meta,
                            is_vote,
                            tx_index,
                        },
                    ),
                    _ => {
                        return Err(DecodeError::NullColumn);
                    },
                }
            },
        };
        Ok(
            BlockchainEvent {
                shard_id: self.shard_id,
                period: self.period,
                producer_id: self.producer_id,
                offset: self.offset,
                slot: self.slot,
                payload,
            },
        )
    }
}

/// The events that `rows` hold, in order, or the error of the first row that
/// holds none.
pub open spec fn decoded_rows(rows: Seq<LogRow>) -> Result<Seq<BlockchainEvent>, DecodeError>
    decreases rows.len(),
{
    if rows.len() == 0 {
        Ok(Seq::empty())
    } else {
        match rows[0].decoded() {
            Err(error) => Err(error),
            Ok(event) => match decoded_rows(rows.drop_first()) {
                Err(error) => Err(error),
                Ok(events) => Ok(seq![event] + events),
            },
        }
    }
}

/// Whether `batch` holds what decoding gave.
pub open spec fn holds_decoded(
    batch: Result<VecDeque<BlockchainEvent>, DecodeError>,
    decoded: Result<Seq<BlockchainEvent>, DecodeError>,
) -> bool {
    match batch {
        Ok(events) => decoded == Ok::<Seq<BlockchainEvent>, DecodeError>(events@),
        Err(error) => decoded == Err::<Seq<BlockchainEvent>, DecodeError>(error),
    }
}

/// Decodes the rows of a fetch into a micro-batch.
///
/// The batch holds the events of the rows in the order of the rows. If a row
/// cannot be decoded there is no batch, and the error is that of the first
/// such row.
pub fn decode_micro_batch(rows: Vec<LogRow>) -> (batch: Result<
    VecDeque<BlockchainEvent>,
    DecodeError,
>)
    ensures
        holds_decoded(batch, decoded_rows(rows@)),
{
    let ghost all = rows@;
    let mut rows = rows;
    let mut batch: Result<VecDeque<BlockchainEvent>, DecodeError> = Ok(VecDeque::new());
    assert(all.subrange(all.len() as int, all.len() as int) =~= Seq::<LogRow>::empty());
    while rows.len() > 0
        invariant
            rows@ == all.take(rows@.len() as int),
            rows@.len() <= all.len(),
            holds_decoded(batch, decoded_rows(all.subrange(rows@.len() as int, all.len() as int))),
        decreases rows@.len(),
    {
        let ghost left = rows@.len() as int;
        let row = rows.pop().unwrap();
        proof {
            let tail = all.subrange(left - 1, all.len() as int);
            assert(tail[0] == row);
            assert(tail.drop_first() =~= all.subrange(left, all.len() as int));
            assert(rows@ =~= all.take(left - 1));
        }
        match row.decode() {
            Ok(event) => {
                if let Ok(events) = &mut batch {
                    let ghost rest = events@;
                    events.push_front(event);
                    assert(events@ =~= seq![event] + rest);
                }
            },
            Err(error) => {
                batch = Err(error);
            },
        }
    }
    assert(all.subrange(0, all.len() as int) =~= all);
    batch
}

} // verus!
