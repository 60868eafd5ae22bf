//! The texts of the storage queries.
//!
//! The query for transactions and the commit check are fixed. The query for
//! account updates is assembled once per iterator: owners and pubkeys of the
//! filter are written into it as hex literals.

use vstd::prelude::*;
use vstd::string::*;
use crate::filter::{ShardFilter, ShardFilterView};
use crate::model::ShardIteratorError;

verus! {

/// Rows per fetch of account updates.
pub const MICRO_BATCH_SIZE: usize = 40;

/// Fetches the transactions of one period of a shard that follow an offset.
/// Parameters: producer, shard, last offset, period.
pub const GET_NEW_TRANSACTION_EVENT: &'static str = "\n    SELECT\n        shard_id,\n        period,\n        producer_id,\n        offset,\n        slot,\n        event_type,\n\n        pubkey,\n        lamports,\n        owner,\n        executable,\n        rent_epoch,\n        write_version,\n        data,\n        txn_signature,\n\n        signature,\n        signatures,\n        num_required_signatures,\n        num_readonly_signed_accounts,\n        num_readonly_unsigned_accounts,\n        account_keys,\n        recent_blockhash,\n        instructions,\n        versioned,\n        address_table_lookups,\n        meta,\n        is_vote,\n        tx_index\n    FROM log\n    WHERE producer_id = ? and shard_id = ? and offset > ? and period = ?\n    and event_type = 1\n    ORDER BY offset ASC\n    ALLOW FILTERING\n";

/// Finds the commit record of one period of a shard; a row means committed.
/// Parameters: producer, shard, period.
pub const PRODUCER_SHARD_PERIOD_COMMIT_EXISTS: &'static str = "\n    SELECT\n        producer_id\n    FROM producer_period_commit_log\n    WHERE \n        producer_id = ?\n        AND shard_id = ?\n        AND period = ?\n";

/// The predicate on the primary key that every fetch starts from.
pub const LOG_PRIMARY_KEY_CONDITION: &'static str = "\n    producer_id = ? and shard_id = ? and offset > ? and period = ?\n";

/// The columns that every fetch reads.
pub const LOG_PROJECTION: &'static str = "\n    shard_id,\n    period,\n    producer_id,\n    offset,\n    slot,\n    event_type,\n    pubkey,\n    lamports,\n    owner,\n    executable,\n    rent_epoch,\n    write_version,\n    data,\n    txn_signature,\n    signature,\n    signatures,\n    num_required_signatures,\n    num_readonly_signed_accounts,\n    num_readonly_unsigned_accounts,\n    account_keys,\n    recent_blockhash,\n    instructions,\n    versioned,\n    address_table_lookups,\n    meta,\n    is_vote,\n    tx_index\n";

/// The fixed text of the account-update query before the projection.
pub const QUERY_SELECT: &'static str = "\n        SELECT\n        ";

/// The fixed text between the projection and the primary-key predicate.
pub const QUERY_FROM: &'static str = "\n        FROM log\n        WHERE ";

/// The fixed text between the primary-key predicate and the pushed-down conditions.
pub const QUERY_EVENT_TYPE: &'static str = "\n        AND event_type = 0\n        ";

/// The fixed text between the pushed-down conditions and the row limit.
pub const QUERY_ORDER: &'static str = "\n        ORDER BY offset ASC\n        LIMIT ";

/// The fixed text after the row limit.
pub const QUERY_END: &'static str = "\n        ALLOW FILTERING\n        ";

/// The sixteen hex digits, in order of their value.
pub const HEX_DIGITS: &'static str = "0123456789abcdef";

/// The two lowercase hex digits of a byte, high nibble first.
pub open spec fn hex_pair(byte: u8) -> Seq<char> {
    seq![HEX_DIGITS@[byte as int / 16], HEX_DIGITS@[byte as int % 16]]
}

/// The hex digits of a byte string, two per byte.
pub open spec fn hex_digits(bytes: Seq<u8>) -> Seq<char>
    decreases bytes.len(),
{
    if bytes.len() == 0 {
        Seq::empty()
    } else {
        hex_digits(bytes.drop_last()) + hex_pair(bytes.last())
    }
}

/// A byte string as a literal of the storage backend: `0x`, then its hex digits.
pub open spec fn scylla_hexstring(bytes: Seq<u8>) -> Seq<char> {
    "0x"@ + hex_digits(bytes)
}

/// The decimal digits of a number, without leading zeros.
pub open spec fn decimal_digits(n: nat) -> Seq<char>
    decreases n,
{
    if n < 10 {
        seq![HEX_DIGITS@[n as int]]
    } else {
        decimal_digits(n / 10) + seq![HEX_DIGITS@[(n % 10) as int]]
    }
}

/// The literals of `keys`, in order, separated by a comma and a space.
pub open spec fn hexstring_list(keys: Seq<Seq<u8>>) -> Seq<char>
    decreases keys.len(),
{
    if keys.len() == 0 {
        Seq::empty()
    } else if keys.len() == 1 {
        scylla_hexstring(keys[0])
    } else {
        hexstring_list(keys.drop_last()) + ", "@ + scylla_hexstring(keys.last())
    }
}

/// The condition that restricts `column` to `keys`.
pub open spec fn in_condition(column: Seq<char>, keys: Seq<Seq<u8>>) -> Seq<char> {
    "AND "@ + column + " IN ("@ + hexstring_list(keys) + ")"@
}

/// Whether no byte string of `keys` is empty.
pub open spec fn all_nonempty(keys: Seq<Seq<u8>>) -> bool {
    forall|i: int| 0 <= i < keys.len() ==> (#[trigger] keys[i]).len() > 0
}

impl ShardFilterView {
    /// Whether every owner and every pubkey can be written as a literal: none
    /// of them is empty.
    pub open spec fn renderable(self) -> bool {
        all_nonempty(self.account_owners) && all_nonempty(self.account_pubkeys)
    }

    /// The conditions pushed down into the account-update query: one on the
    /// owner if owners are given, then one on the pubkey if pubkeys are given,
    /// with a space between the two.
    pub open spec fn pushdown_conditions(self) -> Seq<char> {
        let owners = in_condition("owner"@, self.account_owners);
        let pubkeys = in_condition("pubkey"@, self.account_pubkeys);
        if self.account_owners.len() > 0 && self.account_pubkeys.len() > 0 {
            owners + " "@ + pubkeys
        } else if self.account_owners.len() > 0 {
            owners
        } else if self.account_pubkeys.len() > 0 {
            pubkeys
        } else {
            Seq::empty()
        }
    }

    /// The text of the account-update query for this filter.
    pub open spec fn account_update_query(self) -> Seq<char> {
        QUERY_SELECT@ + LOG_PROJECTION@ + QUERY_FROM@ + LOG_PRIMARY_KEY_CONDITION@
            + QUERY_EVENT_TYPE@ + self.pushdown_conditions() + QUERY_ORDER@ + decimal_digits(
            MICRO_BATCH_SIZE as nat,
        ) + QUERY_END@
    }
}

/// Appends the hex digit of value `nibble`.
fn append_hex_digit(text: &mut String, nibble: u8)
    requires
        nibble < 16,
    ensures
        final(text)@ == old(text)@ + seq![HEX_DIGITS@[nibble as int]],
{
    proof {
        reveal_strlit("0123456789abcdef");
    }
    let at: usize = nibble as usize;
    let digit = HEX_DIGITS.substring_ascii(at, at + 1);
    assert(digit@ =~= seq![HEX_DIGITS@[nibble as int]]);
    text.append(digit);
}

/// Appends the hex digits of `bytes`.
fn append_hex_digits(text: &mut String, bytes: &[u8])
    ensures
        final(text)@ == old(text)@ + hex_digits(bytes@),
{
    let mut i: usize = 0;
    assert(bytes@.take(0) =~= Seq::<u8>::empty());
    assert(text@ =~= old(text)@ + hex_digits(bytes@.take(0)));
    while i < bytes.len()
        invariant
            i <= bytes.len(),
            text@ == old(text)@ + hex_digits(bytes@.take(i as int)),
        decreases bytes.len() - i,
    {
        let byte = bytes[i];
        let ghost before = text@;
        append_hex_digit(text, byte / 16);
        append_hex_digit(text, byte % 16);
        proof {
            let grown = bytes@.take(i as int + 1);
            assert(grown.drop_last() =~= bytes@.take(i as int));
            assert(grown.last() == byte);
            assert(text@ =~= before + hex_pair(byte));
            assert(text@ =~= old(text)@ + hex_digits(grown));
        }
        i += 1;
    }
    assert(bytes@.take(bytes.len() as int) =~= bytes@);
}

/// Renders a byte string as a literal of the storage backend: `0x` followed
/// by two lowercase hex digits per byte. The empty byte string has no literal
/// and is rejected.
pub fn format_as_scylla_hexstring(bytes: &[u8]) -> (text: Result<String, ShardIteratorError>)
    ensures
        match text {
            Ok(literal) => bytes@.len() > 0 && literal@ == scylla_hexstring(bytes@),
            Err(error) => bytes@.len() == 0 && error == ShardIteratorError::EmptyFilterKey,
        },
{
    if bytes.len() == 0 {
        return Err(ShardIteratorError::EmptyFilterKey);
    }
    let mut text = String::from_str("0x");
    append_hex_digits(&mut text, bytes);
    Ok(text)
}

/// Appends the decimal digits of `n`.
fn append_decimal(text: &mut String, n: usize)
    ensures
        final(text)@ == old(text)@ + decimal_digits(n as nat),
    decreases n,
{
    if n >= 10 {
        append_decimal(text, n / 10);
    }
    append_hex_digit(text, (n % 10) as u8);
    assert(text@ =~= old(text)@ + decimal_digits(n as nat));
}

/// Appends the literals of `keys`, separated by a comma and a space.
fn append_hexstring_list(text: &mut String, keys: &Vec<Vec<u8>>)
    requires
        all_nonempty(crate::types::byte_strings(keys@)),
    ensures
        final(text)@ == old(text)@ + hexstring_list(crate::types::byte_strings(keys@)),
{
    let ghost all = crate::types::byte_strings(keys@);
    let mut i: usize = 0;
    assert(all.take(0) =~= Seq::<Seq<u8>>::empty());
    assert(text@ =~= old(text)@ + hexstring_list(all.take(0)));
    while i < keys.len()
        invariant
            i <= keys.len(),
            all == crate::types::byte_strings(keys@),
            all_nonempty(all),
            text@ == old(text)@ + hexstring_list(all.take(i as int)),
        decreases keys.len() - i,
    {
        let ghost before = text@;
        if i > 0 {
            text.append(", ");
        }
        assert(all[i as int] == keys[i as int]@);
        let literal = format_as_scylla_hexstring(keys[i].as_slice()).unwrap();
        text.append(literal.as_str());
        proof {
            let grown = all.take(i as int + 1);
            assert(grown.drop_last() =~= all.take(i as int));
            assert(grown.last() == keys[i as int]@);
            if i == 0 {
                assert(grown[0] == keys[i as int]@);
                assert(text@ =~= old(text)@ + hexstring_list(grown));
            } else {
                assert(text@ =~= before + ", "@ + scylla_hexstring(keys[i as int]@));
                assert(text@ =~= old(text)@ + hexstring_list(grown));
            }
        }
        i += 1;
    }
    assert(all.take(keys.len() as int) =~= all);
}

/// Appends the condition that restricts `column` to `keys`.
fn append_in_condition(text: &mut String, column: &str, keys: &Vec<Vec<u8>>)
    requires
        all_nonempty(crate::types::byte_strings(keys@)),
    ensures
        final(text)@ == old(text)@ + in_condition(column@, crate::types::byte_strings(keys@)),
{
    text.append("AND ");
    text.append(column);
    text.append(" IN (");
    append_hexstring_list(text, keys);
    text.append(")");
    assert(text@ =~= old(text)@ + in_condition(column@, crate::types::byte_strings(keys@)));
}

/// Whether no key of `keys` is empty.
fn keys_nonempty(keys: &Vec<Vec<u8>>) -> (ok: bool)
    ensures
        ok == all_nonempty(crate::types::byte_strings(keys@)),
{
    let mut i: usize = 0;
    while i < keys.len()
        invariant
            i <= keys.len(),
            forall|k: int| 0 <= k < i ==> (#[trigger] crate::types::byte_strings(keys@)[k]).len() > 0,
        decreases keys.len() - i,
    {
        if keys[i].len() == 0 {
            assert(crate::types::byte_strings(keys@)[i as int].len() == 0);
            return false;
        }
        i += 1;
    }
    true
}

impl ShardFilter {
    /// Whether the account-update query can be written for this filter: no
    /// owner and no pubkey is empty.
    pub fn is_renderable(&self) -> (ok: bool)
        ensures
            ok == self@.renderable(),
    {
        keys_nonempty(&self.account_owners) && keys_nonempty(&self.account_pubkeys)
    }
}

/// Builds the text of the account-update query for `filter`.
///
/// The query starts from the fixed projection and primary-key predicate,
/// restricts the rows to account updates, adds a condition on the owner and
/// one on the pubkey where the filter names any, orders by offset and limits
/// the result to one micro-batch. A filter with an empty owner or pubkey is
/// rejected.
pub fn forge_account_upadate_event_query(filter: &ShardFilter) -> (query: Result<
    String,
    ShardIteratorError,
>)
    ensures
        match query {
            Ok(text) => filter@.renderable() && text@ == filter@.account_update_query(),
            Err(error) => !filter@.renderable() && error == ShardIteratorError::EmptyFilterKey,
        },
{
    if !filter.is_renderable() {
        return Err(ShardIteratorError::EmptyFilterKey);
    }
    let mut query = String::from_str(QUERY_SELECT);
    query.append(LOG_PROJECTION);
    query.append(QUERY_FROM);
    query.append(LOG_PRIMARY_KEY_CONDITION);
    query.append(QUERY_EVENT_TYPE);
    let ghost head = query@;
    if filter.account_owners.len() > 0 {
        append_in_condition(&mut query, "owner", &filter.account_owners);
        if filter.account_pubkeys.len() > 0 {
            query.append(" ");
        }
    }
    if filter.account_pubkeys.len() > 0 {
        append_in_condition(&mut query, "pubkey", &filter.account_pubkeys);
    }
    assert(query@ =~= head + filter@.pushdown_conditions());
    query.append(QUERY_ORDER);
    append_decimal(&mut query, MICRO_BATCH_SIZE);
    query.append(QUERY_END);
    assert(query@ =~= filter@.account_update_query());
    Ok(query)
}

} // verus!
