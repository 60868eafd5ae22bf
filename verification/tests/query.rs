use shard_iterator::filter::ShardFilter;
use shard_iterator::model::ShardIteratorError;
use shard_iterator::query::{
    forge_account_upadate_event_query, format_as_scylla_hexstring, GET_NEW_TRANSACTION_EVENT,
    LOG_PRIMARY_KEY_CONDITION, LOG_PROJECTION, MICRO_BATCH_SIZE, PRODUCER_SHARD_PERIOD_COMMIT_EXISTS,
};

const QUERY_HEAD: &str = "\n        SELECT\n        \n    shard_id,\n    period,\n    producer_id,\n    offset,\n    slot,\n    event_type,\n    pubkey,\n    lamports,\n    owner,\n    executable,\n    rent_epoch,\n    write_version,\n    data,\n    txn_signature,\n    signature,\n    signatures,\n    num_required_signatures,\n    num_readonly_signed_accounts,\n    num_readonly_unsigned_accounts,\n    account_keys,\n    recent_blockhash,\n    instructions,\n    versioned,\n    address_table_lookups,\n    meta,\n    is_vote,\n    tx_index\n\n        FROM log\n        WHERE \n    producer_id = ? and shard_id = ? and offset > ? and period = ?\n\n        AND event_type = 0\n        ";

const QUERY_TAIL: &str = "\n        ORDER BY offset ASC\n        LIMIT 40\n        ALLOW FILTERING\n        ";

fn filter(owners: Vec<Vec<u8>>, pubkeys: Vec<Vec<u8>>) -> ShardFilter {
    ShardFilter { tx_account_keys: vec![], account_owners: owners, account_pubkeys: pubkeys }
}

#[test]
fn hexstring_of_one_byte() {
    assert_eq!(format_as_scylla_hexstring(&[0xab]).unwrap(), "0xab");
    assert_eq!(format_as_scylla_hexstring(&[0x00]).unwrap(), "0x00");
    assert_eq!(format_as_scylla_hexstring(&[0x0f]).unwrap(), "0x0f");
    assert_eq!(format_as_scylla_hexstring(&[0xf0]).unwrap(), "0xf0");
    assert_eq!(format_as_scylla_hexstring(&[0xff]).unwrap(), "0xff");
}

#[test]
fn hexstring_is_lowercase_with_two_digits_per_byte() {
    assert_eq!(format_as_scylla_hexstring(&[0x01, 0x23, 0x45, 0x67]).unwrap(), "0x01234567");
    assert_eq!(format_as_scylla_hexstring(&[0x89, 0xAB, 0xCD, 0xEF]).unwrap(), "0x89abcdef");
    assert_eq!(format_as_scylla_hexstring(&[0, 0, 0]).unwrap(), "0x000000");
    let key: Vec<u8> = (0u8..32).collect();
    let text = format_as_scylla_hexstring(&key).unwrap();
    assert_eq!(text.len(), 2 + 64);
    assert_eq!(text, "0x000102030405060708090a0b0c0d0e0f101112131415161718191a1b1c1d1e1f");
}

#[test]
fn hexstring_agrees_with_std_formatting_on_every_byte() {
    for byte in 0u8..=255 {
        assert_eq!(format_as_scylla_hexstring(&[byte]).unwrap(), format!("0x{:02x}", byte));
    }
}

#[test]
fn empty_byte_string_has_no_literal() {
    assert_eq!(format_as_scylla_hexstring(&[]), Err(ShardIteratorError::EmptyFilterKey));
    let empty: Vec<u8> = Vec::new();
    assert_eq!(format_as_scylla_hexstring(&empty), Err(ShardIteratorError::EmptyFilterKey));
}

#[test]
fn filter_with_an_empty_owner_or_pubkey_is_rejected() {
    assert_eq!(
        forge_account_upadate_event_query(&filter(vec![vec![]], vec![])),
        Err(ShardIteratorError::EmptyFilterKey)
    );
    assert_eq!(
        forge_account_upadate_event_query(&filter(vec![vec![1]], vec![vec![2], vec![], vec![3]])),
        Err(ShardIteratorError::EmptyFilterKey)
    );
    let empty_tx_key = ShardFilter {
        tx_account_keys: vec![vec![]],
        account_owners: vec![vec![1]],
        account_pubkeys: vec![],
    };
    assert!(forge_account_upadate_event_query(&empty_tx_key).is_ok());
}

#[test]
fn micro_batch_holds_forty_rows() {
    assert_eq!(MICRO_BATCH_SIZE, 40);
}

#[test]
fn empty_filter_adds_no_condition() {
    let query = forge_account_upadate_event_query(&filter(vec![], vec![])).unwrap();
    assert_eq!(query, format!("{}{}", QUERY_HEAD, QUERY_TAIL));
    assert_eq!(query.matches("AND").count(), 1);
    assert!(query.contains("AND event_type = 0"));
    assert!(!query.contains(" IN ("));
    assert!(query.contains("LIMIT 40"));
    assert!(query.contains("ORDER BY offset ASC"));
}

#[test]
fn default_filter_adds_no_condition() {
    let query = forge_account_upadate_event_query(&ShardFilter::default()).unwrap();
    assert_eq!(query, format!("{}{}", QUERY_HEAD, QUERY_TAIL));
}

#[test]
fn transaction_keys_are_not_pushed_down() {
    let only_tx = ShardFilter {
        tx_account_keys: vec![vec![1, 2, 3]],
        account_owners: vec![],
        account_pubkeys: vec![],
    };
    assert_eq!(
        forge_account_upadate_event_query(&only_tx).unwrap(),
        format!("{}{}", QUERY_HEAD, QUERY_TAIL)
    );
}

#[test]
fn one_owner_and_two_pubkeys() {
    let owner = vec![0x11u8; 32];
    let first = vec![0xa0u8, 0x01];
    let second = vec![0x0bu8, 0xff, 0x10];
    let query = forge_account_upadate_event_query(&filter(
        vec![owner.clone()],
        vec![first.clone(), second.clone()],
    ))
    .unwrap();
    let owner_clause = format!("AND owner IN (0x{})", "11".repeat(32));
    let pubkey_clause = "AND pubkey IN (0xa001, 0x0bff10)";
    assert_eq!(query.matches(owner_clause.as_str()).count(), 1);
    assert_eq!(query.matches(pubkey_clause).count(), 1);
    assert!(query.find(owner_clause.as_str()).unwrap() < query.find(pubkey_clause).unwrap());
    assert_eq!(query.matches("AND").count(), 3);
    assert_eq!(
        query,
        format!("{}{} {}{}", QUERY_HEAD, owner_clause, pubkey_clause, QUERY_TAIL)
    );
}

#[test]
fn owners_only() {
    let query =
        forge_account_upadate_event_query(&filter(vec![vec![0xde, 0xad], vec![0xbe, 0xef]], vec![]))
            .unwrap();
    assert_eq!(
        query,
        format!("{}AND owner IN (0xdead, 0xbeef){}", QUERY_HEAD, QUERY_TAIL)
    );
    assert!(!query.contains("pubkey IN"));
}

#[test]
fn pubkeys_only() {
    let query = forge_account_upadate_event_query(&filter(vec![], vec![vec![0x00]])).unwrap();
    assert_eq!(query, format!("{}AND pubkey IN (0x00){}", QUERY_HEAD, QUERY_TAIL));
    assert!(!query.contains("owner IN"));
}

#[test]
fn three_keys_keep_their_order() {
    let query = forge_account_upadate_event_query(&filter(
        vec![],
        vec![vec![3], vec![1], vec![2]],
    ))
    .unwrap();
    assert!(query.contains("AND pubkey IN (0x03, 0x01, 0x02)"));
}

#[test]
fn renderable_filters_have_no_empty_owner_or_pubkey() {
    assert!(filter(vec![], vec![]).is_renderable());
    assert!(filter(vec![vec![1]], vec![vec![2], vec![3]]).is_renderable());
    assert!(!filter(vec![vec![]], vec![]).is_renderable());
    assert!(!filter(vec![vec![1]], vec![vec![2], vec![]]).is_renderable());
    let empty_tx_key = ShardFilter {
        tx_account_keys: vec![vec![]],
        account_owners: vec![],
        account_pubkeys: vec![],
    };
    assert!(empty_tx_key.is_renderable());
}

#[test]
fn account_update_query_is_built_from_the_shared_parts() {
    let query = forge_account_upadate_event_query(&filter(vec![], vec![])).unwrap();
    assert!(query.contains(LOG_PROJECTION));
    assert!(query.contains(LOG_PRIMARY_KEY_CONDITION));
    assert!(query.contains("FROM log"));
    assert!(query.contains("ALLOW FILTERING"));
}

#[test]
fn fixed_queries() {
    assert_eq!(GET_NEW_TRANSACTION_EVENT, "\n    SELECT\n        shard_id,\n        period,\n        producer_id,\n        offset,\n        slot,\n        event_type,\n\n        pubkey,\n        lamports,\n        owner,\n        executable,\n        rent_epoch,\n        write_version,\n        data,\n        txn_signature,\n\n        signature,\n        signatures,\n        num_required_signatures,\n        num_readonly_signed_accounts,\n        num_readonly_unsigned_accounts,\n        account_keys,\n        recent_blockhash,\n        instructions,\n        versioned,\n        address_table_lookups,\n        meta,\n        is_vote,\n        tx_index\n    FROM log\n    WHERE producer_id = ? and shard_id = ? and offset > ? and period = ?\n    and event_type = 1\n    ORDER BY offset ASC\n    ALLOW FILTERING\n");
    assert_eq!(PRODUCER_SHARD_PERIOD_COMMIT_EXISTS, "\n    SELECT\n        producer_id\n    FROM producer_period_commit_log\n    WHERE \n        producer_id = ?\n        AND shard_id = ?\n        AND period = ?\n");
    assert_eq!(LOG_PRIMARY_KEY_CONDITION, "\n    producer_id = ? and shard_id = ? and offset > ? and period = ?\n");
    assert_eq!(LOG_PROJECTION.matches(',').count(), 26);
}
