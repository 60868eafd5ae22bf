use std::collections::VecDeque;

use shard_iterator::filter::ShardFilter;
use shard_iterator::iterator::{Dispatch, Progress, ShardIterator, Signal};
use shard_iterator::model::ShardIteratorError;
use shard_iterator::query::{forge_account_upadate_event_query, GET_NEW_TRANSACTION_EVENT};
use shard_iterator::slot::SlotState;
use shard_iterator::state::ShardIteratorState;
use shard_iterator::types::{
    AccountUpdate, BlockchainEvent, BlockchainEventType, EventPayload, NewTransaction,
    TransactionMeta,
};

const PRODUCER: [u8; 1] = [7];
const SHARD: i16 = 3;

fn transaction(offset: i64, account_keys: Vec<Vec<u8>>) -> BlockchainEvent {
    BlockchainEvent {
        shard_id: SHARD,
        period: offset / 80,
        producer_id: PRODUCER,
        offset,
        slot: 1000 + offset,
        payload: EventPayload::NewTransaction(NewTransaction {
            signature: vec![9; 64],
            signatures: vec![vec![9; 64]],
            num_required_signatures: 1,
            num_readonly_signed_accounts: 0,
            num_readonly_unsigned_accounts: 1,
            account_keys,
            recent_blockhash: vec![5; 32],
            instructions: vec![],
            versioned: false,
            address_table_lookups: vec![],
            meta: TransactionMeta {
                error: None,
                fee: 5000,
                pre_balances: vec![10],
                post_balances: vec![5],
                log_messages: None,
            },
            is_vote: false,
            tx_index: offset,
        }),
    }
}

fn account_update(offset: i64) -> BlockchainEvent {
    BlockchainEvent {
        shard_id: SHARD,
        period: offset / 80,
        producer_id: PRODUCER,
        offset,
        slot: 1000 + offset,
        payload: EventPayload::AccountUpdate(AccountUpdate {
            pubkey: vec![1; 32],
            lamports: 42,
            owner: vec![2; 32],
            executable: false,
            rent_epoch: 0,
            write_version: 1,
            data: vec![1, 2, 3],
            txn_signature: None,
        }),
    }
}

fn batch(offsets: &[i64]) -> VecDeque<BlockchainEvent> {
    offsets.iter().map(|offset| transaction(*offset, vec![vec![1]])).collect()
}

fn transactions_from(offset: i64) -> ShardIterator {
    ShardIterator::new(PRODUCER, SHARD, offset, BlockchainEventType::NewTransaction, None).unwrap()
}

fn nothing(progress: &Progress) -> bool {
    progress.event.is_none() && matches!(progress.dispatch, Dispatch::Nothing)
}

/// Polls an iterator in `Empty` and returns the fetch it asks for.
fn poll_for_fetch(
    iterator: &mut ShardIterator,
) -> shard_iterator::iterator::MicroBatchRequest {
    let progress = iterator.try_next().unwrap();
    assert!(progress.event.is_none());
    match progress.dispatch {
        Dispatch::MicroBatch(request) => request,
        other => panic!("expected a fetch, got {:?}", other),
    }
}

/// Polls an iterator and returns the commit check it asks for.
fn poll_for_commit_check(
    iterator: &mut ShardIterator,
) -> shard_iterator::iterator::PeriodCommitRequest {
    let progress = iterator.try_next().unwrap();
    assert!(progress.event.is_none());
    match progress.dispatch {
        Dispatch::PeriodCommit(request) => request,
        other => panic!("expected a commit check, got {:?}", other),
    }
}

#[test]
fn new_iterator_is_empty_at_the_starting_offset() {
    let iterator = transactions_from(79);
    assert!(matches!(iterator.state(), ShardIteratorState::Empty(79)));
    assert!(iterator.state().is_empty());
    assert_eq!(iterator.state().last_offset(), 79);
    assert_eq!(iterator.last_offset(), 79);
    assert_eq!(iterator.last_period_confirmed(), -1);
    assert_eq!(iterator.producer_id(), PRODUCER);
    assert_eq!(iterator.shard_id(), SHARD);
    assert_eq!(iterator.event_type(), BlockchainEventType::NewTransaction);
    assert_eq!(iterator.fetch_query(), GET_NEW_TRANSACTION_EVENT);
    assert_eq!(iterator.filter(), &ShardFilter::default());
}

#[test]
fn new_iterator_counts_the_period_before_its_own_as_confirmed() {
    assert_eq!(transactions_from(0).last_period_confirmed(), -1);
    assert_eq!(transactions_from(80).last_period_confirmed(), 0);
    assert_eq!(transactions_from(400).last_period_confirmed(), 4);
    assert_eq!(transactions_from(-1).last_period_confirmed(), -1);
    assert_eq!(transactions_from(i64::MIN).last_period_confirmed(), i64::MIN / 80 - 1);
}

#[test]
fn new_iterator_on_account_updates_forges_its_query() {
    let filter = ShardFilter {
        tx_account_keys: vec![vec![9]],
        account_owners: vec![vec![0xaa]],
        account_pubkeys: vec![vec![0xbb], vec![0xcc]],
    };
    let iterator = ShardIterator::new(
        PRODUCER,
        SHARD,
        5,
        BlockchainEventType::AccountUpdate,
        Some(filter.clone()),
    )
    .unwrap();
    assert_eq!(iterator.fetch_query(), forge_account_upadate_event_query(&filter).unwrap());
    assert!(iterator.fetch_query().contains("AND owner IN (0xaa) AND pubkey IN (0xbb, 0xcc)"));
    assert_eq!(iterator.filter(), &filter);
    assert_eq!(iterator.event_type(), BlockchainEventType::AccountUpdate);

    let plain =
        ShardIterator::new(PRODUCER, SHARD, 5, BlockchainEventType::AccountUpdate, None).unwrap();
    assert_eq!(
        plain.fetch_query(),
        forge_account_upadate_event_query(&ShardFilter::default()).unwrap()
    );
}

#[test]
fn new_iterator_rejects_an_empty_owner_or_pubkey() {
    let empty_owner = ShardFilter {
        tx_account_keys: vec![],
        account_owners: vec![vec![1], vec![]],
        account_pubkeys: vec![],
    };
    let built = ShardIterator::new(
        PRODUCER,
        SHARD,
        5,
        BlockchainEventType::AccountUpdate,
        Some(empty_owner.clone()),
    );
    assert_eq!(built.err(), Some(ShardIteratorError::EmptyFilterKey));

    let empty_pubkey = ShardFilter {
        tx_account_keys: vec![],
        account_owners: vec![],
        account_pubkeys: vec![vec![]],
    };
    let built = ShardIterator::new(
        PRODUCER,
        SHARD,
        5,
        BlockchainEventType::AccountUpdate,
        Some(empty_pubkey),
    );
    assert_eq!(built.err(), Some(ShardIteratorError::EmptyFilterKey));

    // The transaction query takes nothing from the filter.
    let built = ShardIterator::new(
        PRODUCER,
        SHARD,
        5,
        BlockchainEventType::NewTransaction,
        Some(empty_owner),
    );
    assert!(built.is_ok());
}

#[test]
fn error_messages() {
    assert_eq!(ShardIteratorError::EmptyFilterKey.message(), "byte slice is empty");
    assert_eq!(ShardIteratorError::MicroBatchLost.message(), "failed to receive micro batch");
    assert_eq!(ShardIteratorError::PeriodCommitLost.message(), "fail");
}

#[test]
fn empty_iterator_asks_for_a_fetch() {
    let mut iterator = transactions_from(10);
    let request = poll_for_fetch(&mut iterator);
    assert_eq!(request.producer_id, PRODUCER);
    assert_eq!(request.shard_id, SHARD);
    assert_eq!(request.last_offset, 10);
    assert_eq!(request.period, 0);
    assert!(matches!(iterator.state(), ShardIteratorState::Loading(10, _)));
    assert_eq!(iterator.last_offset(), 10);
}

#[test]
fn loading_stays_until_the_fetch_answers() {
    let mut iterator = transactions_from(10);
    let request = poll_for_fetch(&mut iterator);
    for _ in 0..5 {
        let progress = iterator.try_next().unwrap();
        assert!(nothing(&progress));
        assert!(matches!(iterator.state(), ShardIteratorState::Loading(10, _)));
    }
    assert!(request.reply.send(batch(&[11, 12])).is_ok());
    let progress = iterator.try_next().unwrap();
    assert!(nothing(&progress));
    match iterator.state() {
        ShardIteratorState::Loaded(10, rows) => assert_eq!(rows, &batch(&[11, 12])),
        other => panic!("expected Loaded, got {:?}", other),
    }
}

#[test]
fn loading_fails_when_the_fetch_is_lost() {
    let mut iterator = transactions_from(10);
    let request = poll_for_fetch(&mut iterator);
    drop(request);
    assert_eq!(iterator.try_next().err(), Some(ShardIteratorError::MicroBatchLost));
    assert!(matches!(iterator.state(), ShardIteratorState::Empty(10)));
}

#[test]
fn start_at_79_fetches_period_1_and_an_empty_batch_leads_to_confirming() {
    let mut iterator = transactions_from(79);
    let request = poll_for_fetch(&mut iterator);
    assert_eq!(request.last_offset, 79);
    assert_eq!(request.period, 1);
    assert!(request.reply.send(VecDeque::new()).is_ok());

    assert!(nothing(&iterator.try_next().unwrap()));
    assert!(matches!(iterator.state(), ShardIteratorState::Loaded(79, _)));

    let asked = poll_for_commit_check(&mut iterator);
    assert!(matches!(iterator.state(), ShardIteratorState::ConfirmingPeriod(79, _)));
    assert!(!iterator.state().is_empty());
    assert_eq!(asked.producer_id, PRODUCER);
    assert_eq!(asked.shard_id, SHARD);
    assert_eq!(asked.period, 0);
    assert_eq!(iterator.last_offset(), 79);
}

#[test]
fn three_rows_up_to_the_period_boundary_lead_to_waiting() {
    let mut iterator = transactions_from(76);
    let request = poll_for_fetch(&mut iterator);
    assert_eq!(request.period, 0);
    assert!(request.reply.send(batch(&[77, 78, 79])).is_ok());
    assert!(nothing(&iterator.try_next().unwrap()));

    for offset in [77i64, 78, 79] {
        let progress = iterator.try_next().unwrap();
        assert_eq!(progress.event, Some(transaction(offset, vec![vec![1]])));
        assert!(matches!(progress.dispatch, Dispatch::Nothing));
        assert_eq!(iterator.last_offset(), offset);
        assert!(matches!(iterator.state(), ShardIteratorState::Streaming(_, _)));
    }

    let asked = poll_for_commit_check(&mut iterator);
    assert!(matches!(iterator.state(), ShardIteratorState::WaitingEndOfPeriod(79, _)));
    assert_eq!(asked.period, 0);
}

#[test]
fn batch_that_ends_inside_a_period_leads_to_empty() {
    let mut iterator = transactions_from(10);
    let request = poll_for_fetch(&mut iterator);
    assert!(request.reply.send(batch(&[11, 20])).is_ok());
    assert!(nothing(&iterator.try_next().unwrap()));
    assert_eq!(iterator.try_next().unwrap().event.unwrap().offset, 11);
    assert_eq!(iterator.try_next().unwrap().event.unwrap().offset, 20);
    assert!(nothing(&iterator.try_next().unwrap()));
    assert!(matches!(iterator.state(), ShardIteratorState::Empty(20)));
    let request = poll_for_fetch(&mut iterator);
    assert_eq!(request.last_offset, 20);
    assert_eq!(request.period, 0);
}

#[test]
fn waiting_asks_again_until_the_period_is_committed() {
    let mut iterator = transactions_from(78);
    let request = poll_for_fetch(&mut iterator);
    assert!(request.reply.send(batch(&[79])).is_ok());
    assert!(nothing(&iterator.try_next().unwrap()));
    assert_eq!(iterator.try_next().unwrap().event.unwrap().offset, 79);
    let mut asked = poll_for_commit_check(&mut iterator);

    for _ in 0..4 {
        // Unanswered: nothing happens.
        assert!(nothing(&iterator.try_next().unwrap()));
        assert!(matches!(iterator.state(), ShardIteratorState::WaitingEndOfPeriod(79, _)));
        // Answered with no: the check is asked again.
        assert!(asked.reply.send(false).is_ok());
        asked = poll_for_commit_check(&mut iterator);
        assert_eq!(asked.period, 0);
        assert!(matches!(iterator.state(), ShardIteratorState::WaitingEndOfPeriod(79, _)));
        assert_eq!(iterator.last_period_confirmed(), -1);
        assert_eq!(iterator.last_offset(), 79);
    }

    assert!(asked.reply.send(true).is_ok());
    assert!(nothing(&iterator.try_next().unwrap()));
    assert!(matches!(iterator.state(), ShardIteratorState::Empty(79)));
    assert_eq!(iterator.last_period_confirmed(), 0);

    let request = poll_for_fetch(&mut iterator);
    assert_eq!(request.last_offset, 79);
    assert_eq!(request.period, 1);
}

#[test]
fn waiting_fails_when_the_commit_check_is_lost() {
    let mut iterator = transactions_from(78);
    iterator.warm(batch(&[79]));
    assert_eq!(iterator.try_next().unwrap().event.unwrap().offset, 79);
    let asked = poll_for_commit_check(&mut iterator);
    drop(asked);
    assert_eq!(iterator.try_next().err(), Some(ShardIteratorError::PeriodCommitLost));
    assert!(matches!(iterator.state(), ShardIteratorState::Empty(79)));
}

#[test]
fn confirming_goes_back_to_empty_whatever_the_answer() {
    // Not committed: nothing is recorded, and the same fetch is asked again.
    let mut iterator = transactions_from(10);
    let request = poll_for_fetch(&mut iterator);
    assert!(request.reply.send(VecDeque::new()).is_ok());
    assert!(nothing(&iterator.try_next().unwrap()));
    let asked = poll_for_commit_check(&mut iterator);
    assert!(nothing(&iterator.try_next().unwrap()));
    assert!(matches!(iterator.state(), ShardIteratorState::ConfirmingPeriod(10, _)));
    assert!(asked.reply.send(false).is_ok());
    assert!(nothing(&iterator.try_next().unwrap()));
    assert!(matches!(iterator.state(), ShardIteratorState::Empty(10)));
    assert_eq!(iterator.last_period_confirmed(), -1);
    let request = poll_for_fetch(&mut iterator);
    assert_eq!((request.last_offset, request.period), (10, 0));

    // Committed: the period is recorded.
    assert!(request.reply.send(VecDeque::new()).is_ok());
    assert!(nothing(&iterator.try_next().unwrap()));
    let asked = poll_for_commit_check(&mut iterator);
    assert!(asked.reply.send(true).is_ok());
    assert!(nothing(&iterator.try_next().unwrap()));
    assert!(matches!(iterator.state(), ShardIteratorState::Empty(10)));
    assert_eq!(iterator.last_period_confirmed(), 0);
}

#[test]
fn confirming_fails_when_the_commit_check_is_lost() {
    let mut iterator = transactions_from(10);
    let request = poll_for_fetch(&mut iterator);
    assert!(request.reply.send(VecDeque::new()).is_ok());
    assert!(nothing(&iterator.try_next().unwrap()));
    let asked = poll_for_commit_check(&mut iterator);
    drop(asked);
    assert_eq!(iterator.try_next().err(), Some(ShardIteratorError::PeriodCommitLost));
    assert!(matches!(iterator.state(), ShardIteratorState::Empty(10)));
    assert_eq!(iterator.last_period_confirmed(), -1);
}

#[test]
fn empty_fetch_in_a_confirmed_period_skips_to_its_last_offset() {
    let mut iterator = transactions_from(10);
    let request = poll_for_fetch(&mut iterator);
    assert!(request.reply.send(VecDeque::new()).is_ok());
    assert!(nothing(&iterator.try_next().unwrap()));
    let asked = poll_for_commit_check(&mut iterator);
    assert!(asked.reply.send(true).is_ok());
    assert!(nothing(&iterator.try_next().unwrap()));
    assert_eq!(iterator.last_period_confirmed(), 0);

    // The next empty fetch of period 0 needs no commit asked.
    let request = poll_for_fetch(&mut iterator);
    assert!(request.reply.send(VecDeque::new()).is_ok());
    assert!(nothing(&iterator.try_next().unwrap()));
    assert!(matches!(iterator.state(), ShardIteratorState::Loaded(10, _)));
    let progress = iterator.try_next().unwrap();
    assert!(nothing(&progress));
    assert!(matches!(iterator.state(), ShardIteratorState::Empty(79)));
    assert_eq!(iterator.last_offset(), 79);
    assert_eq!(iterator.last_period_confirmed(), 0);

    // And the iterator goes on with period 1.
    let request = poll_for_fetch(&mut iterator);
    assert_eq!((request.last_offset, request.period), (79, 1));
}

#[test]
fn an_iterator_behind_the_confirmed_period_skips_without_asking() {
    // An iterator that starts at 80 counts period 0 as confirmed.
    let mut iterator = transactions_from(80);
    assert_eq!(iterator.last_period_confirmed(), 0);
    // A row of period 0 takes the offset back; the period stays confirmed.
    iterator.warm(batch(&[5]));
    assert_eq!(iterator.try_next().unwrap().event.unwrap().offset, 5);
    assert!(nothing(&iterator.try_next().unwrap()));
    assert!(matches!(iterator.state(), ShardIteratorState::Empty(5)));
    let request = poll_for_fetch(&mut iterator);
    assert!(request.reply.send(VecDeque::new()).is_ok());
    assert!(nothing(&iterator.try_next().unwrap()));
    assert!(nothing(&iterator.try_next().unwrap()));
    assert!(matches!(iterator.state(), ShardIteratorState::Empty(79)));
}

#[test]
fn five_rows_of_one_period_come_once_and_in_order() {
    let log = [3i64, 4, 10, 11, 50];
    let mut iterator = transactions_from(2);
    let mut delivered: Vec<i64> = Vec::new();
    let mut committed_asked = 0;
    for _ in 0..60 {
        let progress = iterator.try_next().unwrap();
        if let Some(event) = progress.event {
            assert_eq!(iterator.last_offset(), event.offset);
            delivered.push(event.offset);
        }
        match progress.dispatch {
            Dispatch::Nothing => {}
            Dispatch::MicroBatch(request) => {
                assert_eq!(request.last_offset, iterator.last_offset());
                // The storage answers with the rows of the period after the
                // offset, two at a time.
                let rows: Vec<i64> = log
                    .iter()
                    .copied()
                    .filter(|offset| *offset > request.last_offset && offset / 80 == request.period)
                    .take(2)
                    .collect();
                assert!(request.reply.send(batch(&rows)).is_ok());
            }
            Dispatch::PeriodCommit(request) => {
                assert_eq!(request.period, 0);
                committed_asked += 1;
                assert!(request.reply.send(false).is_ok());
            }
        }
    }
    assert_eq!(delivered, log.to_vec());
    assert!(committed_asked > 0);
    assert_eq!(iterator.last_offset(), 50);
}

#[test]
fn filtered_rows_are_dropped_and_the_offset_still_advances() {
    let filter = ShardFilter {
        tx_account_keys: vec![vec![42]],
        account_owners: vec![],
        account_pubkeys: vec![],
    };
    let rows: VecDeque<BlockchainEvent> = vec![
        transaction(11, vec![vec![42]]),
        transaction(12, vec![vec![1]]),
        transaction(13, vec![vec![2], vec![42]]),
        transaction(14, vec![]),
    ]
    .into();

    let mut filtered =
        ShardIterator::new(PRODUCER, SHARD, 10, BlockchainEventType::NewTransaction, Some(filter))
            .unwrap();
    let mut plain = transactions_from(10);
    filtered.warm(rows.clone());
    plain.warm(rows.clone());

    let mut kept = Vec::new();
    for offset in [11i64, 12, 13, 14] {
        let with_filter = filtered.try_next().unwrap();
        let without = plain.try_next().unwrap();
        assert_eq!(without.event.map(|event| event.offset), Some(offset));
        assert_eq!(filtered.last_offset(), offset);
        assert_eq!(plain.last_offset(), offset);
        assert!(matches!(filtered.state(), ShardIteratorState::Streaming(_, _)));
        if let Some(event) = with_filter.event {
            kept.push(event.offset);
        }
    }
    assert_eq!(kept, vec![11, 13]);
    assert!(nothing(&filtered.try_next().unwrap()));
    assert!(nothing(&plain.try_next().unwrap()));
    assert!(matches!(filtered.state(), ShardIteratorState::Empty(14)));
    assert!(matches!(plain.state(), ShardIteratorState::Empty(14)));
}

#[test]
fn account_updates_pass_the_residual_filter() {
    let filter = ShardFilter {
        tx_account_keys: vec![vec![42]],
        account_owners: vec![vec![2; 32]],
        account_pubkeys: vec![],
    };
    let mut iterator =
        ShardIterator::new(PRODUCER, SHARD, 0, BlockchainEventType::AccountUpdate, Some(filter))
            .unwrap();
    iterator.warm(vec![account_update(1), account_update(2)].into());
    assert_eq!(iterator.try_next().unwrap().event, Some(account_update(1)));
    assert_eq!(iterator.try_next().unwrap().event, Some(account_update(2)));
}

#[test]
fn warm_installs_the_batch_only_in_empty() {
    let mut iterator = transactions_from(10);
    iterator.warm(batch(&[11, 12]));
    match iterator.state() {
        ShardIteratorState::Streaming(10, rows) => assert_eq!(rows, &batch(&[11, 12])),
        other => panic!("expected Streaming, got {:?}", other),
    }
    assert_eq!(iterator.last_offset(), 10);
    // The first poll already has a row.
    assert_eq!(iterator.try_next().unwrap().event.unwrap().offset, 11);

    // Not empty any more: a second batch is dropped.
    iterator.warm(batch(&[99]));
    match iterator.state() {
        ShardIteratorState::Streaming(11, rows) => assert_eq!(rows, &batch(&[12])),
        other => panic!("expected Streaming, got {:?}", other),
    }

    let mut loading = transactions_from(10);
    let _request = poll_for_fetch(&mut loading);
    loading.warm(batch(&[11]));
    assert!(matches!(loading.state(), ShardIteratorState::Loading(10, _)));
}

#[test]
fn warm_with_an_empty_batch() {
    let mut inside = transactions_from(10);
    inside.warm(VecDeque::new());
    assert!(matches!(inside.state(), ShardIteratorState::Streaming(10, _)));
    assert!(nothing(&inside.try_next().unwrap()));
    assert!(matches!(inside.state(), ShardIteratorState::Empty(10)));

    let mut at_the_end = transactions_from(79);
    at_the_end.warm(VecDeque::new());
    let asked = poll_for_commit_check(&mut at_the_end);
    assert_eq!(asked.period, 0);
    assert!(matches!(at_the_end.state(), ShardIteratorState::WaitingEndOfPeriod(79, _)));
}

#[test]
fn advance_takes_the_signal_as_an_argument() {
    let mut iterator = transactions_from(10);
    let progress = iterator.advance(Signal::Nothing).unwrap();
    assert!(matches!(progress.dispatch, Dispatch::MicroBatch(_)));
    assert!(nothing(&iterator.advance(Signal::Nothing).unwrap()));
    assert!(matches!(iterator.state(), ShardIteratorState::Loading(10, _)));

    assert!(nothing(&iterator.advance(Signal::MicroBatch(batch(&[11]))).unwrap()));
    assert!(matches!(iterator.state(), ShardIteratorState::Loaded(10, _)));

    let progress = iterator.advance(Signal::Nothing).unwrap();
    assert_eq!(progress.event, Some(transaction(11, vec![vec![1]])));
    assert!(matches!(iterator.state(), ShardIteratorState::Streaming(11, _)));

    assert!(nothing(&iterator.advance(Signal::Nothing).unwrap()));
    assert!(matches!(iterator.state(), ShardIteratorState::Empty(11)));

    let _ = iterator.advance(Signal::Nothing).unwrap();
    assert!(nothing(&iterator.advance(Signal::MicroBatch(VecDeque::new())).unwrap()));
    let progress = iterator.advance(Signal::Nothing).unwrap();
    match progress.dispatch {
        Dispatch::PeriodCommit(request) => assert_eq!(request.period, 0),
        other => panic!("expected a commit check, got {:?}", other),
    }
    assert!(matches!(iterator.state(), ShardIteratorState::ConfirmingPeriod(11, _)));
    assert!(nothing(&iterator.advance(Signal::Nothing).unwrap()));
    assert!(matches!(iterator.state(), ShardIteratorState::ConfirmingPeriod(11, _)));
    assert!(nothing(&iterator.advance(Signal::PeriodCommit(true)).unwrap()));
    assert!(matches!(iterator.state(), ShardIteratorState::Empty(11)));
    assert_eq!(iterator.last_period_confirmed(), 0);
}

#[test]
fn advance_reports_a_closed_slot() {
    let mut iterator = transactions_from(10);
    let _ = iterator.advance(Signal::Nothing).unwrap();
    assert_eq!(
        iterator.advance(Signal::Closed).err(),
        Some(ShardIteratorError::MicroBatchLost)
    );
    assert!(matches!(iterator.state(), ShardIteratorState::Empty(10)));

    let mut iterator = transactions_from(79);
    iterator.warm(VecDeque::new());
    let _ = iterator.advance(Signal::Nothing).unwrap();
    assert!(matches!(iterator.state(), ShardIteratorState::WaitingEndOfPeriod(79, _)));
    assert_eq!(
        iterator.advance(Signal::Closed).err(),
        Some(ShardIteratorError::PeriodCommitLost)
    );
    assert!(matches!(iterator.state(), ShardIteratorState::Empty(79)));
}

#[test]
fn offsets_next_to_the_ends_of_the_range() {
    let mut iterator = transactions_from(i64::MAX);
    let request = poll_for_fetch(&mut iterator);
    assert_eq!(request.last_offset, i64::MAX);
    assert_eq!(request.period, i64::MAX / 80);
    assert!(request.reply.send(VecDeque::new()).is_ok());
    assert!(nothing(&iterator.try_next().unwrap()));
    let asked = poll_for_commit_check(&mut iterator);
    assert_eq!(asked.period, i64::MAX / 80);
    assert!(asked.reply.send(true).is_ok());
    assert!(nothing(&iterator.try_next().unwrap()));
    let request = poll_for_fetch(&mut iterator);
    assert!(request.reply.send(VecDeque::new()).is_ok());
    assert!(nothing(&iterator.try_next().unwrap()));
    assert!(nothing(&iterator.try_next().unwrap()));
    assert!(matches!(iterator.state(), ShardIteratorState::Empty(i64::MAX)));

    let mut iterator = transactions_from(-1);
    let request = poll_for_fetch(&mut iterator);
    assert_eq!((request.last_offset, request.period), (-1, 0));
}

#[test]
fn signal_of_a_fetch_slot() {
    assert!(matches!(Signal::of_micro_batch(SlotState::Vacant), Signal::Nothing));
    assert!(matches!(Signal::of_micro_batch(SlotState::Closed), Signal::Closed));
    match Signal::of_micro_batch(SlotState::Filled(batch(&[4, 9]))) {
        Signal::MicroBatch(rows) => assert_eq!(rows, batch(&[4, 9])),
        other => panic!("expected a batch, got {:?}", other),
    }
}

#[test]
fn signal_of_a_commit_slot() {
    assert!(matches!(Signal::of_period_commit(SlotState::Vacant), Signal::Nothing));
    assert!(matches!(Signal::of_period_commit(SlotState::Closed), Signal::Closed));
    assert!(matches!(Signal::of_period_commit(SlotState::Filled(true)), Signal::PeriodCommit(true)));
    assert!(matches!(
        Signal::of_period_commit(SlotState::Filled(false)),
        Signal::PeriodCommit(false)
    ));
}
