//! What holds of every iterator, proved from the state machine.

use vstd::prelude::*;
use crate::filter::ShardFilterView;
use crate::model::{ShardIteratorView, SignalView};
use crate::period::{period_last_offset, shard_period};
use crate::state::StateView;
use crate::types::{BlockchainEvent, BlockchainEventType};

verus! {

/// The residual decision depends on nothing but the kind of the event, its
/// account keys and the account keys of the filter: two events and two
/// filters that agree on these get the same decision.
pub proof fn lemma_residual_decision_is_a_function(
    first_filter: ShardFilterView,
    first: BlockchainEvent,
    second_filter: ShardFilterView,
    second: BlockchainEvent,
)
    requires
        first.kind() == second.kind(),
        first.account_keys() == second.account_keys(),
        first_filter.tx_account_keys == second_filter.tx_account_keys,
    ensures
        first_filter.keeps(first) == second_filter.keeps(second),
        first_filter.residual(Some(first)) is Some == second_filter.residual(Some(second)) is Some,
{
}

/// An account update is kept by every filter, and a filter without account
/// keys keeps every event.
pub proof fn lemma_residual_passes_through(filter: ShardFilterView, event: BlockchainEvent)
    requires
        event.kind() == BlockchainEventType::AccountUpdate || filter.tx_account_keys.len() == 0,
    ensures
        filter.residual(Some(event)) == Some(event),
{
}

/// The filter never steers the iterator: with any other filter a poll leads
/// to the same state, confirms the same period, takes the same row and asks
/// for the same operation. The filter only decides whether the row that was
/// taken is handed out.
pub proof fn lemma_filter_never_moves_the_cursor(
    iterator: ShardIteratorView,
    other: ShardFilterView,
    signal: SignalView,
)
    ensures
        ({
            let step = iterator.step(signal);
            let twin = (ShardIteratorView { filter: other, ..iterator }).step(signal);
            &&& twin.next == ShardIteratorView { filter: other, ..step.next }
            &&& twin.row == step.row
            &&& twin.dispatch == step.dispatch
            &&& twin.failure == step.failure
            &&& step.next.filter == iterator.filter
        }),
{
}

/// While the commit record of the period is absent and the fetches come back
/// empty, the iterator keeps polling where it is.
///
/// Take an iterator that has no row in memory and whose period is not
/// confirmed, and a signal that brings no row and no commit. Then the poll
/// does not fail and takes no row, the offset stays, the period stays
/// unconfirmed and no row appears. And the polling goes on. A poll that finds
/// the pending operation unanswered changes nothing. Any other poll asks for
/// a new operation or leaves none pending; where none is pending, the poll
/// asks for one or goes to `Empty`, and in `Empty` it asks for a fetch. A
/// commit check at the end of a period that is answered with no is asked
/// again at once.
pub proof fn lemma_uncommitted_period_keeps_polling(
    iterator: ShardIteratorView,
    signal: SignalView,
)
    requires
        iterator.state.rows().len() == 0,
        iterator.last_period_confirmed < shard_period(iterator.state.last_offset()),
        iterator.accepts(signal),
        signal.brings_nothing(),
    ensures
        ({
            let step = iterator.step(signal);
            &&& step.failure is None
            &&& step.row is None
            &&& step.next.state.last_offset() == iterator.state.last_offset()
            &&& step.next.last_period_confirmed == iterator.last_period_confirmed
            &&& step.next.state.rows().len() == 0
            &&& iterator.state.awaits() && signal is Nothing ==> step.next == iterator
            &&& !(iterator.state.awaits() && signal is Nothing) ==> step.dispatch !is Nothing
                || !step.next.state.awaits()
            &&& !iterator.state.awaits() ==> step.dispatch !is Nothing || step.next.state is Empty
            &&& iterator.state is WaitingEndOfPeriod && signal is PeriodCommit ==> step.next.state
                is WaitingEndOfPeriod && step.dispatch == iterator.commit_check(
                iterator.state.last_offset(),
            )
            &&& step.next.state is Empty ==> step.next.step(SignalView::Nothing).dispatch
                == step.next.fetch(iterator.state.last_offset())
        }),
{
}

/// However long the commit record stays absent and the fetches stay empty,
/// the iterator neither fails nor moves: after any number of such polls the
/// offset is the same, the period is still unconfirmed, and no row was taken.
pub proof fn lemma_uncommitted_period_holds_the_cursor(
    iterator: ShardIteratorView,
    signals: Seq<SignalView>,
)
    requires
        iterator.state.rows().len() == 0,
        iterator.last_period_confirmed < shard_period(iterator.state.last_offset()),
        iterator.accepts_each(signals),
        forall|i: int| 0 <= i < signals.len() ==> (#[trigger] signals[i]).brings_nothing(),
    ensures
        !iterator.fails_during(signals),
        iterator.after(signals).state.last_offset() == iterator.state.last_offset(),
        iterator.after(signals).last_period_confirmed == iterator.last_period_confirmed,
        iterator.after(signals).state.rows().len() == 0,
        iterator.rows_taken(signals).len() == 0,
    decreases signals.len(),
{
    if signals.len() > 0 {
        let earlier = signals.drop_last();
        assert forall|i: int| 0 <= i < earlier.len() implies (
        #[trigger] earlier[i]).brings_nothing() by {
            assert(earlier[i] == signals[i]);
        }
        lemma_uncommitted_period_holds_the_cursor(iterator, earlier);
        assert(signals.last() == signals[signals.len() - 1]);
        lemma_uncommitted_period_keeps_polling(iterator.after(earlier), signals.last());
    }
}

/// An iterator that was just built is orderly.
pub proof fn lemma_new_iterator_is_orderly(iterator: ShardIteratorView, offset: int)
    requires
        i64::MIN <= offset <= i64::MAX,
        iterator.state == StateView::Empty(offset),
        iterator.last_period_confirmed == shard_period(offset) - 1,
    ensures
        iterator.orderly(),
{
}

/// The confirmed period never goes back, and neither does the offset.
///
/// Take an orderly iterator and a signal whose batch, if it brings one, is
/// what the fetch that follows the offset of the iterator may return. Then
/// after the poll the iterator is orderly again, its confirmed period and its
/// offset are not smaller than before, a row that is taken lies after the
/// old offset, and a commit that the signal brings is recorded: the
/// confirmed period is then the period of the offset.
pub proof fn lemma_confirmed_period_is_monotonic(iterator: ShardIteratorView, signal: SignalView)
    requires
        iterator.orderly(),
        iterator.accepts(signal),
        signal.follows(iterator.state.last_offset()),
    ensures
        ({
            let step = iterator.step(signal);
            &&& step.next.orderly()
            &&& iterator.last_period_confirmed <= step.next.last_period_confirmed
            &&& iterator.state.last_offset() <= step.next.state.last_offset()
            &&& step.row matches Some(row) ==> iterator.state.last_offset() < row.offset
                && step.next.state.last_offset() == row.offset
            &&& signal == SignalView::PeriodCommit(true) ==> step.next.last_period_confirmed
                == shard_period(iterator.state.last_offset())
        }),
{
    let step = iterator.step(signal);
    let rows = iterator.state.rows();
    if rows.len() > 0 {
        let rest = rows.drop_first();
        assert(iterator.state.last_offset() < rows[0].offset);
        assert forall|i: int| 0 <= i < rest.len() implies rows[0].offset < (
        #[trigger] rest[i]).offset by {
            assert(rest[i] == rows[i + 1]);
        }
        assert forall|i: int, j: int| 0 <= i < j < rest.len() implies (#[trigger] rest[i]).offset
            < (#[trigger] rest[j]).offset by {
            assert(rest[i] == rows[i + 1]);
            assert(rest[j] == rows[j + 1]);
        }
    }
}

/// Over any number of polls the confirmed period and the offset never go
/// back, as long as every batch is one that its fetch may return.
pub proof fn lemma_confirmed_period_never_goes_back(
    iterator: ShardIteratorView,
    signals: Seq<SignalView>,
)
    requires
        iterator.orderly(),
        iterator.accepts_each(signals),
        iterator.follows_each(signals),
    ensures
        iterator.after(signals).orderly(),
        iterator.last_period_confirmed <= iterator.after(signals).last_period_confirmed,
        iterator.state.last_offset() <= iterator.after(signals).state.last_offset(),
    decreases signals.len(),
{
    if signals.len() > 0 {
        lemma_confirmed_period_never_goes_back(iterator, signals.drop_last());
        lemma_confirmed_period_is_monotonic(iterator.after(signals.drop_last()), signals.last());
    }
}

/// An empty fetch in a period that is already confirmed needs no commit
/// check: the iterator goes straight to `Empty` at the last offset of that
/// period and asks for nothing.
pub proof fn lemma_confirmed_period_is_skipped(iterator: ShardIteratorView, signal: SignalView)
    requires
        iterator.state matches StateView::Loaded(offset, rows) && rows.len() == 0 && shard_period(
            offset,
        ) <= iterator.last_period_confirmed,
    ensures
        ({
            let step = iterator.step(signal);
            &&& step.next.state == StateView::Empty(
                period_last_offset(shard_period(iterator.state.last_offset())),
            )
            &&& step.dispatch is Nothing
            &&& step.row is None
            &&& step.failure is None
            &&& step.next.last_period_confirmed == iterator.last_period_confirmed
        }),
{
}

} // verus!
