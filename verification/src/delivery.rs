//! Delivery of a period: an iterator that reads a shard whose rows are all
//! stored hands out every row, once, in the order of their offsets.
//!
//! The storage is described by the log it holds and by what it answers to a
//! fetch; the iterator is the state machine of the model. The lemmas follow an
//! iterator from its first poll on.

use vstd::prelude::*;
use crate::model::{ascends_from, ShardIteratorView, SignalView};
use crate::period::{closes_period, lemma_period_window, next_fetch_period, shard_period};
use crate::state::StateView;
use crate::types::BlockchainEvent;

verus! {

/// Whether `log` can be what a shard holds for an iterator that starts after
/// `start`: its offsets ascend strictly from `start`, and its rows all lie in
/// the period that the first fetch reads.
pub open spec fn one_period_log(log: Seq<BlockchainEvent>, start: int) -> bool {
    &&& -1 <= start <= i64::MAX
    &&& ascends_from(start, log)
    &&& forall|i: int|
        0 <= i < log.len() ==> shard_period((#[trigger] log[i]).offset as int)
            == next_fetch_period(start)
}

/// Whether `rows` is what a storage that holds `log` answers to the fetch
/// that follows `last_offset`, where the rows of `log` lie in `period`.
///
/// The answer starts with the first row of `log` after `last_offset` and goes
/// on without a gap; a row limit may cut it short. It is empty only if the
/// fetch reads another period or no row is left.
pub open spec fn fetched(
    log: Seq<BlockchainEvent>,
    period: int,
    last_offset: int,
    rows: Seq<BlockchainEvent>,
) -> bool {
    exists|first: int| #[trigger] starts_at(log, last_offset, first) && cut_of(log, first, rows) && (
    rows.len() == 0 <==> first == log.len() || next_fetch_period(last_offset) != period)
}

/// Whether `first` is the position of the first row of `log` after
/// `last_offset`.
pub open spec fn starts_at(log: Seq<BlockchainEvent>, last_offset: int, first: int) -> bool {
    &&& 0 <= first <= log.len()
    &&& first > 0 ==> log[first - 1].offset <= last_offset
    &&& first < log.len() ==> last_offset < log[first].offset
}

/// Whether `rows` are the rows of `log` from position `first` on, up to some
/// position.
pub open spec fn cut_of(log: Seq<BlockchainEvent>, first: int, rows: Seq<BlockchainEvent>) -> bool {
    &&& first + rows.len() <= log.len()
    &&& rows == log.subrange(first, first + rows.len())
}

/// Whether `signal` is what a poll finds while a storage that holds `log`
/// serves the iterator: a pending fetch is unanswered or answered with the
/// rows that the storage holds, a pending commit check is unanswered or
/// answered either way, and no slot is closed.
pub open spec fn served(
    log: Seq<BlockchainEvent>,
    period: int,
    iterator: ShardIteratorView,
    signal: SignalView,
) -> bool {
    match signal {
        SignalView::Nothing => true,
        SignalView::Closed => false,
        SignalView::MicroBatch(rows) => fetched(log, period, iterator.state.last_offset(), rows),
        SignalView::PeriodCommit(_) => true,
    }
}

/// Whether each of `signals` is what its poll finds while a storage that
/// holds `log` serves the iterator.
pub open spec fn served_each(
    log: Seq<BlockchainEvent>,
    period: int,
    iterator: ShardIteratorView,
    signals: Seq<SignalView>,
) -> bool
    decreases signals.len(),
{
    signals.len() > 0 ==> served_each(log, period, iterator, signals.drop_last()) && served(
        log,
        period,
        iterator.after(signals.drop_last()),
        signals.last(),
    )
}

/// The offset of an iterator that started after `start` and has taken the
/// first `taken` rows of `log`.
pub open spec fn offset_after(log: Seq<BlockchainEvent>, start: int, taken: int) -> int {
    if taken == 0 {
        start
    } else {
        log[taken - 1].offset as int
    }
}

/// Whether `iterator` can be an iterator that started after `start` and has
/// taken the first `taken` rows of `log`.
///
/// While rows are left, its offset is that of the last row taken; afterwards
/// it is not smaller. The rows in memory are the next rows of the log. While
/// rows are left, the iterator waits for no commit check, and has rows in
/// memory unless its batch is used up.
pub open spec fn on_track(
    log: Seq<BlockchainEvent>,
    start: int,
    iterator: ShardIteratorView,
    taken: int,
) -> bool {
    let offset = iterator.state.last_offset();
    let rows = iterator.state.rows();
    &&& 0 <= taken <= log.len()
    &&& offset <= i64::MAX
    &&& offset_after(log, start, taken) <= offset
    &&& taken < log.len() ==> offset == offset_after(log, start, taken)
    &&& cut_of(log, taken, rows)
    &&& taken < log.len() && rows.len() == 0 ==> iterator.state is Empty || iterator.state
        is Loading || (iterator.state is Streaming && taken > 0)
}

/// How far an iterator that has taken `taken` rows of `log` is from the end:
/// four polls for every row that is left, and the polls that its state needs
/// before the next row.
pub open spec fn distance(log: Seq<BlockchainEvent>, iterator: ShardIteratorView, taken: int) -> int {
    4 * (log.len() - taken) + if iterator.state.rows().len() > 0 {
        0int
    } else if iterator.state is Loading {
        1int
    } else if iterator.state is Empty {
        2int
    } else {
        3int
    }
}

/// Whether the poll that finds `signal` is answered: it does not find the
/// pending operation unanswered.
pub open spec fn answered(iterator: ShardIteratorView, signal: SignalView) -> bool {
    !(iterator.state.awaits() && signal is Nothing)
}

/// The number of answered polls among the polls for `signals`.
pub open spec fn answered_polls(iterator: ShardIteratorView, signals: Seq<SignalView>) -> int
    decreases signals.len(),
{
    if signals.len() == 0 {
        0
    } else {
        answered_polls(iterator, signals.drop_last()) + if answered(
            iterator.after(signals.drop_last()),
            signals.last(),
        ) {
            1int
        } else {
            0int
        }
    }
}

/// In a log whose offsets ascend, the first row after the offset of an
/// iterator on track is the first row that it has not taken.
proof fn lemma_fetch_starts_where_taking_stopped(
    log: Seq<BlockchainEvent>,
    start: int,
    iterator: ShardIteratorView,
    taken: int,
    first: int,
)
    requires
        one_period_log(log, start),
        on_track(log, start, iterator, taken),
        starts_at(log, iterator.state.last_offset(), first),
    ensures
        first == taken,
{
    let offset = iterator.state.last_offset();
    if first < taken {
        assert(log[first].offset <= log[taken - 1].offset) by {
            if first < taken - 1 {
                assert(log[first].offset < log[taken - 1].offset);
            }
        }
    } else if first > taken {
        assert(log[taken].offset <= log[first - 1].offset) by {
            if taken < first - 1 {
                assert(log[taken].offset < log[first - 1].offset);
            }
        }
    }
}

/// While rows are left, the offset of an iterator on track does not close a
/// period once a row was taken, and its next fetch reads the period of the
/// log.
proof fn lemma_rows_left_keep_the_period(
    log: Seq<BlockchainEvent>,
    start: int,
    iterator: ShardIteratorView,
    taken: int,
)
    requires
        one_period_log(log, start),
        on_track(log, start, iterator, taken),
        taken < log.len(),
    ensures
        next_fetch_period(iterator.state.last_offset()) == next_fetch_period(start),
        taken > 0 ==> !closes_period(iterator.state.last_offset()),
{
    if taken > 0 {
        let offset = log[taken - 1].offset as int;
        let next = log[taken].offset as int;
        assert(start < log[taken - 1].offset);
        assert(log[taken - 1].offset < log[taken].offset);
        lemma_period_window(offset);
        lemma_period_window(next);
    }
}

/// One poll of an iterator on track: it does not fail, a row that it takes is
/// the next row of the log, and the iterator stays on track. While rows are
/// left, every answered poll brings the iterator closer to the end.
pub proof fn lemma_poll_takes_the_next_row(
    log: Seq<BlockchainEvent>,
    start: int,
    iterator: ShardIteratorView,
    taken: int,
    signal: SignalView,
)
    requires
        one_period_log(log, start),
        on_track(log, start, iterator, taken),
        iterator.accepts(signal),
        served(log, next_fetch_period(start), iterator, signal),
    ensures
        ({
            let step = iterator.step(signal);
            let count = if step.row is Some {
                taken + 1
            } else {
                taken
            };
            &&& step.failure is None
            &&& step.row matches Some(row) ==> taken < log.len() && row == log[taken]
            &&& on_track(log, start, step.next, count)
            &&& taken < log.len() && answered(iterator, signal) ==> distance(log, step.next, count)
                < distance(log, iterator, taken)
            &&& distance(log, step.next, count) <= distance(log, iterator, taken) || taken
                == log.len()
        }),
{
    let step = iterator.step(signal);
    let offset = iterator.state.last_offset();
    let rows = iterator.state.rows();
    if taken < log.len() {
        lemma_rows_left_keep_the_period(log, start, iterator, taken);
    }
    if offset >= 0 {
        lemma_period_window(offset);
    }
    match iterator.state {
        StateView::Loading(_) => {
            if let SignalView::MicroBatch(found) = signal {
                let first = choose|first: int| #[trigger]
                    starts_at(log, offset, first) && cut_of(log, first, found) && (found.len() == 0
                        <==> first == log.len() || next_fetch_period(offset) != next_fetch_period(
                        start,
                    ));
                lemma_fetch_starts_where_taking_stopped(log, start, iterator, taken, first);
            }
        },
        StateView::Loaded(_, _) | StateView::Streaming(_, _) => {
            if rows.len() > 0 {
                assert(rows[0] == log[taken]);
                assert(rows.drop_first() =~= log.subrange(taken + 1, taken + rows.len()));
                assert(step.next.state.rows() == rows.drop_first());
            } else {
                assert(step.next.state.rows() =~= log.subrange(taken, taken));
            }
        },
        _ => {
            assert(step.next.state.rows() =~= log.subrange(taken, taken));
        },
    }
}

/// The polls of an iterator from its first poll on: none fails, and the rows
/// taken are the first rows of the log, each once and in the order of their
/// offsets. While rows are left, the answered polls are bounded: four for
/// every row, and two.
pub proof fn lemma_rows_come_in_log_order(
    log: Seq<BlockchainEvent>,
    start: int,
    iterator: ShardIteratorView,
    signals: Seq<SignalView>,
)
    requires
        one_period_log(log, start),
        iterator.state == StateView::Empty(start),
        iterator.accepts_each(signals),
        served_each(log, next_fetch_period(start), iterator, signals),
    ensures
        !iterator.fails_during(signals),
        iterator.rows_taken(signals).len() <= log.len(),
        iterator.rows_taken(signals) == log.take(iterator.rows_taken(signals).len() as int),
        on_track(log, start, iterator.after(signals), iterator.rows_taken(signals).len() as int),
        iterator.rows_taken(signals).len() < log.len() ==> answered_polls(iterator, signals)
            + distance(log, iterator.after(signals), iterator.rows_taken(signals).len() as int) <= 4
            * log.len() + 2,
    decreases signals.len(),
{
    if signals.len() == 0 {
        assert(iterator.state.rows() =~= log.subrange(0, 0));
        assert(iterator.rows_taken(signals) =~= log.take(0));
    } else {
        let earlier = signals.drop_last();
        lemma_rows_come_in_log_order(log, start, iterator, earlier);
        let taken = iterator.rows_taken(earlier).len() as int;
        lemma_poll_takes_the_next_row(log, start, iterator.after(earlier), taken, signals.last());
        let step = iterator.after(earlier).step(signals.last());
        if step.row is Some {
            assert(iterator.rows_taken(signals) =~= log.take(taken + 1));
        }
    }
}

/// Every row is handed to the filter, and none twice: once the iterator has
/// had four answered polls for every row of the log, and three more, the
/// rows taken are the log.
pub proof fn lemma_every_row_is_taken(
    log: Seq<BlockchainEvent>,
    start: int,
    iterator: ShardIteratorView,
    signals: Seq<SignalView>,
)
    requires
        one_period_log(log, start),
        iterator.state == StateView::Empty(start),
        iterator.accepts_each(signals),
        served_each(log, next_fetch_period(start), iterator, signals),
        answered_polls(iterator, signals) > 4 * log.len() + 2,
    ensures
        iterator.rows_taken(signals) == log,
{
    lemma_rows_come_in_log_order(log, start, iterator, signals);
    assert(log.take(log.len() as int) =~= log);
}

/// Where the filter keeps every row of the log, every row taken is handed
/// out.
proof fn lemma_kept_rows_are_handed_out(
    log: Seq<BlockchainEvent>,
    start: int,
    iterator: ShardIteratorView,
    signals: Seq<SignalView>,
)
    requires
        one_period_log(log, start),
        iterator.state == StateView::Empty(start),
        iterator.accepts_each(signals),
        served_each(log, next_fetch_period(start), iterator, signals),
        forall|i: int| 0 <= i < log.len() ==> iterator.filter.keeps(#[trigger] log[i]),
    ensures
        iterator.after(signals).filter == iterator.filter,
        iterator.events_handed_out(signals) == iterator.rows_taken(signals),
    decreases signals.len(),
{
    if signals.len() > 0 {
        let earlier = signals.drop_last();
        lemma_kept_rows_are_handed_out(log, start, iterator, earlier);
        lemma_rows_come_in_log_order(log, start, iterator, earlier);
        let taken = iterator.rows_taken(earlier).len() as int;
        lemma_poll_takes_the_next_row(log, start, iterator.after(earlier), taken, signals.last());
    }
}

/// The events of a period come out once each and in the order of their
/// offsets: where the filter keeps every row of the log, the events handed
/// out are the log, once the iterator has had four answered polls for every
/// row, and three more. Before that they are the first rows of the log.
pub proof fn lemma_every_event_is_handed_out(
    log: Seq<BlockchainEvent>,
    start: int,
    iterator: ShardIteratorView,
    signals: Seq<SignalView>,
)
    requires
        one_period_log(log, start),
        iterator.state == StateView::Empty(start),
        iterator.accepts_each(signals),
        served_each(log, next_fetch_period(start), iterator, signals),
        forall|i: int| 0 <= i < log.len() ==> iterator.filter.keeps(#[trigger] log[i]),
    ensures
        iterator.events_handed_out(signals).len() <= log.len(),
        iterator.events_handed_out(signals) == log.take(
            iterator.events_handed_out(signals).len() as int,
        ),
        answered_polls(iterator, signals) > 4 * log.len() + 2 ==> iterator.events_handed_out(
            signals,
        ) == log,
{
    lemma_kept_rows_are_handed_out(log, start, iterator, signals);
    lemma_rows_come_in_log_order(log, start, iterator, signals);
    if answered_polls(iterator, signals) > 4 * log.len() + 2 {
        lemma_every_row_is_taken(log, start, iterator, signals);
    }
}

} // verus!
