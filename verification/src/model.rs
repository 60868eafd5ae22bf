//! The iterator as a state machine over plain values: what one poll does to
//! the state, which row it takes and which storage operation it asks for.

use vstd::prelude::*;
use crate::filter::ShardFilterView;
use crate::period::{closes_period, next_fetch_period, period_last_offset, shard_period};
use crate::state::StateView;
use crate::types::{BlockchainEvent, BlockchainEventType, ProducerId, ShardId};

verus! {

/// Why an iterator could not be built or cannot go on.
#[derive(Clone, Copy, Debug, PartialEq, Eq, Structural)]
pub enum ShardIteratorError {
    /// An owner or a pubkey of the filter is empty and has no literal.
    EmptyFilterKey,
    /// The slot of a pending fetch was closed without a batch.
    MicroBatchLost,
    /// The slot of a pending commit check was closed without an answer.
    PeriodCommitLost,
}

/// What polling the slot of the pending operation found.
pub enum SignalView {
    /// No operation is pending, or it has not answered yet.
    Nothing,
    /// The slot was closed without a value.
    Closed,
    /// The rows that a fetch returned, in the order of the query.
    MicroBatch(Seq<BlockchainEvent>),
    /// Whether the commit record of the period exists.
    PeriodCommit(bool),
}

/// The storage operation that a poll asks for.
pub enum DispatchView {
    /// None.
    Nothing,
    /// Fetch the rows of `period` whose offset is greater than `last_offset`.
    MicroBatch { producer_id: ProducerId, shard_id: ShardId, last_offset: int, period: int },
    /// Look for the commit record of `period`.
    PeriodCommit { producer_id: ProducerId, shard_id: ShardId, period: int },
}

/// An iterator without its slots.
pub struct ShardIteratorView {
    pub producer_id: ProducerId,
    pub shard_id: ShardId,
    pub event_type: BlockchainEventType,
    pub state: StateView,
    pub last_period_confirmed: int,
    pub filter: ShardFilterView,
    pub fetch_query: Seq<char>,
}

/// What one poll does.
pub struct StepView {
    /// The iterator after the poll.
    pub next: ShardIteratorView,
    /// The row taken from the batch, before the residual filter.
    pub row: Option<BlockchainEvent>,
    /// The operation asked for.
    pub dispatch: DispatchView,
    /// The error, if the poll fails.
    pub failure: Option<ShardIteratorError>,
}

impl ShardIteratorView {
    /// This iterator in another state.
    pub open spec fn in_state(self, state: StateView) -> ShardIteratorView {
        ShardIteratorView { state, ..self }
    }

    /// Whether `signal` can be what a poll of the pending slot found: a batch
    /// answers a fetch, a boolean answers a commit check, and where nothing is
    /// pending nothing arrives.
    pub open spec fn accepts(self, signal: SignalView) -> bool {
        match self.state {
            StateView::Loading(_) => !(signal is PeriodCommit),
            StateView::ConfirmingPeriod(_) => !(signal is MicroBatch),
            StateView::WaitingEndOfPeriod(_) => !(signal is MicroBatch),
            _ => signal is Nothing,
        }
    }

    /// The fetch that follows `last_offset`.
    pub open spec fn fetch(self, last_offset: int) -> DispatchView {
        DispatchView::MicroBatch {
            producer_id: self.producer_id,
            shard_id: self.shard_id,
            last_offset,
            period: next_fetch_period(last_offset),
        }
    }

    /// The commit check on the period of `last_offset`.
    pub open spec fn commit_check(self, last_offset: int) -> DispatchView {
        DispatchView::PeriodCommit {
            producer_id: self.producer_id,
            shard_id: self.shard_id,
            period: shard_period(last_offset),
        }
    }

    /// A poll that moves to `state` and asks for `dispatch`.
    pub open spec fn moves_to(self, state: StateView, dispatch: DispatchView) -> StepView {
        StepView { next: self.in_state(state), row: None, dispatch, failure: None }
    }

    /// A poll that takes the first of `rows` and goes on with the rest.
    pub open spec fn takes_first(self, rows: Seq<BlockchainEvent>) -> StepView {
        StepView {
            next: self.in_state(StateView::Streaming(rows[0].offset as int, rows.drop_first())),
            row: Some(rows[0]),
            dispatch: DispatchView::Nothing,
            failure: None,
        }
    }

    /// A poll that records the period of `last_offset` as committed and goes
    /// back to `Empty`.
    pub open spec fn confirms(self, last_offset: int) -> StepView {
        StepView {
            next: ShardIteratorView {
                state: StateView::Empty(last_offset),
                last_period_confirmed: shard_period(last_offset),
                ..self
            },
            row: None,
            dispatch: DispatchView::Nothing,
            failure: None,
        }
    }

    /// A poll that fails with `error`; the iterator is left in `Empty`.
    pub open spec fn fails(self, last_offset: int, error: ShardIteratorError) -> StepView {
        StepView {
            next: self.in_state(StateView::Empty(last_offset)),
            row: None,
            dispatch: DispatchView::Nothing,
            failure: Some(error),
        }
    }

    /// One poll of the iterator, given what the pending slot holds.
    pub open spec fn step(self, signal: SignalView) -> StepView {
        match self.state {
            StateView::Empty(o) => self.moves_to(StateView::Loading(o), self.fetch(o)),
            StateView::Loading(o) => match signal {
                SignalView::MicroBatch(rows) => self.moves_to(
                    StateView::Loaded(o, rows),
                    DispatchView::Nothing,
                ),
                SignalView::Closed => self.fails(o, ShardIteratorError::MicroBatchLost),
                _ => self.moves_to(self.state, DispatchView::Nothing),
            },
            StateView::Loaded(o, rows) => if rows.len() > 0 {
                self.takes_first(rows)
            } else if shard_period(o) <= self.last_period_confirmed {
                self.moves_to(
                    StateView::Empty(period_last_offset(shard_period(o))),
                    DispatchView::Nothing,
                )
            } else {
                self.moves_to(StateView::ConfirmingPeriod(o), self.commit_check(o))
            },
            StateView::ConfirmingPeriod(o) => match signal {
                SignalView::PeriodCommit(committed) => if committed {
                    self.confirms(o)
                } else {
                    self.moves_to(StateView::Empty(o), DispatchView::Nothing)
                },
                SignalView::Closed => self.fails(o, ShardIteratorError::PeriodCommitLost),
                _ => self.moves_to(self.state, DispatchView::Nothing),
            },
            StateView::Streaming(o, rows) => if rows.len() > 0 {
                self.takes_first(rows)
            } else if closes_period(o) {
                self.moves_to(StateView::WaitingEndOfPeriod(o), self.commit_check(o))
            } else {
                self.moves_to(StateView::Empty(o), DispatchView::Nothing)
            },
            StateView::WaitingEndOfPeriod(o) => match signal {
                SignalView::PeriodCommit(committed) => if committed {
                    self.confirms(o)
                } else {
                    self.moves_to(self.state, self.commit_check(o))
                },
                SignalView::Closed => self.fails(o, ShardIteratorError::PeriodCommitLost),
                _ => self.moves_to(self.state, DispatchView::Nothing),
            },
        }
    }

    /// The iterator after one poll for each of `signals`, oldest first.
    pub open spec fn after(self, signals: Seq<SignalView>) -> ShardIteratorView
        decreases signals.len(),
    {
        if signals.len() == 0 {
            self
        } else {
            self.after(signals.drop_last()).step(signals.last()).next
        }
    }

    /// Whether each of `signals` can be what its poll finds: the iterator
    /// that the polls before it leave accepts it.
    pub open spec fn accepts_each(self, signals: Seq<SignalView>) -> bool
        decreases signals.len(),
    {
        signals.len() > 0 ==> self.accepts_each(signals.drop_last()) && self.after(
            signals.drop_last(),
        ).accepts(signals.last())
    }

    /// Whether one of the polls for `signals` fails.
    pub open spec fn fails_during(self, signals: Seq<SignalView>) -> bool
        decreases signals.len(),
    {
        signals.len() > 0 && (self.fails_during(signals.drop_last()) || self.after(
            signals.drop_last(),
        ).step(signals.last()).failure is Some)
    }

    /// The rows that the polls for `signals` take, in the order of the polls.
    pub open spec fn rows_taken(self, signals: Seq<SignalView>) -> Seq<BlockchainEvent>
        decreases signals.len(),
    {
        if signals.len() == 0 {
            Seq::empty()
        } else {
            let earlier = self.rows_taken(signals.drop_last());
            match self.after(signals.drop_last()).step(signals.last()).row {
                Some(row) => earlier.push(row),
                None => earlier,
            }
        }
    }

    /// The events that the polls for `signals` hand out, in the order of the
    /// polls: the rows taken that the filter keeps.
    pub open spec fn events_handed_out(self, signals: Seq<SignalView>) -> Seq<BlockchainEvent>
        decreases signals.len(),
    {
        if signals.len() == 0 {
            Seq::empty()
        } else {
            let earlier = self.events_handed_out(signals.drop_last());
            let before = self.after(signals.drop_last());
            match before.filter.residual(before.step(signals.last()).row) {
                Some(event) => earlier.push(event),
                None => earlier,
            }
        }
    }

    /// Whether the offset is one of the offset type, the rows in memory
    /// follow it in strictly ascending order, and no period after that of the
    /// offset counts as confirmed.
    pub open spec fn orderly(self) -> bool {
        &&& i64::MIN <= self.state.last_offset() <= i64::MAX
        &&& ascends_from(self.state.last_offset(), self.state.rows())
        &&& self.last_period_confirmed <= shard_period(self.state.last_offset())
    }

    /// Whether every batch among `signals` is one that the fetch pending at
    /// its poll may return.
    pub open spec fn follows_each(self, signals: Seq<SignalView>) -> bool
        decreases signals.len(),
    {
        signals.len() > 0 ==> self.follows_each(signals.drop_last()) && signals.last().follows(
            self.after(signals.drop_last()).state.last_offset(),
        )
    }

    /// The iterator after `warm` was given `rows`: an iterator in `Empty`
    /// starts to stream them, any other is left as it is.
    pub open spec fn warmed(self, rows: Seq<BlockchainEvent>) -> ShardIteratorView {
        match self.state {
            StateView::Empty(o) => self.in_state(StateView::Streaming(o, rows)),
            _ => self,
        }
    }
}

/// Whether the offsets of `rows` ascend strictly and are all greater than
/// `last_offset`: what the fetch that follows `last_offset` returns.
pub open spec fn ascends_from(last_offset: int, rows: Seq<BlockchainEvent>) -> bool {
    &&& forall|i: int| 0 <= i < rows.len() ==> last_offset < (#[trigger] rows[i]).offset
    &&& forall|i: int, j: int|
        0 <= i < j < rows.len() ==> (#[trigger] rows[i]).offset < (#[trigger] rows[j]).offset
}

impl SignalView {
    /// Whether the signal brings no commit and no row: nothing arrived, a
    /// fetch found no row, or the commit record is absent.
    pub open spec fn brings_nothing(self) -> bool {
        match self {
            SignalView::Nothing => true,
            SignalView::Closed => false,
            SignalView::MicroBatch(rows) => rows.len() == 0,
            SignalView::PeriodCommit(committed) => !committed,
        }
    }

    /// Whether a batch in the signal is one that the fetch that follows
    /// `last_offset` may return.
    pub open spec fn follows(self, last_offset: int) -> bool {
        self matches SignalView::MicroBatch(rows) ==> ascends_from(last_offset, rows)
    }
}

impl ShardIteratorError {
    /// A short description of the error.
    pub fn message(&self) -> (text: &'static str)
        ensures
            text@ == match *self {
                ShardIteratorError::EmptyFilterKey => "byte slice is empty"@,
                ShardIteratorError::MicroBatchLost => "failed to receive micro batch"@,
                ShardIteratorError::PeriodCommitLost => "fail"@,
            },
    {
        match self {
            ShardIteratorError::EmptyFilterKey => "byte slice is empty",
            ShardIteratorError::MicroBatchLost => "failed to receive micro batch",
            ShardIteratorError::PeriodCommitLost => "fail",
        }
    }
}

} // verus!
