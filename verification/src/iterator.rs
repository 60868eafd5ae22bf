//! The shard iterator.

use std::collections::VecDeque;
use vstd::prelude::*;
use vstd::string::*;
use tokio::sync::oneshot::{Receiver, Sender};
use crate::filter::ShardFilter;
use crate::model::{DispatchView, ShardIteratorError, ShardIteratorView, SignalView};
use crate::period::{
    fetch_period, is_period_end, last_offset_of_period, period_of, shard_period, ShardOffset,
    ShardPeriod,
};
use crate::query::{forge_account_upadate_event_query, GET_NEW_TRANSACTION_EVENT};
use crate::slot::{open_slot, poll_slot, SlotState};
use crate::state::{ShardIteratorState, StateView};
use crate::types::{BlockchainEvent, BlockchainEventType, ProducerId, ShardId};

verus! {

/// A fetch that the driver has to run: the rows of `period` that follow
/// `last_offset`, in ascending order of their offsets. The batch goes into
/// `reply`.
#[derive(Debug)]
pub struct MicroBatchRequest {
    pub producer_id: ProducerId,
    pub shard_id: ShardId,
    pub last_offset: ShardOffset,
    pub period: ShardPeriod,
    pub reply: Sender<VecDeque<BlockchainEvent>>,
}

/// A commit check that the driver has to run: whether the commit record of
/// `period` exists. The answer goes into `reply`.
#[derive(Debug)]
pub struct PeriodCommitRequest {
    pub producer_id: ProducerId,
    pub shard_id: ShardId,
    pub period: ShardPeriod,
    pub reply: Sender<bool>,
}

/// The storage operation that a poll asks the driver to start.
#[derive(Debug)]
pub enum Dispatch {
    Nothing,
    MicroBatch(MicroBatchRequest),
    PeriodCommit(PeriodCommitRequest),
}

impl View for Dispatch {
    type V = DispatchView;

    open spec fn view(&self) -> DispatchView {
        match self {
            Dispatch::Nothing => DispatchView::Nothing,
            Dispatch::MicroBatch(request) => DispatchView::MicroBatch {
                producer_id: request.producer_id,
                shard_id: request.shard_id,
                last_offset: request.last_offset as int,
                period: request.period as int,
            },
            Dispatch::PeriodCommit(request) => DispatchView::PeriodCommit {
                producer_id: request.producer_id,
                shard_id: request.shard_id,
                period: request.period as int,
            },
        }
    }
}

/// What polling the slot of the pending operation found.
#[derive(Debug)]
pub enum Signal {
    /// No operation is pending, or it has not answered yet.
    Nothing,
    /// The slot was closed without a value.
    Closed,
    /// The rows that a fetch returned.
    MicroBatch(VecDeque<BlockchainEvent>),
    /// Whether the commit record of the period exists.
    PeriodCommit(bool),
}

impl View for Signal {
    type V = SignalView;

    open spec fn view(&self) -> SignalView {
        match self {
            Signal::Nothing => SignalView::Nothing,
            Signal::Closed => SignalView::Closed,
            Signal::MicroBatch(rows) => SignalView::MicroBatch(rows@),
            Signal::PeriodCommit(committed) => SignalView::PeriodCommit(*committed),
        }
    }
}

impl Signal {
    /// The signal that stands for what a poll of the slot of a fetch found:
    /// nothing while the slot is vacant, the batch once it is filled.
    pub fn of_micro_batch(found: SlotState<VecDeque<BlockchainEvent>>) -> (signal: Signal)
        ensures
            signal@ == match found {
                SlotState::Vacant => SignalView::Nothing,
                SlotState::Closed => SignalView::Closed,
                SlotState::Filled(micro_batch) => SignalView::MicroBatch(micro_batch@),
            },
    {
        match found {
            SlotState::Vacant => Signal::Nothing,
            SlotState::Closed => Signal::Closed,
            SlotState::Filled(micro_batch) => Signal::MicroBatch(micro_batch),
        }
    }

    /// The signal that stands for what a poll of the slot of a commit check
    /// found: nothing while the slot is vacant, the answer once it is filled.
    pub fn of_period_commit(found: SlotState<bool>) -> (signal: Signal)
        ensures
            signal@ == match found {
                SlotState::Vacant => SignalView::Nothing,
                SlotState::Closed => SignalView::Closed,
                SlotState::Filled(committed) => SignalView::PeriodCommit(committed),
            },
    {
        match found {
            SlotState::Vacant => Signal::Nothing,
            SlotState::Closed => Signal::Closed,
            SlotState::Filled(committed) => Signal::PeriodCommit(committed),
        }
    }
}

/// What one poll hands to the caller.
#[derive(Debug)]
pub struct Progress {
    /// The next event of the shard, if one is ready and the filter keeps it.
    pub event: Option<BlockchainEvent>,
    /// The operation to start before the next poll.
    pub dispatch: Dispatch,
}

/// Whether a poll that found `signal` took the iterator from `before` to
/// `after` and returned `result`, as the state machine prescribes.
pub open spec fn poll_outcome(
    before: ShardIteratorView,
    signal: SignalView,
    after: ShardIteratorView,
    result: Result<Progress, ShardIteratorError>,
) -> bool {
    let step = before.step(signal);
    &&& after == step.next
    &&& match result {
        Ok(progress) => {
            &&& step.failure is None
            &&& progress.event == before.filter.residual(step.row)
            &&& progress.dispatch@ == step.dispatch
        },
        Err(error) => step.failure == Some(error),
    }
}

/// A pull-based iterator over the events of one shard of one producer.
#[derive(Debug)]
pub struct ShardIterator {
    producer_id: ProducerId,
    shard_id: ShardId,
    inner: ShardIteratorState,
    event_type: BlockchainEventType,
    fetch_query: String,
    last_period_confirmed: ShardPeriod,
    filter: ShardFilter,
}

impl View for ShardIterator {
    type V = ShardIteratorView;

    closed spec fn view(&self) -> ShardIteratorView {
        ShardIteratorView {
            producer_id: self.producer_id,
            shard_id: self.shard_id,
            event_type: self.event_type,
            state: self.inner@,
            last_period_confirmed: self.last_period_confirmed as int,
            filter: self.filter@,
            fetch_query: self.fetch_query@,
        }
    }
}

impl ShardIterator {
    /// Builds an iterator that starts after `offset`.
    ///
    /// The iterator starts in `Empty`, with the period before that of `offset`
    /// as the last confirmed one. For account updates the fetch query is
    /// forged from the filter, which fails if an owner or a pubkey is empty;
    /// for transactions it is the fixed query. Without a filter nothing is
    /// restricted.
    pub fn new(
        producer_id: ProducerId,
        shard_id: ShardId,
        offset: ShardOffset,
        event_type: BlockchainEventType,
        filter: Option<ShardFilter>,
    ) -> (built: Result<ShardIterator, ShardIteratorError>)
        ensures
            ({
                let wanted = match filter {
                    Some(given) => given@,
                    None => crate::filter::ShardFilterView::unrestricted(),
                };
                let forged = event_type == BlockchainEventType::AccountUpdate;
                match built {
                    Ok(iterator) => {
                        &&& forged ==> wanted.renderable()
                        &&& iterator@ == ShardIteratorView {
                            producer_id,
                            shard_id,
                            event_type,
                            state: StateView::Empty(offset as int),
                            last_period_confirmed: shard_period(offset as int) - 1,
                            filter: wanted,
                            fetch_query: if forged {
                                wanted.account_update_query()
                            } else {
                                GET_NEW_TRANSACTION_EVENT@
                            },
                        }
                    },
                    Err(error) => {
                        &&& error == ShardIteratorError::EmptyFilterKey
                        &&& forged
                        &&& !wanted.renderable()
                    },
                }
            }),
    {
        let filter = match filter {
            Some(given) => given,
            None => ShardFilter::default(),
        };
        let fetch_query = match event_type {
            BlockchainEventType::AccountUpdate => match forge_account_upadate_event_query(&filter) {
                Ok(text) => text,
                Err(error) => {
                    return Err(error);
                },
            },
            BlockchainEventType::NewTransaction => String::from_str(GET_NEW_TRANSACTION_EVENT),
        };
        Ok(
            ShardIterator {
                producer_id,
                shard_id,
                inner: ShardIteratorState::Empty(offset),
                event_type,
                fetch_query,
                last_period_confirmed: period_of(offset) - 1,
                filter,
            },
        )
    }

    /// The producer whose shard is read.
    pub fn producer_id(&self) -> (id: ProducerId)
        ensures
            id == self@.producer_id,
    {
        self.producer_id
    }

    /// The shard that is read.
    pub fn shard_id(&self) -> (id: ShardId)
        ensures
            id == self@.shard_id,
    {
        self.shard_id
    }

    /// The kind of events that is read.
    pub fn event_type(&self) -> (kind: BlockchainEventType)
        ensures
            kind == self@.event_type,
    {
        self.event_type
    }

    /// The text of the query that fetches the micro-batches.
    pub fn fetch_query(&self) -> (text: &str)
        ensures
            text@ == self@.fetch_query,
    {
        self.fetch_query.as_str()
    }

    /// The filter the iterator was built with.
    pub fn filter(&self) -> (filter: &ShardFilter)
        ensures
            filter@ == self@.filter,
    {
        &self.filter
    }

    /// The state the iterator is in.
    pub fn state(&self) -> (state: &ShardIteratorState)
        ensures
            state@ == self@.state,
    {
        &self.inner
    }

    /// The latest period that was seen committed, or the period before that
    /// of the starting offset.
    pub fn last_period_confirmed(&self) -> (period: ShardPeriod)
        ensures
            period == self@.last_period_confirmed,
    {
        self.last_period_confirmed
    }

    /// The offset of the last event taken from a batch, or the offset the
    /// iterator started from.
    pub fn last_offset(&self) -> (offset: ShardOffset)
        ensures
            offset == self@.state.last_offset(),
    {
        self.inner.last_offset()
    }

    /// Installs a batch that was fetched ahead of the first poll.
    ///
    /// `micro_batch` is the answer to the fetch that follows `last_offset()`.
    /// In `Empty` the iterator starts to stream it; in any other state the
    /// batch is dropped and nothing changes.
    pub fn warm(&mut self, micro_batch: VecDeque<BlockchainEvent>)
        ensures
            final(self)@ == old(self)@.warmed(micro_batch@),
    {
        if self.inner.is_empty() {
            let last_offset = self.inner.last_offset();
            self.inner = ShardIteratorState::Streaming(last_offset, micro_batch);
        }
    }

    /// Opens the slot of a commit check on the period of `last_offset`.
    fn is_period_committed(&self, last_offset: ShardOffset) -> (asked: (
        PeriodCommitRequest,
        Receiver<bool>,
    ))
        ensures
            Dispatch::PeriodCommit(asked.0)@ == self@.commit_check(last_offset as int),
    {
        let (reply, receiver) = open_slot::<bool>();
        let request = PeriodCommitRequest {
            producer_id: self.producer_id,
            shard_id: self.shard_id,
            period: period_of(last_offset),
            reply,
        };
        (request, receiver)
    }

    /// Opens the slot of the fetch that follows `last_offset`.
    fn fetch_micro_batch(&self, last_offset: ShardOffset) -> (asked: (
        MicroBatchRequest,
        Receiver<VecDeque<BlockchainEvent>>,
    ))
        ensures
            Dispatch::MicroBatch(asked.0)@ == self@.fetch(last_offset as int),
    {
        let (reply, receiver) = open_slot::<VecDeque<BlockchainEvent>>();
        let request = MicroBatchRequest {
            producer_id: self.producer_id,
            shard_id: self.shard_id,
            last_offset,
            period: fetch_period(last_offset),
            reply,
        };
        (request, receiver)
    }

    /// Applies the part of the filter that the storage query cannot express.
    pub fn filter_row(&self, row: BlockchainEvent) -> (kept: Option<BlockchainEvent>)
        ensures
            kept == self@.filter.residual(Some(row)),
    {
        if self.filter.keeps(&row) {
            Some(row)
        } else {
            None
        }
    }

    /// Polls the slot of the pending operation, if there is one, and gives
    /// the signal that stands for what it found. Without a pending operation
    /// the signal is `Nothing`. The iterator itself is left as it is.
    fn poll_pending(&mut self) -> (signal: Signal)
        ensures
            final(self)@ == old(self)@,
            old(self)@.accepts(signal@),
    {
        let last_offset = self.inner.last_offset();
        let mut current = ShardIteratorState::Empty(last_offset);
        std::mem::swap(&mut self.inner, &mut current);
        match current {
            ShardIteratorState::Loading(offset, receiver) => {
                let mut receiver = receiver;
                let found = poll_slot(&mut receiver);
                self.inner = ShardIteratorState::Loading(offset, receiver);
                Signal::of_micro_batch(found)
            },
            ShardIteratorState::ConfirmingPeriod(offset, receiver) => {
                let mut receiver = receiver;
                let found = poll_slot(&mut receiver);
                self.inner = ShardIteratorState::ConfirmingPeriod(offset, receiver);
                Signal::of_period_commit(found)
            },
            ShardIteratorState::WaitingEndOfPeriod(offset, receiver) => {
                let mut receiver = receiver;
                let found = poll_slot(&mut receiver);
                self.inner = ShardIteratorState::WaitingEndOfPeriod(offset, receiver);
                Signal::of_period_commit(found)
            },
            other => {
                self.inner = other;
                Signal::Nothing
            },
        }
    }

    /// Takes the first row of a batch that is not empty.
    fn stream(&mut self, micro_batch: VecDeque<BlockchainEvent>) -> (progress: Progress)
        requires
            micro_batch@.len() > 0,
        ensures
            final(self)@ == old(self)@.takes_first(micro_batch@).next,
            progress.event == old(self)@.filter.residual(Some(micro_batch@[0])),
            progress.dispatch@ == DispatchView::Nothing,
    {
        let mut micro_batch = micro_batch;
        let row = micro_batch.pop_front().unwrap();
        self.inner = ShardIteratorState::Streaming(row.offset, micro_batch);
        Progress { event: self.filter_row(row), dispatch: Dispatch::Nothing }
    }

    /// Makes the transition that the state machine prescribes for `signal`.
    ///
    /// `signal` is what a poll of the pending slot found. A call with
    /// `Signal::Nothing` is a poll during which nothing arrived.
    pub fn advance(&mut self, signal: Signal) -> (result: Result<Progress, ShardIteratorError>)
        requires
            old(self)@.accepts(signal@),
        ensures
            poll_outcome(old(self)@, signal@, final(self)@, result),
    {
        // A poll that fails leaves the iterator in `Empty`.
        let last_offset = self.inner.last_offset();
        let mut current = ShardIteratorState::Empty(last_offset);
        std::mem::swap(&mut self.inner, &mut current);
        match current {
            ShardIteratorState::Empty(offset) => {
                let (request, receiver) = self.fetch_micro_batch(offset);
                self.inner = ShardIteratorState::Loading(offset, receiver);
                Ok(Progress { event: None, dispatch: Dispatch::MicroBatch(request) })
            },
            ShardIteratorState::Loading(offset, receiver) => match signal {
                Signal::MicroBatch(micro_batch) => {
                    self.inner = ShardIteratorState::Loaded(offset, micro_batch);
                    Ok(Progress { event: None, dispatch: Dispatch::Nothing })
                },
                Signal::Closed => Err(ShardIteratorError::MicroBatchLost),
                _ => {
                    self.inner = ShardIteratorState::Loading(offset, receiver);
                    Ok(Progress { event: None, dispatch: Dispatch::Nothing })
                },
            },
            ShardIteratorState::Loaded(offset, micro_batch) => {
                if micro_batch.len() > 0 {
                    Ok(self.stream(micro_batch))
                } else {
                    let period = period_of(offset);
                    if period <= self.last_period_confirmed {
                        self.inner = ShardIteratorState::Empty(last_offset_of_period(period));
                        Ok(Progress { event: None, dispatch: Dispatch::Nothing })
                    } else {
                        // An empty batch may mean that the period is over, or
                        // that its producer is behind: ask which.
                        let (request, receiver) = self.is_period_committed(offset);
                        self.inner = ShardIteratorState::ConfirmingPeriod(offset, receiver);
                        Ok(Progress { event: None, dispatch: Dispatch::PeriodCommit(request) })
                    }
                }
            },
            ShardIteratorState::ConfirmingPeriod(offset, receiver) => match signal {
                Signal::PeriodCommit(committed) => {
                    if committed {
                        self.last_period_confirmed = period_of(offset);
                    }
                    self.inner = ShardIteratorState::Empty(offset);
                    Ok(Progress { event: None, dispatch: Dispatch::Nothing })
                },
                Signal::Closed => Err(ShardIteratorError::PeriodCommitLost),
                _ => {
                    self.inner = ShardIteratorState::ConfirmingPeriod(offset, receiver);
                    Ok(Progress { event: None, dispatch: Dispatch::Nothing })
                },
            },
            ShardIteratorState::Streaming(offset, micro_batch) => {
                if micro_batch.len() > 0 {
                    Ok(self.stream(micro_batch))
                } else if is_period_end(offset) {
                    let (request, receiver) = self.is_period_committed(offset);
                    self.inner = ShardIteratorState::WaitingEndOfPeriod(offset, receiver);
                    Ok(Progress { event: None, dispatch: Dispatch::PeriodCommit(request) })
                } else {
                    self.inner = ShardIteratorState::Empty(offset);
                    Ok(Progress { event: None, dispatch: Dispatch::Nothing })
                }
            },
            ShardIteratorState::WaitingEndOfPeriod(offset, receiver) => match signal {
                Signal::PeriodCommit(committed) => {
                    if committed {
                        self.last_period_confirmed = period_of(offset);
                        self.inner = ShardIteratorState::Empty(offset);
                        Ok(Progress { event: None, dispatch: Dispatch::Nothing })
                    } else {
                        // Not committed yet: ask again.
                        let (request, renewed) = self.is_period_committed(offset);
                        self.inner = ShardIteratorState::WaitingEndOfPeriod(offset, renewed);
                        Ok(Progress { event: None, dispatch: Dispatch::PeriodCommit(request) })
                    }
                },
                Signal::Closed => Err(ShardIteratorError::PeriodCommitLost),
                _ => {
                    self.inner = ShardIteratorState::WaitingEndOfPeriod(offset, receiver);
                    Ok(Progress { event: None, dispatch: Dispatch::Nothing })
                },
            },
        }
    }

    /// Polls the iterator once, without waiting.
    ///
    /// Looks into the slot of the pending operation, if there is one, and
    /// makes the transition that belongs to what it found. What the slot holds
    /// is decided by the driver and the storage; whatever it is, the poll is
    /// the one that `advance` makes for it.
    pub fn try_next(&mut self) -> (result: Result<Progress, ShardIteratorError>)
        ensures
            exists|signal: SignalView|
                old(self)@.accepts(signal) && #[trigger] poll_outcome(
                    old(self)@,
                    signal,
                    final(self)@,
                    result,
                ),
    {
        let signal = self.poll_pending();
        let ghost found = signal@;
        let result = self.advance(signal);
        assert(poll_outcome(old(self)@, found, self@, result));
        result
    }
}

} // verus!
