//! The states of a shard iterator.

use std::collections::VecDeque;
use vstd::prelude::*;
use tokio::sync::oneshot::Receiver;
use crate::period::ShardOffset;
use crate::types::BlockchainEvent;

verus! {

/// Where an iterator stands. Every state carries the offset of the last event
/// that was taken from a batch, or the offset the iterator started from.
#[derive(Debug)]
pub enum ShardIteratorState {
    /// No work is pending.
    Empty(ShardOffset),
    /// A fetch was asked for and has not answered yet.
    Loading(ShardOffset, Receiver<VecDeque<BlockchainEvent>>),
    /// A fetch answered; nothing was taken from its batch yet.
    Loaded(ShardOffset, VecDeque<BlockchainEvent>),
    /// A fetch came back empty; a commit check on the period is pending.
    ConfirmingPeriod(ShardOffset, Receiver<bool>),
    /// A batch is being drained.
    Streaming(ShardOffset, VecDeque<BlockchainEvent>),
    /// A batch ended on the last offset of a period; a commit check on that
    /// period is pending.
    WaitingEndOfPeriod(ShardOffset, Receiver<bool>),
}

/// A state without its slots: the offset, and the rows that wait in memory.
pub enum StateView {
    Empty(int),
    Loading(int),
    Loaded(int, Seq<BlockchainEvent>),
    ConfirmingPeriod(int),
    Streaming(int, Seq<BlockchainEvent>),
    WaitingEndOfPeriod(int),
}

impl StateView {
    /// The offset that the state carries.
    pub open spec fn last_offset(self) -> int {
        match self {
            StateView::Empty(offset) => offset,
            StateView::Loading(offset) => offset,
            StateView::Loaded(offset, _) => offset,
            StateView::ConfirmingPeriod(offset) => offset,
            StateView::Streaming(offset, _) => offset,
            StateView::WaitingEndOfPeriod(offset) => offset,
        }
    }

    /// Whether an operation is pending in this state.
    pub open spec fn awaits(self) -> bool {
        self is Loading || self is ConfirmingPeriod || self is WaitingEndOfPeriod
    }

    /// The rows that wait in memory.
    pub open spec fn rows(self) -> Seq<BlockchainEvent> {
        match self {
            StateView::Loaded(_, rows) => rows,
            StateView::Streaming(_, rows) => rows,
            _ => Seq::empty(),
        }
    }
}

impl View for ShardIteratorState {
    type V = StateView;

    open spec fn view(&self) -> StateView {
        match self {
            ShardIteratorState::Empty(offset) => StateView::Empty(*offset as int),
            ShardIteratorState::Loading(offset, _) => StateView::Loading(*offset as int),
            ShardIteratorState::Loaded(offset, rows) => StateView::Loaded(*offset as int, rows@),
            ShardIteratorState::ConfirmingPeriod(offset, _) => StateView::ConfirmingPeriod(*offset as int),
            ShardIteratorState::Streaming(offset, rows) => StateView::Streaming(*offset as int, rows@),
            ShardIteratorState::WaitingEndOfPeriod(offset, _) => StateView::WaitingEndOfPeriod(
                *offset as int,
            ),
        }
    }
}

impl ShardIteratorState {
    /// The offset that the state carries.
    pub fn last_offset(&self) -> (offset: ShardOffset)
        ensures
            offset == self@.last_offset(),
    {
        match self {
            ShardIteratorState::Empty(offset) => *offset,
            ShardIteratorState::Loading(offset, _) => *offset,
            ShardIteratorState::Loaded(offset, _) => *offset,
            ShardIteratorState::ConfirmingPeriod(offset, _) => *offset,
            ShardIteratorState::Streaming(offset, _) => *offset,
            ShardIteratorState::WaitingEndOfPeriod(offset, _) => *offset,
        }
    }

    /// Whether no work is pending.
    pub fn is_empty(&self) -> (empty: bool)
        ensures
            empty == (self@ is Empty),
    {
        match self {
            ShardIteratorState::Empty(_) => true,
            _ => false,
        }
    }
}

} // verus!
