//! Offsets, periods and the arithmetic that relates them.

use vstd::prelude::*;

verus! {

/// Sequence number of an event within one shard.
pub type ShardOffset = i64;

/// Index of a fixed-size window of offsets; the unit of commit confirmation.
pub type ShardPeriod = i64;

/// Number of offsets in a period.
pub const SHARD_OFFSET_MODULO: i64 = 80;

/// Quotient of `offset` by the period length, rounded toward zero.
pub open spec fn shard_period(offset: int) -> int {
    if offset >= 0 {
        offset / (SHARD_OFFSET_MODULO as int)
    } else {
        -((-offset) / (SHARD_OFFSET_MODULO as int))
    }
}

/// The period that a fetch issued after delivering `last_offset` reads from:
/// the period of the next offset.
pub open spec fn next_fetch_period(last_offset: int) -> int {
    shard_period(last_offset + 1)
}

/// Whether `offset` is the last offset of a period, so that the next offset
/// opens a new one.
pub open spec fn closes_period(offset: int) -> bool {
    (offset + 1) % (SHARD_OFFSET_MODULO as int) == 0
}

/// The last offset of `period`, cut to the range of the offset type.
pub open spec fn period_last_offset(period: int) -> int {
    let last = (period + 1) * (SHARD_OFFSET_MODULO as int) - 1;
    if last > i64::MAX as int {
        i64::MAX as int
    } else if last < i64::MIN as int {
        i64::MIN as int
    } else {
        last
    }
}

/// Period of `offset`.
pub fn period_of(offset: ShardOffset) -> (period: ShardPeriod)
    ensures
        period == shard_period(offset as int),
{
    offset / SHARD_OFFSET_MODULO
}

/// Period that holds the events following `last_offset`.
pub fn fetch_period(last_offset: ShardOffset) -> (period: ShardPeriod)
    ensures
        period == next_fetch_period(last_offset as int),
{
    if last_offset < i64::MAX {
        (last_offset + 1) / SHARD_OFFSET_MODULO
    } else {
        // The offset after `i64::MAX` does not open a new period.
        last_offset / SHARD_OFFSET_MODULO
    }
}

/// Whether `offset` is the last offset of its period.
pub fn is_period_end(offset: ShardOffset) -> (end: bool)
    ensures
        end == closes_period(offset as int),
{
    if offset < i64::MAX {
        (offset + 1) % SHARD_OFFSET_MODULO == 0
    } else {
        false
    }
}

/// Last offset of `period`.
pub fn last_offset_of_period(period: ShardPeriod) -> (offset: ShardOffset)
    ensures
        offset == period_last_offset(period as int),
{
    let length: i128 = SHARD_OFFSET_MODULO as i128;
    let next: i128 = period as i128 + 1;
    assert(next * length == next * 80);
    let last: i128 = next * length - 1;
    if last > i64::MAX as i128 {
        i64::MAX
    } else if last < i64::MIN as i128 {
        i64::MIN
    } else {
        last as i64
    }
}

/// From offset zero on, every offset lies in the window of its period.
pub proof fn lemma_period_window(offset: int)
    requires
        0 <= offset,
    ensures
        shard_period(offset) * SHARD_OFFSET_MODULO <= offset,
        offset <= (shard_period(offset) + 1) * SHARD_OFFSET_MODULO - 1,
        closes_period(offset) <==> offset == (shard_period(offset) + 1) * SHARD_OFFSET_MODULO - 1,
        next_fetch_period(offset) == if closes_period(offset) {
            shard_period(offset) + 1
        } else {
            shard_period(offset)
        },
{
}

} // verus!
