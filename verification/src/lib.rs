//! A pull-based, non-blocking iterator over one shard of a time-partitioned
//! event log.
//!
//! The iterator is a cooperative state machine: every poll either hands out
//! the next event of the shard, or reports that nothing is ready and names the
//! storage operation that the driver has to start on its behalf.

pub mod delivery;
pub mod filter;
pub mod iterator;
pub mod laws;
pub mod model;
pub mod period;
pub mod query;
pub mod row;
pub mod slot;
pub mod state;
pub mod types;
