//! The filter of a shard iterator, and the part of it that is applied to rows
//! after they were fetched.

use vstd::prelude::*;
use crate::types::{byte_strings, BlockchainEvent, BlockchainEventType, EventPayload};

verus! {

/// Which events of a shard a consumer wants.
///
/// Owners and pubkeys restrict account updates inside the storage query;
/// `tx_account_keys` restricts transactions and is applied to fetched rows.
/// An empty list restricts nothing.
#[derive(Clone, Debug, PartialEq, Eq)]
pub struct ShardFilter {
    pub tx_account_keys: Vec<Vec<u8>>,
    pub account_owners: Vec<Vec<u8>>,
    pub account_pubkeys: Vec<Vec<u8>>,
}

/// The byte strings of a filter.
pub struct ShardFilterView {
    pub tx_account_keys: Seq<Seq<u8>>,
    pub account_owners: Seq<Seq<u8>>,
    pub account_pubkeys: Seq<Seq<u8>>,
}

impl View for ShardFilter {
    type V = ShardFilterView;

    open spec fn view(&self) -> ShardFilterView {
        ShardFilterView {
            tx_account_keys: byte_strings(self.tx_account_keys@),
            account_owners: byte_strings(self.account_owners@),
            account_pubkeys: byte_strings(self.account_pubkeys@),
        }
    }
}

impl Default for ShardFilter {
    /// The filter that restricts nothing.
    fn default() -> (filter: ShardFilter)
        ensures
            filter@ == ShardFilterView::unrestricted(),
    {
        let filter = ShardFilter {
            tx_account_keys: Vec::new(),
            account_owners: Vec::new(),
            account_pubkeys: Vec::new(),
        };
        assert(filter@.tx_account_keys =~= Seq::<Seq<u8>>::empty());
        assert(filter@.account_owners =~= Seq::<Seq<u8>>::empty());
        assert(filter@.account_pubkeys =~= Seq::<Seq<u8>>::empty());
        filter
    }
}

/// Whether two lists of byte strings have a member in common.
pub open spec fn intersects(left: Seq<Seq<u8>>, right: Seq<Seq<u8>>) -> bool {
    exists|i: int, j: int|
        0 <= i < left.len() && 0 <= j < right.len() && #[trigger] left[i] == #[trigger] right[j]
}

impl ShardFilterView {
    /// The filter with three empty lists.
    pub open spec fn unrestricted() -> ShardFilterView {
        ShardFilterView {
            tx_account_keys: Seq::empty(),
            account_owners: Seq::empty(),
            account_pubkeys: Seq::empty(),
        }
    }

    /// The residual decision: a transaction is kept when no account key is
    /// asked for, or when it names one of the keys asked for. Account updates
    /// are always kept.
    pub open spec fn keeps(self, event: BlockchainEvent) -> bool {
        event.kind() == BlockchainEventType::NewTransaction && self.tx_account_keys.len() > 0
            ==> intersects(event.account_keys(), self.tx_account_keys)
    }

    /// What is left of a row after the residual decision.
    pub open spec fn residual(self, row: Option<BlockchainEvent>) -> Option<BlockchainEvent> {
        match row {
            Some(event) => if self.keeps(event) {
                Some(event)
            } else {
                None
            },
            None => None,
        }
    }
}

/// Whether two byte strings are equal.
fn same_bytes(left: &Vec<u8>, right: &Vec<u8>) -> (same: bool)
    ensures
        same == (left@ == right@),
{
    if left.len() != right.len() {
        return false;
    }
    let mut i: usize = 0;
    while i < left.len()
        invariant
            left.len() == right.len(),
            i <= left.len(),
            forall|k: int| 0 <= k < i ==> left@[k] == right@[k],
        decreases left.len() - i,
    {
        if left[i] != right[i] {
            return false;
        }
        i += 1;
    }
    assert(left@ =~= right@);
    true
}

/// Whether `key` is one of `keys`.
fn contains_key(keys: &Vec<Vec<u8>>, key: &Vec<u8>) -> (found: bool)
    ensures
        found == exists|j: int| 0 <= j < keys.len() && key@ == #[trigger] byte_strings(keys@)[j],
{
    let mut j: usize = 0;
    while j < keys.len()
        invariant
            j <= keys.len(),
            forall|k: int| 0 <= k < j ==> key@ != #[trigger] byte_strings(keys@)[k],
        decreases keys.len() - j,
    {
        if same_bytes(key, &keys[j]) {
            assert(key@ == byte_strings(keys@)[j as int]);
            return true;
        }
        j += 1;
    }
    false
}

/// Whether one of `actual` is one of `eligible`.
fn any_key_eligible(actual: &Vec<Vec<u8>>, eligible: &Vec<Vec<u8>>) -> (found: bool)
    ensures
        found == intersects(byte_strings(actual@), byte_strings(eligible@)),
{
    let mut i: usize = 0;
    while i < actual.len()
        invariant
            i <= actual.len(),
            forall|a: int, b: int|
                0 <= a < i && 0 <= b < eligible.len() ==> #[trigger] byte_strings(actual@)[a]
                    != #[trigger] byte_strings(eligible@)[b],
        decreases actual.len() - i,
    {
        if contains_key(eligible, &actual[i]) {
            assert(actual[i as int]@ == byte_strings(actual@)[i as int]);
            return true;
        }
        assert(forall|b: int|
            0 <= b < eligible.len() ==> byte_strings(actual@)[i as int] != #[trigger] byte_strings(
                eligible@,
            )[b]);
        i += 1;
    }
    false
}

impl ShardFilter {
    /// The residual decision for `event`: whether the iterator hands it out.
    pub fn keeps(&self, event: &BlockchainEvent) -> (keep: bool)
        ensures
            keep == self@.keeps(*event),
    {
        match &event.payload {
            EventPayload::AccountUpdate(_) => true,
            EventPayload::NewTransaction(tx) => {
                if self.tx_account_keys.len() == 0 {
                    true
                } else {
                    any_key_eligible(&tx.account_keys, &self.tx_account_keys)
                }
            },
        }
    }
}

} // verus!
