//! Order-book snapshots, and the sequencing rule that decides which diff
//! events a local book built from a snapshot applies.
use vstd::prelude::*;

use rust_decimal::Decimal;

verus! {

/// One bid level.
#[derive(Clone, Copy, Debug)]
pub struct Bid {
    pub price: Decimal,
    pub qty: Decimal,
}

/// One ask level.
#[derive(Clone, Copy, Debug)]
pub struct Ask {
    pub price: Decimal,
    pub qty: Decimal,
}

/// A snapshot of both sides of a book, best levels first.
#[derive(Clone, Debug)]
pub struct OrderBook {
    pub last_update_id: u64,
    pub bids: Vec<Bid>,
    pub asks: Vec<Ask>,
}

/// A diff event that does not follow on from the book's state.
#[derive(Debug, Clone, Copy, PartialEq, Eq)]
pub enum SequenceError {
    /// The first event applied after the snapshot starts beyond the update
    /// right after it.
    AheadOfSnapshot { first_update_id: u64, last_update_id: u64 },
    /// An event does not start right after the last applied update.
    Gap { first_update_id: u64, last_update_id: u64 },
}

/// Where a local book stands in the stream of updates: the last update
/// applied, and whether none has been applied since the snapshot.
#[derive(Debug, Clone, Copy, PartialEq, Eq)]
pub struct UpdateSequence {
    pub last_update_id: u64,
    pub dirty: bool,
}

/// The sequence after an event covering updates `first ..= last`, and whether
/// the event is applied (`Ok(true)`), dropped as already covered
/// (`Ok(false)`), or out of sequence.
pub open spec fn sequence_step(s: UpdateSequence, first: u64, last: u64) -> (
    UpdateSequence,
    Result<bool, SequenceError>,
) {
    let next = s.last_update_id + 1;
    let applied = UpdateSequence { last_update_id: last, dirty: false };
    if s.dirty {
        if last < next {
            (s, Ok(false))
        } else if first > next {
            (
                s,
                Err(
                    SequenceError::AheadOfSnapshot {
                        first_update_id: first,
                        last_update_id: s.last_update_id,
                    },
                ),
            )
        } else {
            (applied, Ok(true))
        }
    } else if first != next {
        (s, Err(SequenceError::Gap { first_update_id: first, last_update_id: s.last_update_id }))
    } else {
        (applied, Ok(true))
    }
}

impl UpdateSequence {
    /// The sequence of a book just built from a snapshot.
    pub fn new(snapshot_last_update_id: u64) -> (r: Self)
        ensures
            r == (UpdateSequence { last_update_id: snapshot_last_update_id, dirty: true }),
    {
        UpdateSequence { last_update_id: snapshot_last_update_id, dirty: true }
    }

    /// Decides on a diff event covering updates `first_update_id ..=
    /// final_update_id`. Events already covered by the snapshot are dropped;
    /// the first one applied must reach the update right after the snapshot,
    /// and each later one must start right after the last applied update.
    pub fn accept(&mut self, first_update_id: u64, final_update_id: u64) -> (r: Result<
        bool,
        SequenceError,
    >)
        ensures
            (*final(self), r) == sequence_step(*old(self), first_update_id, final_update_id),
    {
        let next: u128 = self.last_update_id as u128 + 1;
        if self.dirty {
            if (final_update_id as u128) < next {
                return Ok(false);
            }
            if first_update_id as u128 > next {
                return Err(
                    SequenceError::AheadOfSnapshot {
                        first_update_id,
                        last_update_id: self.last_update_id,
                    },
                );
            }
        } else if first_update_id as u128 != next {
            return Err(
                SequenceError::Gap { first_update_id, last_update_id: self.last_update_id },
            );
        }
        self.dirty = false;
        self.last_update_id = final_update_id;
        Ok(true)
    }
}

} // verus!
