//! What a subscriber is handed of the stream of views.
//!
//! The views are published to a bounded queue that never holds the publisher
//! up: a subscriber that falls behind loses the oldest views and is told how
//! many it missed.

use vstd::prelude::*;
use crate::quote::Snapshot;

verus! {

/// How many quotes may wait for the aggregator before new ones are dropped.
pub const INGESTION_CAPACITY: usize = 32;

/// How many views may wait for a subscriber before it loses the oldest.
pub const DISTRIBUTION_CAPACITY: usize = 32;

/// Decides what a subscriber sees of one item of its queue: a view as it was
/// published, or the number of views that the subscriber missed. A view is
/// handed on unchanged; a loss is passed over, so that a subscriber never
/// sees an error.
pub fn deliver(received: Result<Snapshot, u64>) -> (delivered: Option<Snapshot>)
    ensures
        match received {
            Ok(snapshot) => delivered == Some(snapshot),
            Err(_) => delivered.is_none(),
        },
{
    match received {
        Ok(snapshot) => Some(snapshot),
        Err(_) => None,
    }
}

} // verus!
