//! The latest result of polling, as readers see it.
use vstd::prelude::*;

use crate::download_item::DownloadItem;
use crate::error::BackendError;

verus! {

/// Milliseconds between the end of one poll and the start of the next.
pub const POLL_INTERVAL_MS: u64 = 1000;

/// What the last poll published.
#[derive(Debug)]
pub enum Snapshot {
    /// No poll has finished yet.
    Loading,
    /// The items of the last poll.
    Items(Vec<DownloadItem>),
    /// Why the last poll failed.
    Failed(BackendError),
}

/// What a poll with result `r` publishes.
pub open spec fn snapshot_of(r: Result<Vec<DownloadItem>, BackendError>) -> Snapshot {
    match r {
        Ok(v) => Snapshot::Items(v),
        Err(e) => Snapshot::Failed(e),
    }
}

impl Snapshot {
    pub fn new() -> (r: Snapshot)
        ensures
            r is Loading,
    {
        Snapshot::Loading
    }

    /// Replaces what was published, whatever it was, by the poll's result.
    pub fn publish(&mut self, r: Result<Vec<DownloadItem>, BackendError>)
        ensures
            *final(self) == snapshot_of(r),
    {
        *self = match r {
            Ok(v) => Snapshot::Items(v),
            Err(e) => Snapshot::Failed(e),
        };
    }
}

} // verus!
