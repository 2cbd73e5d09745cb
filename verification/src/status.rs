//! The published synchronization status: a snapshot the controller writes
//! after each applied decision and that the status and diagnostic servers
//! read.

use vstd::prelude::*;

verus! {

/// One status snapshot. The drift is the last applied frequency adjustment
/// in milli-PPM; the grandmaster UUID is its 48-bit integer key (see
/// `ptp::uuid_key`); `updated_ts` is the wallclock second of the snapshot.
#[derive(Debug, Clone, Copy, PartialEq, Eq, Structural)]
pub struct SyncStatus {
    pub offset_ns: i64,
    pub drift_mppm: i64,
    pub gm_uuid: Option<u64>,
    pub settled: bool,
    pub updated_ts: u64,
}

impl SyncStatus {
    /// A stored grandmaster key fits in 48 bits.
    pub open spec fn wf(&self) -> bool {
        match self.gm_uuid {
            Some(k) => k < 0x1000000000000,
            None => true,
        }
    }
}

impl Default for SyncStatus {
    /// The all-clear snapshot: no offset, no drift, no grandmaster, not
    /// settled, never updated.
    fn default() -> (s: Self)
        ensures
            s.offset_ns == 0,
            s.drift_mppm == 0,
            s.gm_uuid.is_none(),
            !s.settled,
            s.updated_ts == 0,
            s.wf(),
    {
        SyncStatus { offset_ns: 0, drift_mppm: 0, gm_uuid: None, settled: false, updated_ts: 0 }
    }
}

} // verus!
