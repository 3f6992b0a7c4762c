//! Shared data of the worker fleet: chateau descriptions, the pending-work
//! descriptor handed from ingestion to enrichment, and the deduplicator's
//! bookkeeping entry.

use vstd::prelude::*;

use crate::dataset::AspenisedData;
use crate::feed::{FeedMessage, GtfsRtType};
use crate::strmap::StringMap;

verus! {

/// A chateau: a logical shard grouping feeds that are processed together.
#[derive(Clone, Debug, PartialEq, Eq, Hash)]
pub struct ChateauDataNoGeometry {
    pub chateau_id: String,
    pub static_feeds: Vec<String>,
    pub realtime_feeds: Vec<String>,
}

/// Copies a string list.
pub fn dup_string_vec(v: &Vec<String>) -> (r: Vec<String>)
    ensures
        r@ == v@,
{
    let mut out: Vec<String> = Vec::new();
    let n = v.len();
    let mut k: usize = 0;
    while k < n
        invariant
            n == v@.len(),
            out@.len() == k as int,
            k <= n,
            forall|i: int| 0 <= i < k ==> out@[i] == v@[i],
        decreases n - k,
    {
        out.push(v[k].clone());
        k = k + 1;
    }
    assert(out@ =~= v@);
    out
}

/// Copies a chateau description, up to its feed lists' views.
pub fn dup_chateau(c: &ChateauDataNoGeometry) -> (r: ChateauDataNoGeometry)
    ensures
        r.chateau_id == c.chateau_id,
        r.static_feeds@ == c.static_feeds@,
        r.realtime_feeds@ == c.realtime_feeds@,
{
    ChateauDataNoGeometry {
        chateau_id: c.chateau_id.clone(),
        static_feeds: dup_string_vec(&c.static_feeds),
        realtime_feeds: dup_string_vec(&c.realtime_feeds),
    }
}

/// The chateau universe a leader partitions across the fleet.
pub struct ChateausLeaderHashMap {
    pub chateaus: StringMap<ChateauDataNoGeometry>,
}

/// What ingestion hands to the enrichment pool for one chateau. The
/// payload slots ride the raw realtime store, not the queue, so a queued
/// descriptor carries the submission's metadata alone.
#[derive(Clone, Debug)]
pub struct ProcessAlpenroseData {
    pub chateau_id: String,
    pub realtime_feed_id: String,
    pub vehicles: Option<Vec<u8>>,
    pub trips: Option<Vec<u8>>,
    pub alerts: Option<Vec<u8>>,
    pub has_vehicles: bool,
    pub has_trips: bool,
    pub has_alerts: bool,
    pub vehicles_response_code: Option<u16>,
    pub trips_response_code: Option<u16>,
    pub alerts_response_code: Option<u16>,
    pub time_of_submission_ms: u64,
}

/// What the deduplicator remembers for one `(feed, kind)` key.
#[derive(Copy, Clone, Debug, PartialEq, Eq)]
pub struct DedupEntry {
    pub last_timestamp: Option<u64>,
    pub last_rough_hash: Option<u64>,
}

/// The deduplicator's verdict on a payload.
#[derive(Copy, Clone, Debug, PartialEq, Eq, Structural)]
pub enum NewDataStatus {
    New,
    Old,
}

/// The empty deduplicator store.
pub open spec fn empty_dedup_contents() -> Map<(Seq<char>, GtfsRtType), DedupEntry> {
    Map::empty()
}

/// The empty raw realtime store.
pub open spec fn empty_feed_contents() -> Map<(Seq<char>, GtfsRtType), FeedMessage> {
    Map::empty()
}

/// The empty enriched store.
pub open spec fn empty_artifact_contents() -> Map<Seq<char>, AspenisedData> {
    Map::empty()
}

/// The empty work queue.
pub open spec fn empty_queue_contents() -> Seq<ProcessAlpenroseData> {
    Seq::empty()
}

} // verus!
