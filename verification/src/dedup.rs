//! The dedup index: per `(feed, kind)` it remembers the last seen header
//! timestamp and rough hash, and judges each arriving payload New or Old.
//!
//! The two-level test: a payload with no header timestamp is always New
//! (the upstream lacks freshness information, so it is processed); one
//! whose timestamp equals the remembered one is Old without hashing; one
//! whose timestamp moved is Old exactly when its rough hash did not move.

use vstd::prelude::*;

use crate::feed::{FeedMessage, GtfsRtType};
use crate::roughhash::{rough_hash_of_gtfs_rt, sp_rough_hash};
use crate::trusted::{scc_dedup_contents, scc_dedup_get, scc_dedup_new, scc_dedup_upsert};
use crate::types::{DedupEntry, NewDataStatus, empty_dedup_contents};

verus! {

/// What the index remembers for a key, if anything.
pub open spec fn sp_lookup(
    m: Map<(Seq<char>, GtfsRtType), DedupEntry>,
    key: (Seq<char>, GtfsRtType),
) -> Option<DedupEntry> {
    if m.contains_key(key) {
        Some(m[key])
    } else {
        None
    }
}

/// The verdict on a payload with header timestamp `ts` and rough hash
/// `rough`, given what the index remembered.
pub open spec fn sp_dedup_verdict(prev: Option<DedupEntry>, ts: Option<u64>, rough: u64) -> NewDataStatus {
    match ts {
        None => NewDataStatus::New,
        Some(t) => match prev {
            None => NewDataStatus::New,
            Some(e) => if e.last_timestamp == Some(t) {
                NewDataStatus::Old
            } else if e.last_rough_hash == Some(rough) {
                NewDataStatus::Old
            } else {
                NewDataStatus::New
            },
        },
    }
}

/// The index after an observation. A timestamp-less payload changes
/// nothing; a first sighting records the timestamp alone; a repeated
/// timestamp changes nothing (the hash is not even computed); a moved
/// timestamp records timestamp and hash.
pub open spec fn sp_dedup_map_next(
    m: Map<(Seq<char>, GtfsRtType), DedupEntry>,
    key: (Seq<char>, GtfsRtType),
    ts: Option<u64>,
    rough: u64,
) -> Map<(Seq<char>, GtfsRtType), DedupEntry> {
    match ts {
        None => m,
        Some(t) => match sp_lookup(m, key) {
            None => m.insert(key, DedupEntry { last_timestamp: Some(t), last_rough_hash: None }),
            Some(e) => if e.last_timestamp == Some(t) {
                m
            } else {
                m.insert(
                    key,
                    DedupEntry { last_timestamp: Some(t), last_rough_hash: Some(rough) },
                )
            },
        },
    }
}

/// Compares optional integers.
fn opt_u64_eq(a: &Option<u64>, b: &Option<u64>) -> (r: bool)
    ensures
        r == (*a == *b),
{
    match (a, b) {
        (Some(x), Some(y)) => *x == *y,
        (None, None) => true,
        _ => false,
    }
}

/// The dedup index over all feeds this worker sees.
pub struct DedupIndex {
    map: scc::HashMap<(String, GtfsRtType), DedupEntry>,
}

impl View for DedupIndex {
    type V = Map<(Seq<char>, GtfsRtType), DedupEntry>;

    closed spec fn view(&self) -> Map<(Seq<char>, GtfsRtType), DedupEntry> {
        scc_dedup_contents(self.map)
    }
}

impl DedupIndex {
    /// An empty index.
    pub fn new() -> (r: Self)
        ensures
            r@ == empty_dedup_contents(),
    {
        DedupIndex { map: scc_dedup_new() }
    }

    /// Judges one payload and updates the index, as the spec functions
    /// above state. The rough hash is only computed when the timestamp
    /// moved.
    pub fn observe(&mut self, feed_id: &str, kind: GtfsRtType, message: &FeedMessage) -> (r:
        NewDataStatus)
        ensures
            r == sp_dedup_verdict(
                sp_lookup(old(self)@, (feed_id@, kind)),
                message@.header.timestamp,
                sp_rough_hash(message@),
            ),
            final(self)@ == sp_dedup_map_next(
                old(self)@,
                (feed_id@, kind),
                message@.header.timestamp,
                sp_rough_hash(message@),
            ),
    {
        let prev = scc_dedup_get(&self.map, feed_id, kind);
        match &message.header.timestamp {
            None => NewDataStatus::New,
            Some(t) => {
                match prev {
                    None => {
                        scc_dedup_upsert(
                            &mut self.map,
                            feed_id,
                            kind,
                            DedupEntry { last_timestamp: Some(*t), last_rough_hash: None },
                        );
                        NewDataStatus::New
                    },
                    Some(e) => {
                        if opt_u64_eq(&e.last_timestamp, &Some(*t)) {
                            NewDataStatus::Old
                        } else {
                            let rough = rough_hash_of_gtfs_rt(message);
                            let verdict = if opt_u64_eq(&e.last_rough_hash, &Some(rough)) {
                                NewDataStatus::Old
                            } else {
                                NewDataStatus::New
                            };
                            scc_dedup_upsert(
                                &mut self.map,
                                feed_id,
                                kind,
                                DedupEntry {
                                    last_timestamp: Some(*t),
                                    last_rough_hash: Some(rough),
                                },
                            );
                            verdict
                        }
                    },
                }
            },
        }
    }
}

/// Dedup idempotence: after any observation of a payload with a present
/// header timestamp, observing the same timestamp and rough hash again is
/// Old; and where the index held nothing for the key, the first
/// observation itself is New. So one payload submitted twice draws exactly
/// one New verdict from a fresh key.
pub proof fn lemma_dedup_idempotent(
    m: Map<(Seq<char>, GtfsRtType), DedupEntry>,
    key: (Seq<char>, GtfsRtType),
    t: u64,
    rough: u64,
)
    ensures
        sp_dedup_verdict(
            sp_lookup(sp_dedup_map_next(m, key, Some(t), rough), key),
            Some(t),
            rough,
        ) == NewDataStatus::Old,
        !m.contains_key(key) ==> sp_dedup_verdict(sp_lookup(m, key), Some(t), rough)
            == NewDataStatus::New,
{
}

} // verus!
