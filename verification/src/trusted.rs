//! The crate's trusted boundary: declarations of outside types and thin
//! wrappers around outside calls. Verus believes the contracts stated here;
//! everything else in the crate is proved against them.

use vstd::prelude::*;
use vstd::utf8::{decode_utf8, valid_utf8};

use crate::dataset::{AspenisedData, AspenisedVehicleRouteCache};
use crate::feed::{FeedMessage, GtfsRtType};
use crate::types::{DedupEntry, ProcessAlpenroseData, empty_dedup_contents,
    empty_feed_contents, empty_artifact_contents, empty_queue_contents};

verus! {

/// Relies on str::from_utf8: it accepts exactly the valid UTF-8 byte
/// sequences and yields the characters they encode.
#[verifier::external_body]
pub(crate) fn utf8_to_string(v: &[u8]) -> (r: Option<String>)
    ensures
        r is Some <==> valid_utf8(v@),
        r matches Some(s) ==> s@ == decode_utf8(v@),
{
    match std::str::from_utf8(v) {
        Ok(s) => Some(s.to_string()),
        Err(_) => None,
    }
}

/// scc's concurrent hash map, used for the process-wide stores.
#[verifier::external_type_specification]
#[verifier::external_body]
#[verifier::reject_recursive_types(K)]
#[verifier::reject_recursive_types(V)]
#[verifier::reject_recursive_types(H)]
pub struct ExSccHashMap<K, V, H>(scc::HashMap<K, V, H>)
    where H: std::hash::BuildHasher;

/// What the deduplicator's store holds, keyed by feed and payload kind.
pub uninterp spec fn scc_dedup_contents(
    m: scc::HashMap<(String, GtfsRtType), DedupEntry>,
) -> Map<(Seq<char>, GtfsRtType), DedupEntry>;

/// Relies on scc::HashMap::new: a fresh map is empty.
#[verifier::external_body]
pub(crate) fn scc_dedup_new() -> (r: scc::HashMap<(String, GtfsRtType), DedupEntry>)
    ensures
        scc_dedup_contents(r) == empty_dedup_contents(),
{
    scc::HashMap::new()
}

/// Relies on scc::HashMap::read_sync: it hands the entry for exactly the
/// equal key to the closure, which copies it out.
#[verifier::external_body]
pub(crate) fn scc_dedup_get(
    m: &scc::HashMap<(String, GtfsRtType), DedupEntry>,
    feed_id: &str,
    kind: GtfsRtType,
) -> (r: Option<DedupEntry>)
    ensures
        r is Some <==> scc_dedup_contents(*m).contains_key((feed_id@, kind)),
        r matches Some(e) ==> scc_dedup_contents(*m)[(feed_id@, kind)] == e,
{
    m.read_sync(&(feed_id.to_string(), kind), |_, v| *v)
}

/// Relies on scc::HashMap::upsert_sync: it inserts or overwrites the value
/// under the equal key and touches no other entry.
#[verifier::external_body]
pub(crate) fn scc_dedup_upsert(
    m: &mut scc::HashMap<(String, GtfsRtType), DedupEntry>,
    feed_id: &str,
    kind: GtfsRtType,
    e: DedupEntry,
)
    ensures
        scc_dedup_contents(*final(m)) == scc_dedup_contents(*old(m)).insert((feed_id@, kind), e),
{
    let _ = m.upsert_sync((feed_id.to_string(), kind), e);
}

/// What the raw realtime store holds, keyed by feed and payload kind.
pub uninterp spec fn scc_feed_contents(
    m: scc::HashMap<(String, GtfsRtType), FeedMessage>,
) -> Map<(Seq<char>, GtfsRtType), FeedMessage>;

/// Relies on scc::HashMap::new: a fresh map is empty.
#[verifier::external_body]
pub(crate) fn scc_feed_new() -> (r: scc::HashMap<(String, GtfsRtType), FeedMessage>)
    ensures
        scc_feed_contents(r) == empty_feed_contents(),
{
    scc::HashMap::new()
}

/// Relies on scc::HashMap::read_sync: it hands the entry for exactly the
/// equal key to the closure, which clones it; the derived clone copies
/// every field.
#[verifier::external_body]
pub(crate) fn scc_feed_get(
    m: &scc::HashMap<(String, GtfsRtType), FeedMessage>,
    feed_id: &str,
    kind: GtfsRtType,
) -> (r: Option<FeedMessage>)
    ensures
        r is Some <==> scc_feed_contents(*m).contains_key((feed_id@, kind)),
        r matches Some(v) ==> v == scc_feed_contents(*m)[(feed_id@, kind)],
{
    m.read_sync(&(feed_id.to_string(), kind), |_, v| v.clone())
}

/// Relies on scc::HashMap::upsert_sync: it inserts or overwrites the value
/// under the equal key and touches no other entry.
#[verifier::external_body]
pub(crate) fn scc_feed_upsert(
    m: &mut scc::HashMap<(String, GtfsRtType), FeedMessage>,
    feed_id: &str,
    kind: GtfsRtType,
    v: FeedMessage,
)
    ensures
        scc_feed_contents(*final(m)) == scc_feed_contents(*old(m)).insert((feed_id@, kind), v),
{
    let _ = m.upsert_sync((feed_id.to_string(), kind), v);
}

/// What the enriched store holds, keyed by chateau.
pub uninterp spec fn scc_artifact_contents(
    m: scc::HashMap<String, AspenisedData>,
) -> Map<Seq<char>, AspenisedData>;

/// Relies on scc::HashMap::new: a fresh map is empty.
#[verifier::external_body]
pub(crate) fn scc_artifact_new() -> (r: scc::HashMap<String, AspenisedData>)
    ensures
        scc_artifact_contents(r) == empty_artifact_contents(),
{
    scc::HashMap::new()
}

/// Relies on scc::HashMap::read_sync: it hands the entry for exactly the
/// equal key to the closure, which clones it; the derived clone copies
/// every field.
#[verifier::external_body]
pub(crate) fn scc_artifact_get(
    m: &scc::HashMap<String, AspenisedData>,
    chateau_id: &str,
) -> (r: Option<AspenisedData>)
    ensures
        r is Some <==> scc_artifact_contents(*m).contains_key(chateau_id@),
        r matches Some(v) ==> v == scc_artifact_contents(*m)[chateau_id@],
{
    m.read_sync(&chateau_id.to_string(), |_, v| v.clone())
}

/// Relies on scc::HashMap::upsert_sync: it inserts or overwrites the value
/// under the equal key and touches no other entry.
#[verifier::external_body]
pub(crate) fn scc_artifact_upsert(
    m: &mut scc::HashMap<String, AspenisedData>,
    chateau_id: &str,
    v: AspenisedData,
)
    ensures
        scc_artifact_contents(*final(m)) == scc_artifact_contents(*old(m)).insert(chateau_id@, v),
{
    let _ = m.upsert_sync(chateau_id.to_string(), v);
}

/// crossbeam's injector queue, used for the pending-chateau work queue.
#[verifier::external_type_specification]
#[verifier::external_body]
#[verifier::reject_recursive_types(T)]
pub struct ExInjector<T>(crossbeam::deque::Injector<T>);

/// What the work queue holds, oldest first.
pub uninterp spec fn injector_contents(
    q: crossbeam::deque::Injector<ProcessAlpenroseData>,
) -> Seq<ProcessAlpenroseData>;

/// Relies on Injector::new: a fresh queue is empty.
#[verifier::external_body]
pub(crate) fn injector_new() -> (r: crossbeam::deque::Injector<ProcessAlpenroseData>)
    ensures
        injector_contents(r) == empty_queue_contents(),
{
    crossbeam::deque::Injector::new()
}

/// Relies on Injector::push: the task is appended at the back.
#[verifier::external_body]
pub(crate) fn injector_push(
    q: &mut crossbeam::deque::Injector<ProcessAlpenroseData>,
    item: ProcessAlpenroseData,
)
    ensures
        injector_contents(*final(q)) == injector_contents(*old(q)).push(item),
{
    q.push(item);
}

/// Relies on Injector::steal: under exclusive access it pops the front
/// task, or reports the queue empty.
#[verifier::external_body]
pub(crate) fn injector_steal(q: &mut crossbeam::deque::Injector<ProcessAlpenroseData>) -> (r:
    Option<ProcessAlpenroseData>)
    ensures
        r matches Some(x) ==> injector_contents(*old(q)) == seq![x] + injector_contents(*final(q)),
        r is None ==> injector_contents(*final(q)) == injector_contents(*old(q))
            && injector_contents(*old(q)).len() == 0,
{
    loop {
        match q.steal() {
            crossbeam::deque::Steal::Success(x) => {
                return Some(x);
            },
            crossbeam::deque::Steal::Empty => {
                return None;
            },
            crossbeam::deque::Steal::Retry => {},
        }
    }
}

/// Relies on Injector::len.
#[verifier::external_body]
pub(crate) fn injector_len(q: &crossbeam::deque::Injector<ProcessAlpenroseData>) -> (r: usize)
    ensures
        r == injector_contents(*q).len(),
{
    q.len()
}

/// What fasthash's MetroHasher computes over a route-cache row sequence.
pub uninterp spec fn fast_hash_of_route_caches(vs: Seq<AspenisedVehicleRouteCache>) -> u64;

/// Relies on fasthash's MetroHasher with its fixed default seed: the result
/// depends on the hashed values alone.
#[verifier::external_body]
pub fn fast_hash_route_caches(v: &Vec<AspenisedVehicleRouteCache>) -> (r: u64)
    ensures
        r == fast_hash_of_route_caches(v@),
{
    let mut s: fasthash::MetroHasher = Default::default();
    std::hash::Hash::hash(v, &mut s);
    std::hash::Hasher::finish(&s)
}

/// Relies on SystemTime::now and duration_since: the wall clock read as a
/// span since the Unix epoch; a clock before the epoch reads as zero.
#[verifier::external_body]
pub fn duration_since_unix_epoch() -> std::time::Duration {
    std::time::SystemTime::now()
        .duration_since(std::time::UNIX_EPOCH)
        .unwrap_or(std::time::Duration::from_millis(0))
}

} // verus!
