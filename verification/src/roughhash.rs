//! The rough hash of a decoded payload: a stable, order-insensitive hash
//! over the entity set, used by the deduplicator to catch republished
//! payloads whose header timestamp moved but whose content did not.
//!
//! Each entity is hashed (FNV-1a over its canonical encoding) and the
//! per-entity hashes are combined by wrapping addition, so that the order
//! in which entities arrive does not matter.

use vstd::prelude::*;
use vstd::wrapping::u64_specs;

use crate::encode::{encode_feed_entity, sp_feed_entity_bytes};
use crate::feed::{FeedEntity, FeedEntityV, FeedMessage, FeedMessageV};

verus! {

pub const FNV_OFFSET: u64 = 0xcbf29ce484222325;

pub const FNV_PRIME: u64 = 0x100000001b3;

/// One FNV-1a step.
pub open spec fn sp_fnv_step(h: u64, b: u8) -> u64 {
    u64_specs::wrapping_mul(h ^ (b as u64), FNV_PRIME)
}

/// FNV-1a folded over `bytes` from position `i` with state `h`.
pub open spec fn sp_fnv_from(bytes: Seq<u8>, i: int, h: u64) -> u64
    decreases bytes.len() - i,
{
    if i < 0 || i >= bytes.len() {
        h
    } else {
        sp_fnv_from(bytes, i + 1, sp_fnv_step(h, bytes[i]))
    }
}

/// The FNV-1a hash of a byte sequence.
pub open spec fn sp_fnv1a(bytes: Seq<u8>) -> u64 {
    sp_fnv_from(bytes, 0, FNV_OFFSET)
}

/// The rough hash of an entity sequence: a wrapping sum of entity hashes.
pub open spec fn sp_rough_hash_entities(es: Seq<FeedEntityV>) -> u64
    decreases es.len(),
{
    if es.len() == 0 {
        0
    } else {
        u64_specs::wrapping_add(
            sp_rough_hash_entities(es.drop_last()),
            sp_fnv1a(sp_feed_entity_bytes(es.last())),
        )
    }
}

/// The rough hash of a whole payload; the header does not take part.
pub open spec fn sp_rough_hash(m: FeedMessageV) -> u64 {
    sp_rough_hash_entities(m.entities)
}

/// The FNV-1a hash of a byte buffer.
pub fn fnv1a(bytes: &Vec<u8>) -> (r: u64)
    ensures
        r == sp_fnv1a(bytes@),
{
    let n = bytes.len();
    let mut h: u64 = FNV_OFFSET;
    let mut i: usize = 0;
    while i < n
        invariant
            n == bytes@.len(),
            i <= n,
            sp_fnv_from(bytes@, i as int, h) == sp_fnv1a(bytes@),
        decreases n - i,
    {
        h = (h ^ (bytes[i] as u64)).wrapping_mul(FNV_PRIME);
        i = i + 1;
    }
    h
}

/// The rough hash of a decoded payload.
pub fn rough_hash_of_gtfs_rt(m: &FeedMessage) -> (r: u64)
    ensures
        r == sp_rough_hash(m@),
{
    let n = m.entities.len();
    let mut h: u64 = 0;
    let mut k: usize = 0;
    while k < n
        invariant
            n == m.entities@.len(),
            k <= n,
            h == sp_rough_hash_entities(
                m.entities@.map_values(|e: FeedEntity| e@).subrange(0, k as int),
            ),
        decreases n - k,
    {
        let ghost views = m.entities@.map_values(|e: FeedEntity| e@);
        let enc = encode_feed_entity(&m.entities[k]);
        let eh = fnv1a(&enc);
        h = h.wrapping_add(eh);
        proof {
            assert(views.subrange(0, k + 1 as int).drop_last() =~= views.subrange(0, k as int));
            assert(views.subrange(0, k + 1 as int).last() == views[k as int]);
        }
        k = k + 1;
    }
    proof {
        assert(m.entities@.map_values(|e: FeedEntity| e@).subrange(
            0,
            m.entities@.len() as int,
        ) =~= m.entities@.map_values(|e: FeedEntity| e@));
    }
    h
}

} // verus!
