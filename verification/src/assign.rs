//! Fleet coordination: the leader's partition of the chateau universe
//! across live workers, and a model of the leased key-value coordinator
//! against which the election and assignment rules are stated.

use vstd::prelude::*;
use vstd::slice::slice_to_vec;
use vstd::utf8::encode_utf8;

use crate::roughhash::{fnv1a, sp_fnv1a};
use crate::strmap::StringMap;
use crate::types::ChateausLeaderHashMap;

verus! {

/// The slot a chateau hashes to among `n` workers: a stable hash, so a
/// single membership change moves as few chateaus as possible.
pub open spec fn sp_chateau_slot(id: Seq<char>, n: nat) -> nat
    recommends
        n > 0,
{
    (sp_fnv1a(encode_utf8(id)) as nat) % n
}

/// Order on identifiers, by character code: how the leader keeps its
/// worker list, so that any two leaders partition one universe the same
/// way.
pub open spec fn sp_lex_le(a: Seq<char>, b: Seq<char>) -> bool
    decreases a.len(),
{
    if a.len() == 0 {
        true
    } else if b.len() == 0 {
        false
    } else if a[0] == b[0] {
        sp_lex_le(a.drop_first(), b.drop_first())
    } else {
        (a[0] as u32) < (b[0] as u32)
    }
}

/// The live workers, sorted by identifier.
pub open spec fn sp_sorted_ids(ws: Seq<String>) -> bool {
    forall|i: int| 0 <= i && i + 1 < ws.len() ==> sp_lex_le((#[trigger] ws[i])@, ws[i + 1]@)
}

/// The stable hash of a chateau identifier.
fn chateau_hash(id: &str) -> (r: u64)
    ensures
        r == sp_fnv1a(encode_utf8(id@)),
{
    let bytes = slice_to_vec(id.as_bytes());
    fnv1a(&bytes)
}

/// Partitions the chateau universe across the live workers: each chateau
/// goes to the worker its identifier hashes to. With no live workers the
/// assignment is empty.
pub fn assign_chateaus(chateaus: &ChateausLeaderHashMap, workers: &Vec<String>) -> (r: StringMap<
    String,
>)
    requires
        chateaus.chateaus.wf(),
        sp_sorted_ids(workers@),
    ensures
        r.wf(),
        // every chateau of the universe is assigned when anyone is alive
        workers@.len() > 0 ==> forall|i: int|
            0 <= i < chateaus.chateaus.entries().len() ==> r@.contains_key(
                (#[trigger] chateaus.chateaus.entries()[i]).0@,
            ),
        // only chateaus of the universe are assigned, each to the worker
        // its identifier hashes to
        forall|k: Seq<char>|
            #[trigger] r@.contains_key(k) ==> chateaus.chateaus@.contains_key(k) && workers@.len()
                > 0 && r@[k]@ == workers@[sp_chateau_slot(k, workers@.len()) as int]@,
        workers@.len() == 0 ==> r@ == Map::<Seq<char>, String>::empty(),
{
    let mut out: StringMap<String> = StringMap::new();
    if workers.len() == 0 {
        return out;
    }
    let n = chateaus.chateaus.len();
    let mut i: usize = 0;
    while i < n
        invariant
            chateaus.chateaus.wf(),
            n == chateaus.chateaus.entries().len(),
            i <= n,
            workers@.len() > 0,
            out.wf(),
            forall|j: int|
                0 <= j < i ==> out@.contains_key(
                    (#[trigger] chateaus.chateaus.entries()[j]).0@,
                ),
            forall|k: Seq<char>|
                #[trigger] out@.contains_key(k) ==> chateaus.chateaus@.contains_key(k)
                    && out@[k]@ == workers@[sp_chateau_slot(k, workers@.len()) as int]@,
        decreases n - i,
    {
        let pair = chateaus.chateaus.pair_at(i);
        let slot = (chateau_hash(pair.0.as_str()) % (workers.len() as u64)) as usize;
        proof {
            chateaus.chateaus.view_is_entries();
            crate::strmap::lemma_map_index(chateaus.chateaus.entries(), i as int);
            assert(slot as nat == sp_chateau_slot(pair.0@, workers@.len()));
        }
        let ghost prev = out@;
        let key = pair.0.clone();
        let chosen = workers[slot].clone();
        proof {
            assert(chosen@ == workers@[slot as int]@);
        }
        out.upsert(key, chosen);
        proof {
            assert forall|k: Seq<char>| #[trigger] out@.contains_key(k) implies chateaus.chateaus@
                .contains_key(k) && out@[k]@ == workers@[sp_chateau_slot(
                k,
                workers@.len(),
            ) as int]@ by {
                if k == pair.0@ {
                    assert(out@[k] == chosen);
                } else {
                    assert(prev.contains_key(k));
                    assert(out@[k] == prev[k]);
                }
            }
        }
        i = i + 1;
    }
    out
}

/// One record of the leased key-value coordinator: a value bound to the
/// lease of the worker that wrote it.
pub struct KvRecord {
    pub value: String,
    pub lease_id: i64,
}

/// A model of the coordinator's key space: ephemeral-by-lease keys with
/// compare-and-swap claims, as a leased store offers them. The worker
/// decides against this model; the wire client lives outside the
/// verified crate.
pub struct LeaseKv {
    entries: StringMap<KvRecord>,
}

/// A claim's effect: the key is taken only if it was free.
pub open spec fn sp_claim(
    m: Map<Seq<char>, KvRecord>,
    key: Seq<char>,
    value: String,
    lease_id: i64,
) -> (bool, Map<Seq<char>, KvRecord>) {
    if m.contains_key(key) {
        (false, m)
    } else {
        (true, m.insert(key, KvRecord { value, lease_id }))
    }
}

impl LeaseKv {
    /// The held keys and their records.
    pub closed spec fn view_map(&self) -> Map<Seq<char>, KvRecord> {
        self.entries@
    }

    /// The records are well formed.
    pub closed spec fn wf(&self) -> bool {
        self.entries.wf()
    }

    /// An empty key space.
    pub fn new() -> (r: Self)
        ensures
            r.wf(),
            r.view_map() == Map::<Seq<char>, KvRecord>::empty(),
    {
        LeaseKv { entries: StringMap::new() }
    }

    /// What a key currently holds.
    pub fn get(&self, key: &str) -> (r: Option<&KvRecord>)
        requires
            self.wf(),
        ensures
            match r {
                Some(v) => self.view_map().contains_key(key@) && *v == self.view_map()[key@],
                None => !self.view_map().contains_key(key@),
            },
    {
        self.entries.get(key)
    }

    /// The compare-and-swap campaign: the key is claimed only while
    /// nobody holds it, so at most one claimant wins until the holder's
    /// lease goes.
    pub fn claim(&mut self, key: String, value: String, lease_id: i64) -> (r: bool)
        requires
            old(self).wf(),
        ensures
            final(self).wf(),
            (r, final(self).view_map()) == sp_claim(
                old(self).view_map(),
                key@,
                value,
                lease_id,
            ),
    {
        if self.entries.contains_key(key.as_str()) {
            false
        } else {
            self.entries.upsert(key, KvRecord { value, lease_id });
            true
        }
    }

    /// Writes a key under a lease, overwriting any holder: how worker
    /// registrations and assignments are published.
    pub fn put_with_lease(&mut self, key: String, value: String, lease_id: i64)
        requires
            old(self).wf(),
        ensures
            final(self).wf(),
            final(self).view_map() == old(self).view_map().insert(
                key@,
                KvRecord { value, lease_id },
            ),
    {
        self.entries.upsert(key, KvRecord { value, lease_id });
    }

    /// A lease expires: every key bound to it vanishes at once, and no
    /// other key moves.
    pub fn expire_lease(&mut self, lease_id: i64)
        requires
            old(self).wf(),
        ensures
            final(self).wf(),
            forall|k: Seq<char>|
                #[trigger] final(self).view_map().contains_key(k) <==> old(
                    self,
                ).view_map().contains_key(k) && old(self).view_map()[k].lease_id != lease_id,
            forall|k: Seq<char>|
                #[trigger] final(self).view_map().contains_key(k) ==> final(self).view_map()[k]
                    == old(self).view_map()[k],
    {
        let mut kept: StringMap<KvRecord> = StringMap::new();
        let n = self.entries.len();
        let mut i: usize = 0;
        while i < n
            invariant
                old(self).wf(),
                self == old(self),
                n == self.entries.entries().len(),
                i <= n,
                kept.wf(),
                forall|k: Seq<char>|
                    #[trigger] kept@.contains_key(k) ==> self.entries@.contains_key(k)
                        && self.entries@[k].lease_id != lease_id && kept@[k] == self.entries@[k],
                forall|j: int|
                    0 <= j < i && (#[trigger] self.entries.entries()[j]).1.lease_id != lease_id
                        ==> kept@.contains_key(self.entries.entries()[j].0@),
            decreases n - i,
        {
            let pair = self.entries.pair_at(i);
            if pair.1.lease_id != lease_id {
                proof {
                    self.entries.view_is_entries();
                    crate::strmap::lemma_map_index(self.entries.entries(), i as int);
                }
                let ghost prev = kept@;
                let key = pair.0.clone();
                let record = KvRecord { value: pair.1.value.clone(), lease_id: pair.1.lease_id };
                proof {
                    assert(record == self.entries@[pair.0@]);
                }
                kept.upsert(key, record);
                proof {
                    assert forall|k: Seq<char>| #[trigger] kept@.contains_key(k) implies self
                        .entries@.contains_key(k) && self.entries@[k].lease_id != lease_id
                        && kept@[k] == self.entries@[k] by {
                        if k != pair.0@ {
                            assert(prev.contains_key(k));
                            assert(kept@[k] == prev[k]);
                        }
                    }
                }
            }
            i = i + 1;
        }
        proof {
            assert forall|k: Seq<char>|
                old(self).view_map().contains_key(k) && old(self).view_map()[k].lease_id
                    != lease_id implies #[trigger] kept@.contains_key(k) by {
                self.entries.view_is_entries();
                crate::strmap::lemma_map_contains(self.entries.entries(), k);
                assert(exists|j: int|
                    0 <= j < self.entries.entries().len() && self.entries.entries()[j].0@ == k);
                let j = choose|j: int|
                    0 <= j < self.entries.entries().len() && self.entries.entries()[j].0@ == k;
                crate::strmap::lemma_map_index(self.entries.entries(), j);
                assert(self.entries.entries()[j].1.lease_id != lease_id);
            }
        }
        self.entries = kept;
    }
}

/// Leader uniqueness: while someone holds the leader key, every further
/// campaign loses and changes nothing, so at most one worker holds the
/// key until its lease goes.
pub proof fn lemma_leader_uniqueness(
    m: Map<Seq<char>, KvRecord>,
    key: Seq<char>,
    v1: String,
    l1: i64,
    v2: String,
    l2: i64,
)
    requires
        !m.contains_key(key),
    ensures
        ({
            let (ok1, m1) = sp_claim(m, key, v1, l1);
            let (ok2, m2) = sp_claim(m1, key, v2, l2);
            ok1 && !ok2 && m2 == m1 && m1[key] == KvRecord { value: v1, lease_id: l1 }
        }),
{
}

} // verus!
