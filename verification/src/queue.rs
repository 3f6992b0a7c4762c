//! The chateau work queue: a FIFO of pending enrichment jobs and a
//! coalescing set, kept in step so that at any instant at most one job per
//! chateau is resident across the queue and the workers.
//!
//! Submission is refused while a chateau is queued or being processed; the
//! chateau is released only when its enrichment completes, so submissions
//! racing a running job are dropped, not queued.

use vstd::prelude::*;

use crate::strmap::StringMap;
use crate::strutil::str_eq;
use crate::trusted::{injector_contents, injector_len, injector_new, injector_push, injector_steal};
use crate::types::{ProcessAlpenroseData, empty_queue_contents};

verus! {

/// How many queued jobs name the chateau.
pub open spec fn sp_count_chateau(s: Seq<ProcessAlpenroseData>, c: Seq<char>) -> int
    decreases s.len(),
{
    if s.len() == 0 {
        0int
    } else {
        sp_count_chateau(s.drop_last(), c) + if s.last().chateau_id@ == c {
            1int
        } else {
            0int
        }
    }
}

proof fn lemma_count_zero(s: Seq<ProcessAlpenroseData>, c: Seq<char>)
    requires
        forall|i: int| 0 <= i < s.len() ==> s[i].chateau_id@ != c,
    ensures
        sp_count_chateau(s, c) == 0,
    decreases s.len(),
{
    if s.len() > 0 {
        lemma_count_zero(s.drop_last(), c);
    }
}

proof fn lemma_count_le_one(s: Seq<ProcessAlpenroseData>, c: Seq<char>)
    requires
        forall|p: int, q: int|
            0 <= p < q < s.len() ==> s[p].chateau_id@ != s[q].chateau_id@,
    ensures
        sp_count_chateau(s, c) <= 1,
    decreases s.len(),
{
    if s.len() > 0 {
        let t = s.drop_last();
        if s.last().chateau_id@ == c {
            assert(forall|i: int| 0 <= i < t.len() ==> t[i].chateau_id@ != c);
            lemma_count_zero(t, c);
        } else {
            lemma_count_le_one(t, c);
        }
    }
}

/// The work queue of one worker. Beside the shared injector it keeps a
/// verified mirror of the queued chateau identifiers, so that membership
/// can be decided without draining the queue.
pub struct ChateauWorkQueue {
    fifo: crossbeam::deque::Injector<ProcessAlpenroseData>,
    fifo_ids: Vec<String>,
    in_flight: StringMap<()>,
}

impl ChateauWorkQueue {
    /// The queued jobs, oldest first.
    pub closed spec fn fifo_seq(&self) -> Seq<ProcessAlpenroseData> {
        injector_contents(self.fifo)
    }

    /// The chateaus that are queued or being processed.
    pub closed spec fn in_flight_set(&self) -> Set<Seq<char>> {
        self.in_flight@.dom()
    }

    /// Queue and set are in step: every queued job's chateau is marked
    /// in flight, no chateau is queued twice, and the identifier mirror
    /// matches the queue.
    pub closed spec fn wf(&self) -> bool {
        &&& self.in_flight.wf()
        &&& self.fifo_ids@.len() == self.fifo_seq().len()
        &&& forall|i: int|
            0 <= i < self.fifo_seq().len() ==> self.fifo_ids@[i]@ == (
            #[trigger] self.fifo_seq()[i]).chateau_id@
        &&& forall|i: int|
            0 <= i < self.fifo_seq().len() ==> self.in_flight_set().contains(
                #[trigger] self.fifo_seq()[i].chateau_id@,
            )
        &&& forall|p: int, q: int|
            0 <= p < q < self.fifo_seq().len() ==> self.fifo_seq()[p].chateau_id@
                != self.fifo_seq()[q].chateau_id@
    }

    /// An empty queue.
    pub fn new() -> (r: Self)
        ensures
            r.wf(),
            r.fifo_seq() == empty_queue_contents(),
            r.in_flight_set() == Set::<Seq<char>>::empty(),
    {
        let r = ChateauWorkQueue {
            fifo: injector_new(),
            fifo_ids: Vec::new(),
            in_flight: StringMap::new(),
        };
        proof {
            assert(r.in_flight_set() =~= Set::<Seq<char>>::empty());
        }
        r
    }

    /// How many jobs are queued.
    pub fn queued_len(&self) -> (r: usize)
        ensures
            r == self.fifo_seq().len(),
    {
        injector_len(&self.fifo)
    }

    /// Whether a chateau is queued or being processed.
    pub fn is_in_flight(&self, chateau_id: &str) -> (r: bool)
        requires
            self.wf(),
        ensures
            r == self.in_flight_set().contains(chateau_id@),
    {
        self.in_flight.contains_key(chateau_id)
    }

    /// Submits a job: enqueued unless its chateau is already resident, in
    /// which case it is dropped.
    pub fn submit(&mut self, p: ProcessAlpenroseData) -> (r: bool)
        requires
            old(self).wf(),
        ensures
            final(self).wf(),
            old(self).in_flight_set().contains(p.chateau_id@) ==> !r && final(self).fifo_seq()
                == old(self).fifo_seq() && final(self).in_flight_set() == old(
                self,
            ).in_flight_set(),
            !old(self).in_flight_set().contains(p.chateau_id@) ==> r && final(self).fifo_seq()
                == old(self).fifo_seq().push(p) && final(self).in_flight_set() == old(
                self,
            ).in_flight_set().insert(p.chateau_id@),
    {
        if self.in_flight.contains_key(p.chateau_id.as_str()) {
            false
        } else {
            self.in_flight.upsert(p.chateau_id.clone(), ());
            self.fifo_ids.push(p.chateau_id.clone());
            let ghost before = self.fifo_seq();
            injector_push(&mut self.fifo, p);
            proof {
                assert(final(self).in_flight_set() =~= old(self).in_flight_set().insert(
                    p.chateau_id@,
                ));
                assert(forall|i: int|
                    0 <= i < before.len() ==> self.fifo_seq()[i] == before[i]);
            }
            true
        }
    }

    /// Takes the oldest job, leaving its chateau marked in flight.
    pub fn take(&mut self) -> (r: Option<ProcessAlpenroseData>)
        requires
            old(self).wf(),
        ensures
            final(self).wf(),
            final(self).in_flight_set() == old(self).in_flight_set(),
            match r {
                Some(x) => {
                    &&& old(self).fifo_seq() == seq![x] + final(self).fifo_seq()
                    &&& final(self).in_flight_set().contains(x.chateau_id@)
                    &&& forall|i: int|
                        0 <= i < final(self).fifo_seq().len() ==> final(self).fifo_seq()[i]
                            .chateau_id@ != x.chateau_id@
                },
                None => {
                    &&& final(self).fifo_seq() == old(self).fifo_seq()
                    &&& old(self).fifo_seq().len() == 0
                },
            },
    {
        let r = injector_steal(&mut self.fifo);
        if r.is_some() {
            self.fifo_ids.remove(0);
        }
        proof {
            if r is Some {
                let x = r->Some_0;
                let before = old(self).fifo_seq();
                let after = self.fifo_seq();
                assert(before[0] == x);
                assert(forall|i: int| 0 <= i < after.len() ==> after[i] == before[i + 1]);
            }
        }
        r
    }

    /// Releases a chateau once its enrichment finished. A chateau that is
    /// still queued stays marked, so the coalescing bound cannot break;
    /// any job obtained from `take` is no longer queued and is released.
    pub fn complete(&mut self, chateau_id: &str)
        requires
            old(self).wf(),
        ensures
            final(self).wf(),
            final(self).fifo_seq() == old(self).fifo_seq(),
            (forall|i: int|
                0 <= i < old(self).fifo_seq().len() ==> (#[trigger] old(self).fifo_seq()[i])
                    .chateau_id@ != chateau_id@) ==> final(self).in_flight_set() == old(
                self,
            ).in_flight_set().remove(chateau_id@),
            final(self).in_flight_set() == old(self).in_flight_set() || final(self).in_flight_set()
                == old(self).in_flight_set().remove(chateau_id@),
    {
        let n = self.fifo_ids.len();
        let mut i: usize = 0;
        while i < n
            invariant
                old(self).wf(),
                n == self.fifo_ids@.len(),
                i <= n,
                self == old(self),
                forall|j: int| 0 <= j < i ==> self.fifo_ids@[j]@ != chateau_id@,
            decreases n - i,
        {
            if str_eq(self.fifo_ids[i].as_str(), chateau_id) {
                proof {
                    assert((old(self).fifo_seq()[i as int]).chateau_id@ == chateau_id@);
                }
                return ;
            }
            i = i + 1;
        }
        self.in_flight.remove(chateau_id);
        proof {
            assert(final(self).in_flight_set() =~= old(self).in_flight_set().remove(chateau_id@));
        }
    }
}

/// Coalescing bound: in a well-formed queue no chateau has more than one
/// resident job, and a chateau not marked in flight has none at all.
pub proof fn lemma_coalescing_bound(q: &ChateauWorkQueue, c: Seq<char>)
    requires
        q.wf(),
    ensures
        sp_count_chateau(q.fifo_seq(), c) <= 1,
        !q.in_flight_set().contains(c) ==> sp_count_chateau(q.fifo_seq(), c) == 0,
{
    lemma_count_le_one(q.fifo_seq(), c);
    if !q.in_flight_set().contains(c) {
        assert(forall|i: int| 0 <= i < q.fifo_seq().len() ==> q.fifo_seq()[i].chateau_id@ != c);
        lemma_count_zero(q.fifo_seq(), c);
    }
}

} // verus!
