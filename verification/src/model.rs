//! A sequential model of the notify-channel bridge: producer counters, the
//! FIFO work queue, the coalescing wake signal, and the values the consumer
//! has observed so far.
//!
//! Every interleaving of the real system is a sequence of the three
//! transitions `activate`, `produce` and `consume`, so the invariants proved
//! here — per-producer send order is `1, 2, 3, ...`, nothing is lost, nothing
//! is reordered — hold along every such interleaving.

use vstd::prelude::*;
use crate::wake::WakeSignal;

verus! {

/// One queued item: which producer sent it and the counter value it carries.
#[derive(Clone, Copy)]
pub struct Entry {
    pub producer: usize,
    pub value: u32,
}

/// The values sent by producer `p` within `s`, in queue order.
pub open spec fn sent_values(s: Seq<Entry>, p: int) -> Seq<u32>
    decreases s.len(),
{
    if s.len() == 0 {
        Seq::empty()
    } else {
        let rest = sent_values(s.drop_last(), p);
        if s.last().producer == p {
            rest.push(s.last().value)
        } else {
            rest
        }
    }
}

/// The sequence `1, 2, ..., c`: everything a producer whose counter stands at
/// `c` has sent, in send order.
pub open spec fn counts_up_to(c: u32) -> Seq<u32> {
    Seq::new(c as nat, |i: int| (i + 1) as u32)
}

proof fn lemma_sent_values_push(s: Seq<Entry>, e: Entry, p: int)
    ensures
        sent_values(s.push(e), p) == if e.producer == p {
            sent_values(s, p).push(e.value)
        } else {
            sent_values(s, p)
        },
{
    assert(s.push(e).drop_last() =~= s);
    assert(s.push(e).last() == e);
}

proof fn lemma_sent_values_absent(s: Seq<Entry>, p: int)
    requires
        forall|i: int| 0 <= i < s.len() ==> (#[trigger] s[i]).producer != p,
    ensures
        sent_values(s, p) == Seq::<u32>::empty(),
    decreases s.len(),
{
    if s.len() > 0 {
        assert(forall|i: int|
            0 <= i < s.drop_last().len() ==> (#[trigger] s.drop_last()[i]).producer != p);
        lemma_sent_values_absent(s.drop_last(), p);
    }
}

proof fn lemma_sent_values_concat(a: Seq<Entry>, b: Seq<Entry>, p: int)
    ensures
        sent_values(a + b, p) == sent_values(a, p) + sent_values(b, p),
    decreases b.len(),
{
    if b.len() == 0 {
        assert(a + b =~= a);
        assert(sent_values(a, p) + sent_values(b, p) =~= sent_values(a, p));
    } else {
        lemma_sent_values_concat(a, b.drop_last(), p);
        assert((a + b).drop_last() =~= a + b.drop_last());
        assert((a + b).last() == b.last());
        if b.last().producer == p {
            assert(sent_values(a, p) + sent_values(b.drop_last(), p).push(b.last().value)
                =~= (sent_values(a, p) + sent_values(b.drop_last(), p)).push(b.last().value));
        }
    }
}

proof fn lemma_sent_values_uniform(s: Seq<Entry>, p: int)
    requires
        forall|i: int| 0 <= i < s.len() ==> (#[trigger] s[i]).producer == p,
    ensures
        sent_values(s, p).len() == s.len(),
        forall|i: int| 0 <= i < s.len() ==> sent_values(s, p)[i] == (#[trigger] s[i]).value,
    decreases s.len(),
{
    if s.len() > 0 {
        assert(forall|i: int|
            0 <= i < s.drop_last().len() ==> (#[trigger] s.drop_last()[i]).producer == p);
        lemma_sent_values_uniform(s.drop_last(), p);
        assert(s.last().producer == p);
        assert(sent_values(s, p) == sent_values(s.drop_last(), p).push(s.last().value));
        assert forall|i: int| 0 <= i < s.len() implies sent_values(s, p)[i]
            == (#[trigger] s[i]).value by {
            if i < s.len() - 1 {
                assert(sent_values(s, p)[i] == sent_values(s.drop_last(), p)[i]);
                assert(s.drop_last()[i] == s[i]);
            } else {
                assert(sent_values(s, p)[i] == s.last().value);
            }
        }
    }
}

/// The whole bridge, one sequential step at a time: counters (one per
/// activated producer), the pending queue, what the consumer has observed,
/// and the wake signal.
pub struct BridgeModel {
    pub counters: Vec<u32>,
    pub queue: Vec<Entry>,
    pub observed: Vec<Entry>,
    pub wake: WakeSignal,
}

impl BridgeModel {
    /// Everything ever sent, in send order: what the consumer already
    /// observed followed by what is still pending.
    pub open spec fn stream(self) -> Seq<Entry> {
        self.observed@ + self.queue@
    }

    /// The bridge invariant: producer `p` has sent exactly `1, ..., counters[p]`
    /// in that order, and every entry belongs to an activated producer.
    pub open spec fn wf(self) -> bool {
        &&& forall|p: int|
            0 <= p < self.counters@.len() ==> #[trigger] sent_values(self.stream(), p)
                == counts_up_to(self.counters@[p])
        &&& forall|i: int|
            0 <= i < self.stream().len() ==> (#[trigger] self.stream()[i]).producer
                < self.counters@.len()
    }

    /// A bridge with no producers, an empty queue and no pending wake.
    pub fn new() -> (b: BridgeModel)
        ensures
            b.wf(),
            b.counters@ == Seq::<u32>::empty(),
            b.queue@ == Seq::<Entry>::empty(),
            b.observed@ == Seq::<Entry>::empty(),
            !b.wake.pending,
    {
        let b = BridgeModel {
            counters: Vec::new(),
            queue: Vec::new(),
            observed: Vec::new(),
            wake: WakeSignal::new(),
        };
        proof {
            assert(b.stream() =~= Seq::<Entry>::empty());
        }
        b
    }

    /// Activate a producer: a fresh counter at zero. Returns its id.
    pub fn activate(&mut self) -> (id: usize)
        requires
            old(self).wf(),
        ensures
            final(self).wf(),
            id == old(self).counters@.len(),
            final(self).counters@ == old(self).counters@.push(0u32),
            final(self).queue@ == old(self).queue@,
            final(self).observed@ == old(self).observed@,
            final(self).wake == old(self).wake,
    {
        let id = self.counters.len();
        self.counters.push(0);
        proof {
            assert(self.stream() =~= old(self).stream());
            assert(forall|i: int|
                0 <= i < self.stream().len() ==> (#[trigger] self.stream()[i]).producer
                    != id as int);
            lemma_sent_values_absent(self.stream(), id as int);
            assert(counts_up_to(0) =~= Seq::<u32>::empty());
            assert forall|p: int| 0 <= p < self.counters@.len()
                implies #[trigger] sent_values(self.stream(), p)
                    == counts_up_to(self.counters@[p]) by {
                if p < id as int {
                    assert(self.counters@[p] == old(self).counters@[p]);
                }
            }
        }
        id
    }

    /// One producer step: increment the counter for producer `p`, queue the
    /// new value, raise the wake signal. Returns the value sent.
    pub fn produce(&mut self, p: usize) -> (v: u32)
        requires
            old(self).wf(),
            p < old(self).counters@.len(),
            old(self).counters@[p as int] < u32::MAX,
        ensures
            final(self).wf(),
            v == old(self).counters@[p as int] + 1,
            final(self).counters@ == old(self).counters@.update(p as int, v),
            final(self).queue@ == old(self).queue@.push(Entry { producer: p, value: v }),
            final(self).observed@ == old(self).observed@,
            final(self).wake == old(self).wake.raised(),
    {
        let c: u32 = self.counters[p] + 1;
        self.counters[p] = c;
        let e = Entry { producer: p, value: c };
        self.queue.push(e);
        self.wake.raise();
        proof {
            assert(self.stream() =~= old(self).stream().push(e));
            assert forall|q: int| 0 <= q < self.counters@.len()
                implies #[trigger] sent_values(self.stream(), q)
                    == counts_up_to(self.counters@[q]) by {
                lemma_sent_values_push(old(self).stream(), e, q);
                if q == p as int {
                    assert(counts_up_to((c - 1) as u32).push(c) =~= counts_up_to(c));
                } else {
                    assert(self.counters@[q] == old(self).counters@[q]);
                }
            }
            assert forall|i: int| 0 <= i < self.stream().len()
                implies (#[trigger] self.stream()[i]).producer < self.counters@.len() by {
                if i < old(self).stream().len() {
                    assert(old(self).stream()[i].producer < old(self).counters@.len());
                }
            }
        }
        c
    }

    /// One consumer step, run on wake-up: clear the wake signal, then take
    /// the oldest pending item, if any. An empty queue is the timeout
    /// outcome: nothing is observed and nothing changes.
    pub fn consume(&mut self) -> (got: Option<u32>)
        requires
            old(self).wf(),
        ensures
            final(self).wf(),
            !final(self).wake.pending,
            final(self).counters@ == old(self).counters@,
            final(self).stream() == old(self).stream(),
            old(self).queue@.len() > 0 ==> {
                &&& got == Some(old(self).queue@[0].value)
                &&& final(self).observed@ == old(self).observed@.push(old(self).queue@[0])
                &&& final(self).queue@ == old(self).queue@.drop_first()
            },
            old(self).queue@.len() == 0 ==> {
                &&& got is None
                &&& final(self).observed@ == old(self).observed@
                &&& final(self).queue@ == old(self).queue@
            },
    {
        let _was_pending = self.wake.take();
        if self.queue.len() > 0 {
            let e = self.queue.remove(0);
            self.observed.push(e);
            proof {
                assert(old(self).queue@.remove(0) =~= old(self).queue@.drop_first());
                assert(self.stream() =~= old(self).stream());
            }
            Some(e.value)
        } else {
            proof {
                assert(self.stream() =~= old(self).stream());
            }
            None
        }
    }
}

proof fn lemma_sent_values_pair_sum(s: Seq<Entry>)
    requires
        forall|i: int| 0 <= i < s.len() ==> (#[trigger] s[i]).producer < 2,
    ensures
        sent_values(s, 0).len() + sent_values(s, 1).len() == s.len(),
    decreases s.len(),
{
    if s.len() > 0 {
        assert(forall|i: int|
            0 <= i < s.drop_last().len() ==> (#[trigger] s.drop_last()[i]).producer < 2);
        lemma_sent_values_pair_sum(s.drop_last());
    }
}

/// With a single activated producer, the counter values the consumer has
/// observed are strictly increasing in observation order.
pub proof fn lemma_single_producer_monotone(b: BridgeModel)
    requires
        b.wf(),
        b.counters@.len() == 1,
    ensures
        forall|i: int, j: int|
            0 <= i < j < b.observed@.len() ==> (#[trigger] b.observed@[i]).value
                < (#[trigger] b.observed@[j]).value,
{
    assert(forall|i: int|
        0 <= i < b.stream().len() ==> (#[trigger] b.stream()[i]).producer == 0);
    lemma_sent_values_uniform(b.stream(), 0);
    assert(sent_values(b.stream(), 0) == counts_up_to(b.counters@[0]));
    assert forall|i: int, j: int| 0 <= i < j < b.observed@.len()
        implies (#[trigger] b.observed@[i]).value < (#[trigger] b.observed@[j]).value by {
        assert(b.observed@[i] == b.stream()[i]);
        assert(b.observed@[j] == b.stream()[j]);
        assert(b.stream()[i].value == sent_values(b.stream(), 0)[i]);
        assert(b.stream()[j].value == sent_values(b.stream(), 0)[j]);
        assert(counts_up_to(b.counters@[0])[i] == (i + 1) as u32);
        assert(counts_up_to(b.counters@[0])[j] == (j + 1) as u32);
    }
}

/// The queue loses and reorders nothing: for each producer, the values the
/// consumer has observed followed by the values still pending are exactly
/// `1, ..., counters[p]` in send order; in particular the observed values are
/// a prefix of the sent values.
pub proof fn lemma_no_item_lost(b: BridgeModel, p: int)
    requires
        b.wf(),
        0 <= p < b.counters@.len(),
    ensures
        sent_values(b.observed@, p) + sent_values(b.queue@, p)
            == counts_up_to(b.counters@[p]),
        sent_values(b.observed@, p)
            == counts_up_to(b.counters@[p]).take(sent_values(b.observed@, p).len() as int),
{
    lemma_sent_values_concat(b.observed@, b.queue@, p);
    assert(sent_values(b.stream(), p) == counts_up_to(b.counters@[p]));
    let a = sent_values(b.observed@, p);
    let c = counts_up_to(b.counters@[p]);
    assert forall|i: int| 0 <= i < a.len() implies a[i] == c[i] by {
        assert((a + sent_values(b.queue@, p))[i] == a[i]);
    }
    assert(a =~= c.take(a.len() as int));
}

/// Two producers interleave without corruption: each producer's subsequence
/// of the stream is exactly its own `1, ..., counters[p]` in order, and every
/// stream entry is accounted to one of the two.
pub proof fn lemma_two_producers_no_corruption(b: BridgeModel)
    requires
        b.wf(),
        b.counters@.len() == 2,
    ensures
        sent_values(b.stream(), 0) == counts_up_to(b.counters@[0]),
        sent_values(b.stream(), 1) == counts_up_to(b.counters@[1]),
        b.stream().len() == b.counters@[0] + b.counters@[1],
{
    assert(sent_values(b.stream(), 0) == counts_up_to(b.counters@[0]));
    assert(sent_values(b.stream(), 1) == counts_up_to(b.counters@[1]));
    lemma_sent_values_pair_sum(b.stream());
}

} // verus!
