use vstd::prelude::*;

use crate::msg::Msg;

verus! {

/// The dispatch queue, as the loop sees it: an unbounded, ordered,
/// first-in-first-out buffer of messages. Producers append at the back; the
/// loop, the sole consumer, takes from the front. Its view is the sequence
/// of messages still undelivered, oldest first.
pub struct MsgQueue {
    items: Vec<Msg>,
}

impl View for MsgQueue {
    type V = Seq<Msg>;

    closed spec fn view(&self) -> Seq<Msg> {
        self.items@
    }
}

impl MsgQueue {
    /// A fresh, empty queue.
    pub fn new() -> (q: Self)
        ensures
            q@ == Seq::<Msg>::empty(),
    {
        MsgQueue { items: Vec::new() }
    }

    /// How many messages are waiting.
    pub fn len(&self) -> (n: usize)
        ensures
            n == self@.len(),
    {
        self.items.len()
    }

    /// Append one message at the back: what a producer's sending handle does.
    pub fn send(&mut self, m: Msg)
        ensures
            final(self)@ == old(self)@.push(m),
    {
        self.items.push(m);
    }

    /// Take the oldest message, or `None` when the queue is empty. Delivery
    /// order is exactly send order: no message is lost, duplicated or
    /// reordered once enqueued.
    pub fn recv(&mut self) -> (r: Option<Msg>)
        ensures
            old(self)@.len() == 0 ==> r is None && final(self)@ == old(self)@,
            old(self)@.len() > 0 ==> r == Some(old(self)@[0]) && final(self)@ == old(
                self,
            )@.drop_first(),
    {
        if self.items.len() == 0 {
            None
        } else {
            Some(self.items.remove(0))
        }
    }

    /// Take every waiting message, oldest first: what the loop receives over
    /// its lifetime is exactly what was enqueued, each message once, in
    /// queue order.
    pub fn drain(&mut self) -> (delivered: Vec<Msg>)
        ensures
            delivered@ == old(self)@,
            final(self)@ == Seq::<Msg>::empty(),
    {
        let mut delivered: Vec<Msg> = Vec::new();
        while self.items.len() > 0
            invariant
                delivered@ + self.items@ == old(self)@,
            decreases self.items@.len(),
        {
            let m = self.items.remove(0);
            delivered.push(m);
            proof {
                assert(delivered@ + self.items@ =~= old(self)@);
            }
        }
        proof {
            assert(delivered@ =~= old(self)@);
            assert(self.items@ =~= Seq::<Msg>::empty());
        }
        delivered
    }
}

/// How many slots of a schedule belong to producer `p`.
pub open spec fn slots_of(sched: Seq<int>, p: int) -> int
    decreases sched.len(),
{
    if sched.len() == 0 {
        0
    } else {
        (if sched[0] == p {
            1int
        } else {
            0int
        }) + slots_of(sched.drop_first(), p)
    }
}

/// The queue order that one interleaving of producer sends produces:
/// `sends[p]` is producer `p`'s messages in its own send order, and at step
/// `k` the scheduler lets producer `sched[k]` enqueue its next unsent
/// message (a slot for a producer with nothing left enqueues nothing). The
/// result tags each enqueued message with its producer.
pub open spec fn interleave_sends(sends: Seq<Seq<Msg>>, sched: Seq<int>) -> Seq<(int, Msg)>
    decreases sched.len(),
{
    if sched.len() == 0 {
        Seq::empty()
    } else {
        let p = sched[0];
        if 0 <= p < sends.len() && sends[p].len() > 0 {
            seq![(p, sends[p][0])] + interleave_sends(
                sends.update(p, sends[p].drop_first()),
                sched.drop_first(),
            )
        } else {
            interleave_sends(sends, sched.drop_first())
        }
    }
}

/// Producer `p`'s messages within a tagged queue order, in that order.
pub open spec fn producer_part(s: Seq<(int, Msg)>, p: int) -> Seq<Msg>
    decreases s.len(),
{
    if s.len() == 0 {
        Seq::empty()
    } else if s[0].0 == p {
        seq![s[0].1] + producer_part(s.drop_first(), p)
    } else {
        producer_part(s.drop_first(), p)
    }
}

/// A schedule under which every producer gets to enqueue its whole send
/// sequence: each producer owns exactly as many slots as it has messages.
pub open spec fn complete_schedule(sends: Seq<Seq<Msg>>, sched: Seq<int>) -> bool {
    &&& forall|k: int| 0 <= k < sched.len() ==> 0 <= #[trigger] sched[k] < sends.len()
    &&& forall|p: int| 0 <= p < sends.len() ==> slots_of(sched, p) == sends[p].len()
}

proof fn lemma_slots_of_nonneg(sched: Seq<int>, p: int)
    ensures
        slots_of(sched, p) >= 0,
    decreases sched.len(),
{
    if sched.len() > 0 {
        lemma_slots_of_nonneg(sched.drop_first(), p);
    }
}

/// For every interleaving of producer sends — every schedule that lets each
/// producer enqueue all of its messages, in any cross-producer order — the
/// queue order contains each producer's messages exactly once and in that
/// producer's own send order. Together with `MsgQueue::recv` and
/// `MsgQueue::drain`, which deliver the queue order unchanged, every message
/// enqueued is delivered to the loop exactly once, in per-producer FIFO
/// order.
pub proof fn lemma_interleaving_preserves_producer_fifo(
    sends: Seq<Seq<Msg>>,
    sched: Seq<int>,
    p: int,
)
    requires
        complete_schedule(sends, sched),
        0 <= p < sends.len(),
    ensures
        producer_part(interleave_sends(sends, sched), p) == sends[p],
    decreases sched.len(),
{
    if sched.len() == 0 {
        assert(slots_of(sched, p) == sends[p].len());
        assert(sends[p] =~= Seq::<Msg>::empty());
    } else {
        let q = sched[0];
        assert(slots_of(sched, q) == (if sched[0] == q {
            1int
        } else {
            0int
        }) + slots_of(sched.drop_first(), q));
        lemma_slots_of_nonneg(sched.drop_first(), q);
        assert(sends[q].len() > 0);
        let sends2 = sends.update(q, sends[q].drop_first());
        let sched2 = sched.drop_first();
        assert forall|r: int| 0 <= r < sends2.len() implies slots_of(sched2, r)
            == sends2[r].len() by {
            assert(slots_of(sched, r) == (if sched[0] == r {
                1int
            } else {
                0int
            }) + slots_of(sched2, r));
        }
        lemma_interleaving_preserves_producer_fifo(sends2, sched2, p);
        let tail = interleave_sends(sends2, sched2);
        let whole = seq![(q, sends[q][0])] + tail;
        assert(interleave_sends(sends, sched) == whole);
        assert(whole.drop_first() =~= tail);
        if q == p {
            assert(producer_part(whole, p) == seq![sends[p][0]] + producer_part(tail, p));
            assert(seq![sends[p][0]] + sends[p].drop_first() =~= sends[p]);
        } else {
            assert(producer_part(whole, p) == producer_part(tail, p));
            assert(sends2[p] == sends[p]);
        }
    }
}

} // verus!
