//! The outbound dispatcher: an unbounded FIFO queue of fully formatted
//! protocol lines, filled by the worker and the reply path and drained by
//! the one connection writer.  Ghost logs record what was enqueued and what
//! was delivered since the last drain, so that the fresh-connection
//! guarantee — stale messages are never delivered — is a proved property.

use vstd::prelude::*;

verus! {

/// Multi-producer, single-consumer queue of outbound lines.
pub struct OutboundQueue {
    items: Vec<String>,
    enqueued_since_drain: Ghost<Seq<Seq<char>>>,
    delivered_since_drain: Ghost<Seq<Seq<char>>>,
}

impl OutboundQueue {
    /// Lines waiting to be written, oldest first.
    pub closed spec fn pending(&self) -> Seq<Seq<char>> {
        Seq::new(self.items@.len() as nat, |i: int| self.items@[i]@)
    }

    /// Every line enqueued since the last drain, in order.
    pub closed spec fn enqueued(&self) -> Seq<Seq<char>> {
        self.enqueued_since_drain@
    }

    /// Every line handed to the writer since the last drain, in order.
    pub closed spec fn delivered(&self) -> Seq<Seq<char>> {
        self.delivered_since_drain@
    }

    /// What was delivered, then what still waits, is exactly what was
    /// enqueued since the last drain — FIFO, nothing lost, nothing made up.
    pub closed spec fn inv(&self) -> bool {
        self.delivered() + self.pending() == self.enqueued()
    }

    /// An empty queue.
    pub fn new() -> (q: OutboundQueue)
        ensures
            q.inv(),
            q.pending() == Seq::<Seq<char>>::empty(),
            q.enqueued() == Seq::<Seq<char>>::empty(),
            q.delivered() == Seq::<Seq<char>>::empty(),
    {
        let q = OutboundQueue {
            items: Vec::new(),
            enqueued_since_drain: Ghost(Seq::empty()),
            delivered_since_drain: Ghost(Seq::empty()),
        };
        proof {
            assert(q.pending() =~= Seq::<Seq<char>>::empty());
            assert(q.delivered() + q.pending() =~= q.enqueued());
        }
        q
    }

    /// Appends a line for the writer.
    pub fn enqueue(&mut self, msg: String)
        requires
            old(self).inv(),
        ensures
            final(self).inv(),
            final(self).pending() == old(self).pending().push(msg@),
            final(self).enqueued() == old(self).enqueued().push(msg@),
            final(self).delivered() == old(self).delivered(),
    {
        proof {
            self.enqueued_since_drain@ = self.enqueued_since_drain@.push(msg@);
        }
        self.items.push(msg);
        proof {
            assert(final(self).pending() =~= old(self).pending().push(msg@));
            assert(final(self).delivered() + final(self).pending() =~= final(self).enqueued());
        }
    }

    /// Discards everything: pending lines and both logs.  Run on each new
    /// connection, before anything is written to it.
    pub fn drain(&mut self)
        ensures
            final(self).inv(),
            final(self).pending() == Seq::<Seq<char>>::empty(),
            final(self).enqueued() == Seq::<Seq<char>>::empty(),
            final(self).delivered() == Seq::<Seq<char>>::empty(),
    {
        self.items.clear();
        proof {
            self.enqueued_since_drain@ = Seq::empty();
            self.delivered_since_drain@ = Seq::empty();
            assert(final(self).pending() =~= Seq::<Seq<char>>::empty());
            assert(final(self).delivered() + final(self).pending() =~= final(self).enqueued());
        }
    }

    /// Hands the oldest pending line to the writer, if one waits.
    pub fn try_deliver(&mut self) -> (r: Option<String>)
        requires
            old(self).inv(),
        ensures
            final(self).inv(),
            final(self).enqueued() == old(self).enqueued(),
            old(self).pending().len() == 0 ==> r is None && *final(self) == *old(self),
            old(self).pending().len() > 0 ==> (r matches Some(msg)
                && msg@ == old(self).pending()[0]
                && final(self).pending() == old(self).pending().skip(1)
                && final(self).delivered() == old(self).delivered().push(msg@)),
    {
        if self.items.len() == 0 {
            proof {
                assert(final(self).pending() =~= old(self).pending());
            }
            return None;
        }
        let msg = self.items.remove(0);
        proof {
            self.delivered_since_drain@ = self.delivered_since_drain@.push(msg@);
            assert(final(self).pending() =~= old(self).pending().skip(1));
            assert(final(self).delivered() + final(self).pending() =~= final(self).enqueued());
        }
        Some(msg)
    }

    /// How many lines wait.
    pub fn len(&self) -> (n: usize)
        ensures
            n == self.pending().len(),
    {
        self.items.len()
    }
}

/// On a fresh connection the queue is drained before anything is written,
/// so a message enqueued strictly before the drain — one absent from the
/// enqueued-since-drain log — is never delivered to that connection.
pub proof fn lemma_no_stale_delivery(q: OutboundQueue, m: Seq<char>)
    requires
        q.inv(),
        !q.enqueued().contains(m),
    ensures
        !q.delivered().contains(m),
{
    if q.delivered().contains(m) {
        let i = choose|i: int| 0 <= i < q.delivered().len() && q.delivered()[i] == m;
        assert(q.enqueued()[i] == (q.delivered() + q.pending())[i]);
        assert(q.enqueued().contains(m));
    }
}

/// The writer sees lines in enqueue order: the k-th line delivered since
/// the last drain is the k-th line enqueued since it.
pub proof fn lemma_fifo_delivery(q: OutboundQueue, k: int)
    requires
        q.inv(),
        0 <= k < q.delivered().len(),
    ensures
        q.delivered()[k] == q.enqueued()[k],
{
    assert(q.enqueued()[k] == (q.delivered() + q.pending())[k]);
}

} // verus!
