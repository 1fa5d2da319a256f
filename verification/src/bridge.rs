//! Model of the channel bridge: a single-producer/single-consumer queue with a
//! permanent closed flag.
//!
//! The bridge owns the queue shared between the blocking worker and the
//! cooperative domain; each side owns only its operations (`send`/`close` for
//! the producer, `try_receive` for the consumer). The ghost `delivered` field
//! records every message the consumer has taken out, so the whole production
//! history `sent_seq` stays visible to contracts even after delivery.

use vstd::prelude::*;

use crate::event::RecvEvent;

verus! {

/// One direction of worker-to-task communication: the ordered pending
/// messages, a closed flag set exactly once when the producing side goes
/// away, and the ghost record of what was already delivered.
pub struct ChannelBridge<T> {
    /// Messages sent but not yet received, oldest first.
    pub pending: Vec<T>,
    /// Set exactly once, when the producing side is dropped; permanent.
    pub closed: bool,
    /// Every message the consumer has already received, in delivery order.
    pub delivered: Ghost<Seq<T>>,
}

impl<T> ChannelBridge<T> {
    /// The messages still queued, oldest first.
    pub open spec fn pending_seq(self) -> Seq<T> {
        self.pending@
    }

    /// The messages already handed to the consumer, in delivery order.
    pub open spec fn delivered_seq(self) -> Seq<T> {
        self.delivered@
    }

    /// Every message the producer ever sent, in production order.
    pub open spec fn sent_seq(self) -> Seq<T> {
        self.delivered@ + self.pending@
    }

    /// Whether the producing side has gone away.
    pub open spec fn is_closed(self) -> bool {
        self.closed
    }

    /// A fresh bridge: nothing sent, nothing delivered, producer attached.
    pub fn new() -> (b: Self)
        ensures
            b.sent_seq() == Seq::<T>::empty(),
            b.delivered_seq() == Seq::<T>::empty(),
            b.pending_seq() == Seq::<T>::empty(),
            !b.is_closed(),
    {
        let b = ChannelBridge { pending: Vec::new(), closed: false, delivered: Ghost(Seq::empty()) };
        proof {
            assert(b.sent_seq() =~= Seq::<T>::empty());
        }
        b
    }

    /// Producer side: enqueue one message. The producer can only send while
    /// it still holds its endpoint, hence while the bridge is open.
    pub fn send(&mut self, m: T)
        requires
            !old(self).is_closed(),
        ensures
            final(self).pending_seq() == old(self).pending_seq().push(m),
            final(self).sent_seq() == old(self).sent_seq().push(m),
            final(self).delivered_seq() == old(self).delivered_seq(),
            !final(self).is_closed(),
    {
        self.pending.push(m);
        proof {
            assert(self.sent_seq() =~= old(self).sent_seq().push(m));
        }
    }

    /// Producer side: drop the endpoint. Happens exactly once, whether the
    /// worker finished normally or failed; afterwards no message ever
    /// appears again.
    pub fn close(&mut self)
        requires
            !old(self).is_closed(),
        ensures
            final(self).is_closed(),
            final(self).pending_seq() == old(self).pending_seq(),
            final(self).delivered_seq() == old(self).delivered_seq(),
            final(self).sent_seq() == old(self).sent_seq(),
    {
        self.closed = true;
    }

    /// Consumer side: one non-blocking receive attempt.
    ///
    /// Pending messages come out strictly in production order, and they keep
    /// coming out even after the bridge closed: `Disconnected` is reported
    /// only once the queue is drained, never while a message is pending.
    pub fn try_receive(&mut self) -> (ev: RecvEvent<T>)
        ensures
            ev is Msg <==> old(self).pending_seq().len() > 0,
            ev is Empty <==> (old(self).pending_seq().len() == 0 && !old(self).is_closed()),
            ev is Disconnected <==> (old(self).pending_seq().len() == 0 && old(self).is_closed()),
            ev matches RecvEvent::Msg(m) ==> {
                &&& m == old(self).pending_seq()[0]
                &&& final(self).pending_seq() == old(self).pending_seq().drop_first()
                &&& final(self).delivered_seq() == old(self).delivered_seq().push(m)
            },
            !(ev is Msg) ==> *final(self) == *old(self),
            final(self).is_closed() == old(self).is_closed(),
            final(self).sent_seq() == old(self).sent_seq(),
    {
        if self.pending.len() > 0 {
            let m = self.pending.remove(0);
            proof {
                self.delivered@ = self.delivered@.push(m);
                assert(self.pending_seq() =~= old(self).pending_seq().drop_first());
                assert(self.sent_seq() =~= old(self).sent_seq());
            }
            RecvEvent::Msg(m)
        } else if self.closed {
            RecvEvent::Disconnected
        } else {
            RecvEvent::Empty
        }
    }
}

} // verus!
