//! Model of the output stream: an ordered, per-request message sink with a
//! one-time initial acknowledgement.
//!
//! The stream is bound to one request for the lifetime of its task; the task
//! owns it exclusively. The acknowledgement is sent at most once, and always
//! before any message, which the operations enforce by construction.

use vstd::prelude::*;

verus! {

/// Everything a task has emitted towards the requesting exchange.
pub struct OutputStream<T> {
    /// Whether the one-time initial acknowledgement went out already.
    pub acked: bool,
    /// The forwarded messages, in emission order.
    pub messages: Vec<T>,
}

impl<T> OutputStream<T> {
    /// Whether the initial acknowledgement went out already.
    pub open spec fn ack_sent(self) -> bool {
        self.acked
    }

    /// The messages emitted so far, in order.
    pub open spec fn messages_seq(self) -> Seq<T> {
        self.messages@
    }

    /// The acknowledgement precedes any message: no stream ever carries a
    /// message without carrying the acknowledgement first.
    pub open spec fn wf(self) -> bool {
        self.messages_seq().len() > 0 ==> self.ack_sent()
    }

    /// A fresh stream: nothing emitted yet.
    pub fn new() -> (s: Self)
        ensures
            !s.ack_sent(),
            s.messages_seq() == Seq::<T>::empty(),
            s.wf(),
    {
        OutputStream { acked: false, messages: Vec::new() }
    }

    /// Send the initial acknowledgement, exactly once per task.
    pub fn send_ack(&mut self)
        requires
            !old(self).ack_sent(),
        ensures
            final(self).ack_sent(),
            final(self).messages_seq() == old(self).messages_seq(),
            final(self).wf(),
    {
        self.acked = true;
    }

    /// Emit one message; only allowed once the acknowledgement went out.
    pub fn emit(&mut self, m: T)
        requires
            old(self).ack_sent(),
        ensures
            final(self).ack_sent(),
            final(self).messages_seq() == old(self).messages_seq().push(m),
            final(self).wf(),
    {
        self.messages.push(m);
    }

    /// How many messages went out so far.
    pub fn message_count(&self) -> (n: usize)
        ensures
            n == self.messages_seq().len(),
    {
        self.messages.len()
    }
}

} // verus!
