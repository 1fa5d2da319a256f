//! One task's end-to-end wiring: its channel bridge, its suspension state
//! machine and its output stream, driven in scheduling turns.
//!
//! The session is the model of the canonical "drain a bridge" task body: on
//! every turn it greedily drains the bridge into the stream, suspends exactly
//! when the bridge is empty but open, and completes exactly when the bridge
//! is closed and drained, deregistering its token in the same turn. The
//! well-formedness predicate ties the three components together and yields
//! the end-to-end guarantee: the stream receives exactly the worker's
//! messages, in production order, behind a one-time acknowledgement.

use vstd::prelude::*;

use crate::bridge::ChannelBridge;
use crate::event::{Action, TurnOutcome};
use crate::reactor::{Reactor, ReadinessToken, RegistrationError};
use crate::stream::OutputStream;
use crate::task::{DrainTask, TaskPhase};

verus! {

/// The per-request state a drain task owns: the consuming side of its
/// bridge, its state machine, and the stream bound to the requesting
/// exchange.
pub struct Session<T> {
    /// The bridge the worker thread produces into.
    pub bridge: ChannelBridge<T>,
    /// The suspension state machine.
    pub task: DrainTask<T>,
    /// The stream the task forwards into.
    pub stream: OutputStream<T>,
}

impl<T> Session<T> {
    /// The task's lifecycle phase.
    pub open spec fn phase(self) -> TaskPhase {
        self.task.phase
    }

    /// The readiness token of the task's bridge registration.
    pub open spec fn token(self) -> ReadinessToken {
        self.task.token
    }

    /// Everything the worker ever sent, in production order.
    pub open spec fn worker_sent(self) -> Seq<T> {
        self.bridge.sent_seq()
    }

    /// Everything the task emitted on its stream, in order.
    pub open spec fn emitted(self) -> Seq<T> {
        self.stream.messages_seq()
    }

    /// Whether the worker's side of the bridge has gone away.
    pub open spec fn bridge_closed(self) -> bool {
        self.bridge.is_closed()
    }

    /// The session invariant. The acknowledgement went out at activation;
    /// the stream carries exactly the messages delivered out of the bridge,
    /// which are exactly the ones the task forwarded; a completed task has
    /// observed the bridge closed and drained.
    pub open spec fn wf(self) -> bool {
        &&& self.stream.ack_sent()
        &&& self.stream.messages_seq() == self.bridge.delivered_seq()
        &&& self.task.forwarded_seq() == self.bridge.delivered_seq()
        &&& !(self.task.phase is Created)
        &&& (self.task.phase is Completed ==> self.bridge.is_closed()
            && self.bridge.pending_seq().len() == 0)
    }

    /// How the session relates to the reactor that drives it: its token is
    /// registered for exactly as long as the task is not completed.
    /// Completion deregisters before — atomically with — the transition.
    pub open spec fn wf_with(self, reactor: Reactor) -> bool {
        if self.phase() is Completed {
            !reactor.token_registered(self.token())
        } else {
            reactor.token_registered(self.token())
        }
    }

    /// Activation of one inbound request: register the bridge's consuming
    /// side (identified by `resource`) with the reactor, send the one-time
    /// acknowledgement, and enter the running phase.
    ///
    /// Fails exactly when the reactor refuses the registration; the reactor
    /// is then untouched, no session exists and nothing was emitted.
    pub fn activate(reactor: &mut Reactor, resource: u64) -> (r: Result<
        Session<T>,
        RegistrationError,
    >)
        requires
            old(reactor).wf(),
        ensures
            final(reactor).wf(),
            r is Err <==> (old(reactor).resource_registered(resource) || old(
                reactor,
            ).at_capacity()),
            r is Err ==> *final(reactor) == *old(reactor),
            old(reactor).resource_registered(resource) ==> r == Result::<
                Session<T>,
                RegistrationError,
            >::Err(RegistrationError::AlreadyRegistered),
            r matches Ok(s) ==> {
                &&& s.wf()
                &&& s.wf_with(*final(reactor))
                &&& s.phase() is Running
                &&& s.emitted() == Seq::<T>::empty()
                &&& s.worker_sent() == Seq::<T>::empty()
                &&& !s.bridge_closed()
                &&& s.stream.ack_sent()
                &&& final(reactor).bound_to(resource, s.token())
                &&& forall|x: u64|
                    final(reactor).resource_registered(x) <==> (old(
                        reactor,
                    ).resource_registered(x) || x == resource)
                &&& forall|u: ReadinessToken|
                    final(reactor).token_registered(u) <==> (old(reactor).token_registered(u) || u
                        == s.token())
                &&& s.token().id == old(reactor).next_token_id
                &&& final(reactor).next_token_id == old(reactor).next_token_id + 1
            },
    {
        match reactor.register(resource) {
            Result::Err(e) => Result::Err(e),
            Result::Ok(token) => {
                let bridge = ChannelBridge::new();
                let mut stream = OutputStream::new();
                stream.send_ack();
                let mut task = DrainTask::create(token);
                task.start();
                Result::Ok(Session { bridge, task, stream })
            },
        }
    }

    /// Worker side: produce one message into the bridge. Possible for as
    /// long as the worker holds its endpoint, wherever the task stands.
    pub fn worker_send(&mut self, m: T)
        requires
            old(self).wf(),
            !old(self).bridge_closed(),
        ensures
            final(self).wf(),
            final(self).worker_sent() == old(self).worker_sent().push(m),
            final(self).emitted() == old(self).emitted(),
            final(self).phase() == old(self).phase(),
            final(self).token() == old(self).token(),
            !final(self).bridge_closed(),
    {
        self.bridge.send(m);
    }

    /// Worker side: the worker terminated — normally or abnormally — and its
    /// endpoint was dropped. Permanent; no further message ever appears.
    pub fn worker_close(&mut self)
        requires
            old(self).wf(),
            !old(self).bridge_closed(),
        ensures
            final(self).wf(),
            final(self).bridge_closed(),
            final(self).worker_sent() == old(self).worker_sent(),
            final(self).emitted() == old(self).emitted(),
            final(self).phase() == old(self).phase(),
            final(self).token() == old(self).token(),
    {
        self.bridge.close();
    }

    /// One scheduling turn over a running task: greedily drain the bridge
    /// into the stream — never suspending while a message is pending — then
    /// suspend exactly if the bridge was open, or complete exactly if it was
    /// closed, deregistering the token in the same turn.
    pub fn run_turn(&mut self, reactor: &mut Reactor) -> (outcome: TurnOutcome)
        requires
            old(self).wf(),
            old(self).phase() is Running,
            old(reactor).wf(),
            old(reactor).token_registered(old(self).token()),
        ensures
            final(self).wf(),
            final(reactor).wf(),
            final(self).wf_with(*final(reactor)),
            final(self).token() == old(self).token(),
            final(self).worker_sent() == old(self).worker_sent(),
            final(self).bridge_closed() == old(self).bridge_closed(),
            final(self).emitted() == old(self).emitted() + old(self).bridge.pending_seq(),
            final(self).bridge.pending_seq().len() == 0,
            outcome is Suspended <==> !old(self).bridge_closed(),
            outcome is Completed <==> old(self).bridge_closed(),
            final(self).phase() is Suspended <==> outcome is Suspended,
            final(self).phase() is Completed <==> outcome is Completed,
            outcome is Suspended ==> *final(reactor) == *old(reactor),
            forall|u: ReadinessToken|
                u != old(self).token() ==> (final(reactor).token_registered(u) <==> old(
                    reactor,
                ).token_registered(u)),
            forall|x: u64|
                final(reactor).resource_registered(x) <==> (old(reactor).resource_registered(x)
                    && !(outcome is Completed && old(reactor).bound_to(x, old(self).token()))),
            final(reactor).next_token_id == old(reactor).next_token_id,
    {
        let ghost pre = *self;
        let ghost rpre = *reactor;
        loop
            invariant
                pre == *old(self),
                pre.wf(),
                rpre == *old(reactor),
                *reactor == rpre,
                rpre.wf(),
                rpre.token_registered(self.task.token),
                self.wf(),
                self.task.phase is Running,
                self.task.token == pre.token(),
                self.bridge.is_closed() == pre.bridge_closed(),
                self.bridge.sent_seq() == pre.worker_sent(),
            decreases self.bridge.pending_seq().len(),
        {
            let ev = self.bridge.try_receive();
            let a = self.task.on_event(ev);
            match a {
                Action::Forward(m) => {
                    self.stream.emit(m);
                },
                Action::Suspend => {
                    proof {
                        assert(self.bridge.delivered_seq() + self.bridge.pending_seq()
                            =~= self.bridge.delivered_seq());
                        assert(self.stream.messages_seq() =~= pre.emitted()
                            + pre.bridge.pending_seq());
                    }
                    return TurnOutcome::Suspended;
                },
                Action::Complete => {
                    reactor.deregister(self.task.token);
                    proof {
                        assert(self.bridge.delivered_seq() + self.bridge.pending_seq()
                            =~= self.bridge.delivered_seq());
                        assert(self.stream.messages_seq() =~= pre.emitted()
                            + pre.bridge.pending_seq());
                    }
                    return TurnOutcome::Completed;
                },
            }
        }
    }

    /// Resumption of a suspended task, only in response to its own token
    /// firing, followed by one scheduling turn. Local progress is exactly as
    /// it was at suspension: nothing is lost, nothing replayed.
    pub fn resume_turn(&mut self, reactor: &mut Reactor, fired: ReadinessToken) -> (outcome:
        TurnOutcome)
        requires
            old(self).wf(),
            old(self).phase() is Suspended,
            fired == old(self).token(),
            old(reactor).wf(),
            old(reactor).token_registered(old(self).token()),
        ensures
            final(self).wf(),
            final(reactor).wf(),
            final(self).wf_with(*final(reactor)),
            final(self).token() == old(self).token(),
            final(self).worker_sent() == old(self).worker_sent(),
            final(self).bridge_closed() == old(self).bridge_closed(),
            final(self).emitted() == old(self).emitted() + old(self).bridge.pending_seq(),
            final(self).bridge.pending_seq().len() == 0,
            outcome is Suspended <==> !old(self).bridge_closed(),
            outcome is Completed <==> old(self).bridge_closed(),
            final(self).phase() is Suspended <==> outcome is Suspended,
            final(self).phase() is Completed <==> outcome is Completed,
            outcome is Suspended ==> *final(reactor) == *old(reactor),
            forall|u: ReadinessToken|
                u != old(self).token() ==> (final(reactor).token_registered(u) <==> old(
                    reactor,
                ).token_registered(u)),
            forall|x: u64|
                final(reactor).resource_registered(x) <==> (old(reactor).resource_registered(x)
                    && !(outcome is Completed && old(reactor).bound_to(x, old(self).token()))),
            final(reactor).next_token_id == old(reactor).next_token_id,
    {
        self.task.resume(fired);
        self.run_turn(reactor)
    }
}

/// Exact forwarding: a completed session's stream holds exactly the
/// messages the worker sent, in production order — no duplication, no loss —
/// behind the one-time acknowledgement, however the drain/suspend boundaries
/// fell relative to the sends.
pub proof fn lemma_completion_forwards_exactly<T>(s: Session<T>)
    requires
        s.wf(),
        s.phase() is Completed,
    ensures
        s.emitted() == s.worker_sent(),
        s.stream.ack_sent(),
{
    assert(s.emitted() =~= s.worker_sent());
}

/// No readiness for the dead: whatever set of fired tokens the reactor
/// reports — always a subset of the live registrations — it never contains
/// the token of a session whose task has completed.
pub proof fn lemma_no_readiness_for_completed<T>(
    s: Session<T>,
    reactor: Reactor,
    fired: Set<ReadinessToken>,
)
    requires
        s.wf_with(reactor),
        s.phase() is Completed,
        forall|t: ReadinessToken| fired.contains(t) ==> reactor.token_registered(t),
    ensures
        !fired.contains(s.token()),
{
}

} // verus!
