//! The suspension state machine of a cooperative drain task.
//!
//! An explicit machine stands where language-level stack capture would be: a
//! phase, the one readiness token the task waits on, and a transition
//! consuming one bridge observation at a time. Local progress — here the
//! ghost record of forwarded messages — is preserved exactly across a
//! suspend/resume pair: suspension changes nothing but the phase.

use vstd::prelude::*;

use crate::event::{Action, RecvEvent};
use crate::reactor::ReadinessToken;

verus! {

/// Where a task stands in its lifecycle.
#[derive(Clone, Copy, PartialEq, Eq, Structural, Debug)]
pub enum TaskPhase {
    /// Built by the routing layer, not yet driven.
    Created,
    /// Executing its logic between suspension points.
    Running,
    /// Parked, waiting on exactly one readiness token.
    Suspended,
    /// Finished; resources released; never driven again.
    Completed,
}

/// The abstract transition of the drain policy: which phase a task is in
/// after consuming one bridge observation.
///
/// A completed task stays completed whatever it observes; a running task
/// keeps running while messages arrive, suspends exactly on `Empty` and
/// completes exactly on `Disconnected`.
pub open spec fn next_phase<T>(phase: TaskPhase, ev: RecvEvent<T>) -> TaskPhase {
    if phase is Completed {
        TaskPhase::Completed
    } else {
        match ev {
            RecvEvent::Msg(_) => TaskPhase::Running,
            RecvEvent::Empty => TaskPhase::Suspended,
            RecvEvent::Disconnected => TaskPhase::Completed,
        }
    }
}

/// Completion is terminal: no observation moves a completed task anywhere.
pub proof fn lemma_completed_is_terminal<T>(ev: RecvEvent<T>)
    ensures
        next_phase::<T>(TaskPhase::Completed, ev) == TaskPhase::Completed,
{
}

/// One suspendable drain task: its phase, the token of its bridge
/// registration, and the ghost record of every message it forwarded so far,
/// in forwarding order.
pub struct DrainTask<T> {
    /// The current lifecycle phase.
    pub phase: TaskPhase,
    /// The token under which the task's bridge endpoint is registered.
    pub token: ReadinessToken,
    /// Every message forwarded to the output stream so far, in order.
    pub forwarded: Ghost<Seq<T>>,
}

impl<T> DrainTask<T> {
    /// The messages forwarded so far, in order.
    pub open spec fn forwarded_seq(self) -> Seq<T> {
        self.forwarded@
    }

    /// Build the task at request-handling time, bound to the token its
    /// bridge registration returned.
    pub fn create(token: ReadinessToken) -> (t: Self)
        ensures
            t.phase is Created,
            t.token == token,
            t.forwarded_seq() == Seq::<T>::empty(),
    {
        DrainTask { phase: TaskPhase::Created, token, forwarded: Ghost(Seq::empty()) }
    }

    /// First invocation of the task's logic by the scheduler.
    pub fn start(&mut self)
        requires
            old(self).phase is Created,
        ensures
            final(self).phase is Running,
            final(self).token == old(self).token,
            final(self).forwarded_seq() == old(self).forwarded_seq(),
    {
        self.phase = TaskPhase::Running;
    }

    /// Resumption by the scheduler, only in response to the task's own token
    /// firing. All local state is exactly as it was at suspension.
    pub fn resume(&mut self, fired: ReadinessToken)
        requires
            old(self).phase is Suspended,
            fired == old(self).token,
        ensures
            final(self).phase is Running,
            final(self).token == old(self).token,
            final(self).forwarded_seq() == old(self).forwarded_seq(),
    {
        self.phase = TaskPhase::Running;
    }

    /// Consume one bridge observation while running.
    ///
    /// The task asks its driver to suspend exactly when the bridge reported
    /// `Empty` — never while a message is pending — and to complete exactly
    /// when the bridge reported `Disconnected`. A message is recorded as
    /// forwarded at the moment it is handed out.
    pub fn on_event(&mut self, ev: RecvEvent<T>) -> (a: Action<T>)
        requires
            old(self).phase is Running,
        ensures
            final(self).phase == next_phase(old(self).phase, ev),
            final(self).token == old(self).token,
            a is Suspend <==> ev is Empty,
            a is Complete <==> ev is Disconnected,
            ev matches RecvEvent::Msg(m) ==> {
                &&& a == Action::Forward(m)
                &&& final(self).forwarded_seq() == old(self).forwarded_seq().push(m)
                &&& final(self).phase is Running
            },
            ev is Empty ==> final(self).phase is Suspended && final(self).forwarded_seq()
                == old(self).forwarded_seq(),
            ev is Disconnected ==> final(self).phase is Completed && final(self).forwarded_seq()
                == old(self).forwarded_seq(),
    {
        match ev {
            RecvEvent::Msg(m) => {
                proof {
                    self.forwarded@ = self.forwarded@.push(m);
                }
                Action::Forward(m)
            },
            RecvEvent::Empty => {
                self.phase = TaskPhase::Suspended;
                Action::Suspend
            },
            RecvEvent::Disconnected => {
                self.phase = TaskPhase::Completed;
                Action::Complete
            },
        }
    }
}

} // verus!
