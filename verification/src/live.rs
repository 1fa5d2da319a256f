//! Driving the drain machine against a real channel endpoint.
//!
//! The worker-facing side of a `mio_extras` channel lives with the worker
//! thread, outside this crate; here the task-facing endpoint is polled
//! without ever blocking, and the verified state machine consumes whatever
//! the poll reported. A turn returns the messages to emit, in order, and
//! whether the task is to be parked or released; performing the emission and
//! the suspension is the unverified driver's part.

use vstd::prelude::*;

use crate::event::{Action, RecvEvent, TurnOutcome};
use crate::task::DrainTask;

verus! {

/// The consuming endpoint of a `mio_extras` channel, held opaquely so it can
/// cross this crate's signatures.
#[verifier::external_type_specification]
#[verifier::external_body]
#[verifier::reject_recursive_types(T)]
pub struct ExReceiver<T>(mio_extras::channel::Receiver<T>);

/// Relies on `mio_extras::channel::Receiver::try_recv`: one non-blocking
/// receive attempt against the worker's queue, reporting a pending message,
/// `Empty`, or `Disconnected`. Which of the three comes back depends on the
/// worker thread, so nothing is promised of the outcome; the state machine
/// consuming the event is verified for every one of them.
#[verifier::external_body]
fn poll_endpoint<T>(rx: &mio_extras::channel::Receiver<T>) -> RecvEvent<T> {
    match rx.try_recv() {
        Ok(m) => RecvEvent::Msg(m),
        Err(std::sync::mpsc::TryRecvError::Empty) => RecvEvent::Empty,
        Err(std::sync::mpsc::TryRecvError::Disconnected) => RecvEvent::Disconnected,
    }
}

/// One greedy-drain scheduling turn of a running task against a live
/// endpoint: poll, feed the machine, and collect the messages it forwards
/// until it asks to suspend or to complete, or until `budget` polls went by.
///
/// The task suspends only on an `Empty` poll — never while a message was
/// handed out — and the collected messages are exactly the ones recorded as
/// forwarded, in order. A `None` outcome means the budget ran out while
/// messages kept arriving — exactly `budget` messages came out — and the
/// task is still running: the driver simply calls again; nothing is lost
/// and nothing suspends.
pub fn live_turn<T>(
    rx: &mio_extras::channel::Receiver<T>,
    task: &mut DrainTask<T>,
    budget: usize,
) -> (r: (Vec<T>, Option<TurnOutcome>))
    requires
        old(task).phase is Running,
    ensures
        final(task).token == old(task).token,
        final(task).forwarded_seq() == old(task).forwarded_seq() + r.0@,
        r.1 matches Some(o) ==> {
            &&& (o is Suspended <==> final(task).phase is Suspended)
            &&& (o is Completed <==> final(task).phase is Completed)
            &&& (final(task).phase is Suspended || final(task).phase is Completed)
        },
        r.1 is None ==> final(task).phase is Running,
        r.1 is None ==> r.0@.len() == budget,
        budget == 0 ==> r.1 is None,
{
    let mut out: Vec<T> = Vec::new();
    let mut polls_left = budget;
    let ghost pre = *task;
    proof {
        assert(pre.forwarded_seq() + out@ =~= pre.forwarded_seq());
    }
    loop
        invariant
            pre == *old(task),
            task.phase is Running,
            task.token == pre.token,
            task.forwarded_seq() == pre.forwarded_seq() + out@,
            out@.len() + polls_left == budget,
        decreases polls_left,
    {
        if polls_left == 0 {
            return (out, Option::None);
        }
        polls_left = polls_left - 1;
        let ev = poll_endpoint(rx);
        let a = task.on_event(ev);
        match a {
            Action::Forward(m) => {
                out.push(m);
                proof {
                    assert(task.forwarded_seq() =~= pre.forwarded_seq() + out@);
                }
            },
            Action::Suspend => {
                return (out, Option::Some(TurnOutcome::Suspended));
            },
            Action::Complete => {
                return (out, Option::Some(TurnOutcome::Completed));
            },
        }
    }
}

} // verus!
