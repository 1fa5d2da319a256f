//! Events and actions exchanged between the drain task and its driver.

use vstd::prelude::*;

verus! {

/// What one non-blocking receive attempt on a channel bridge reports.
///
/// `Empty` and `Disconnected` are not errors: `Empty` is the designed trigger
/// for suspension and `Disconnected` the designed trigger for normal
/// completion.
pub enum RecvEvent<T> {
    /// One pending message, removed from the bridge in production order.
    Msg(T),
    /// No message is pending and the producing side is still attached.
    Empty,
    /// No message is pending and the producing side has gone away; this is
    /// terminal and permanent.
    Disconnected,
}

/// What the drain task asks its driver to do after consuming one event.
pub enum Action<T> {
    /// Emit this message on the task's output stream and keep draining.
    Forward(T),
    /// Park the task until its readiness token fires.
    Suspend,
    /// Release the task's resources; it will never run again.
    Complete,
}

/// How one greedy-drain scheduling turn ended.
#[derive(Clone, Copy, PartialEq, Eq, Structural, Debug)]
pub enum TurnOutcome {
    /// The bridge was empty but still attached: the task is suspended and must
    /// be resumed when its token fires.
    Suspended,
    /// The bridge was drained and disconnected: the task is completed.
    Completed,
}

} // verus!
