//! The drain machine against a real mio_extras channel.

use taskbridge::event::TurnOutcome;
use taskbridge::live::live_turn;
use taskbridge::reactor::ReadinessToken;
use taskbridge::task::{DrainTask, TaskPhase};

#[test]
fn live_turn_drains_real_channel() {
    let (tx, rx) = mio_extras::channel::channel::<u64>();
    tx.send(1).unwrap();
    tx.send(2).unwrap();

    let mut task = DrainTask::<u64>::create(ReadinessToken { id: 0 });
    task.start();

    let (out, outcome) = live_turn(&rx, &mut task, 16);
    assert_eq!(out, vec![1, 2]);
    assert_eq!(outcome, Some(TurnOutcome::Suspended));
    assert_eq!(task.phase, TaskPhase::Suspended);

    // The sender goes away: the next turn completes the task.
    drop(tx);
    task.resume(ReadinessToken { id: 0 });
    let (out, outcome) = live_turn(&rx, &mut task, 16);
    assert_eq!(out, Vec::<u64>::new());
    assert_eq!(outcome, Some(TurnOutcome::Completed));
    assert_eq!(task.phase, TaskPhase::Completed);
}

#[test]
fn live_turn_drains_before_disconnect() {
    let (tx, rx) = mio_extras::channel::channel::<u64>();
    tx.send(7).unwrap();
    drop(tx);

    let mut task = DrainTask::<u64>::create(ReadinessToken { id: 3 });
    task.start();

    // The queued message comes out before the disconnect is observed.
    let (out, outcome) = live_turn(&rx, &mut task, 16);
    assert_eq!(out, vec![7]);
    assert_eq!(outcome, Some(TurnOutcome::Completed));
}

#[test]
fn live_turn_budget_exhaustion_keeps_running() {
    let (tx, rx) = mio_extras::channel::channel::<u64>();
    tx.send(1).unwrap();

    let mut task = DrainTask::<u64>::create(ReadinessToken { id: 1 });
    task.start();

    let (out, outcome) = live_turn(&rx, &mut task, 0);
    assert_eq!(out, Vec::<u64>::new());
    assert_eq!(outcome, None);
    assert_eq!(task.phase, TaskPhase::Running);

    // The driver just calls again; nothing was lost.
    let (out, outcome) = live_turn(&rx, &mut task, 16);
    assert_eq!(out, vec![1]);
    assert_eq!(outcome, Some(TurnOutcome::Suspended));
}

#[test]
fn live_turn_budget_bounds_the_drain() {
    let (tx, rx) = mio_extras::channel::channel::<u64>();
    tx.send(1).unwrap();
    tx.send(2).unwrap();
    tx.send(3).unwrap();

    let mut task = DrainTask::<u64>::create(ReadinessToken { id: 2 });
    task.start();

    // A budget-exhausted turn hands out exactly `budget` messages, in order.
    let (out, outcome) = live_turn(&rx, &mut task, 2);
    assert_eq!(out, vec![1, 2]);
    assert_eq!(outcome, None);
    assert_eq!(task.phase, TaskPhase::Running);

    let (out, outcome) = live_turn(&rx, &mut task, 2);
    assert_eq!(out, vec![3]);
    assert_eq!(outcome, Some(TurnOutcome::Suspended));
}
