//! Scheduling-turn scenarios over the session model.

use taskbridge::event::TurnOutcome;
use taskbridge::reactor::Reactor;
use taskbridge::session::Session;
use taskbridge::task::TaskPhase;

#[test]
fn zero_messages_then_disconnect() {
    let mut reactor = Reactor::new();
    let mut s = Session::<u64>::activate(&mut reactor, 1).unwrap();
    s.worker_close();
    let outcome = s.run_turn(&mut reactor);
    assert_eq!(outcome, TurnOutcome::Completed);
    assert_eq!(s.task.phase, TaskPhase::Completed);
    assert!(s.stream.acked);
    assert_eq!(s.stream.messages.len(), 0);
}

#[test]
fn two_messages_across_two_resumptions() {
    let mut reactor = Reactor::new();
    let mut s = Session::<&str>::activate(&mut reactor, 1).unwrap();
    let token = s.task.token;

    // First drive: nothing arrived yet, so the task suspends at once.
    let outcome = s.run_turn(&mut reactor);
    assert_eq!(outcome, TurnOutcome::Suspended);
    assert_eq!(s.task.phase, TaskPhase::Suspended);

    // The worker produces the first message; the token fires.
    s.worker_send("M1");
    let outcome = s.resume_turn(&mut reactor, token);
    assert_eq!(outcome, TurnOutcome::Suspended);
    assert_eq!(s.stream.messages, vec!["M1"]);

    // The worker produces the second message and terminates.
    s.worker_send("M2");
    s.worker_close();
    let outcome = s.resume_turn(&mut reactor, token);
    assert_eq!(outcome, TurnOutcome::Completed);
    assert!(s.stream.acked);
    assert_eq!(s.stream.messages, vec!["M1", "M2"]);
}

#[test]
fn drain_before_close() {
    // One unread message is still queued when the bridge disconnects: it must
    // be forwarded before the task observes the disconnect.
    let mut reactor = Reactor::new();
    let mut s = Session::<u64>::activate(&mut reactor, 1).unwrap();
    s.worker_send(42);
    s.worker_close();
    let outcome = s.run_turn(&mut reactor);
    assert_eq!(outcome, TurnOutcome::Completed);
    assert_eq!(s.stream.messages, vec![42]);
}

#[test]
fn forwards_all_in_order() {
    let mut reactor = Reactor::new();
    let mut s = Session::<u64>::activate(&mut reactor, 9).unwrap();
    s.worker_send(10);
    s.worker_send(20);
    s.worker_send(30);
    let outcome = s.run_turn(&mut reactor);
    assert_eq!(outcome, TurnOutcome::Suspended);
    assert_eq!(s.stream.messages, vec![10, 20, 30]);
    s.worker_close();
    let outcome = s.resume_turn(&mut reactor, s.task.token);
    assert_eq!(outcome, TurnOutcome::Completed);
    assert_eq!(s.stream.messages, vec![10, 20, 30]);
}

#[test]
fn suspends_only_when_empty() {
    let mut reactor = Reactor::new();
    let mut s = Session::<u64>::activate(&mut reactor, 3).unwrap();

    // A pending message is never left behind at a suspension.
    s.worker_send(5);
    let outcome = s.run_turn(&mut reactor);
    assert_eq!(outcome, TurnOutcome::Suspended);
    assert_eq!(s.stream.messages, vec![5]);

    // An empty, open bridge is exactly what makes the task suspend again.
    let outcome = s.resume_turn(&mut reactor, s.task.token);
    assert_eq!(outcome, TurnOutcome::Suspended);
    assert_eq!(s.stream.messages, vec![5]);
}

#[test]
fn no_registration_after_completion() {
    let mut reactor = Reactor::new();
    let mut s = Session::<u64>::activate(&mut reactor, 4).unwrap();
    let token = s.task.token;
    assert!(reactor.is_registered(token));
    s.worker_close();
    let outcome = s.run_turn(&mut reactor);
    assert_eq!(outcome, TurnOutcome::Completed);
    // Deregistered atomically with completion: the reactor can never again
    // report this token as fired.
    assert!(!reactor.is_registered(token));
}

#[test]
fn completed_resource_can_be_reused() {
    let mut reactor = Reactor::new();
    let mut s = Session::<u64>::activate(&mut reactor, 8).unwrap();
    s.worker_close();
    s.run_turn(&mut reactor);
    // The registration died with the task; the same resource registers anew,
    // under a fresh token.
    let s2 = Session::<u64>::activate(&mut reactor, 8).unwrap();
    assert_ne!(s2.task.token, s.task.token);
}
