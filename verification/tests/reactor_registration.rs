//! Registration-table behaviour of the reactor.

use taskbridge::reactor::{Reactor, ReadinessToken, RegistrationError};

#[test]
fn duplicate_registration_rejected() {
    let mut reactor = Reactor::new();
    let t = reactor.register(5).unwrap();
    // Same underlying resource, no deregister in between: refused, never
    // silently duplicated.
    assert_eq!(reactor.register(5), Err(RegistrationError::AlreadyRegistered));
    assert!(reactor.is_registered(t));
}

#[test]
fn deregister_then_register_again() {
    let mut reactor = Reactor::new();
    let t1 = reactor.register(5).unwrap();
    reactor.deregister(t1);
    assert!(!reactor.is_registered(t1));
    let t2 = reactor.register(5).unwrap();
    // Tokens are unique per registration; the stale one stays dead.
    assert_ne!(t1, t2);
    assert!(reactor.is_registered(t2));
    assert!(!reactor.is_registered(t1));
}

#[test]
fn deregister_is_idempotent() {
    let mut reactor = Reactor::new();
    let t = reactor.register(1).unwrap();
    reactor.deregister(t);
    reactor.deregister(t);
    assert!(!reactor.is_registered(t));
    // A token that was never issued is safe to deregister too.
    reactor.deregister(ReadinessToken { id: 999 });
}

#[test]
fn independent_resources_coexist() {
    let mut reactor = Reactor::new();
    let t1 = reactor.register(1).unwrap();
    let t2 = reactor.register(2).unwrap();
    assert_ne!(t1, t2);
    reactor.deregister(t1);
    assert!(!reactor.is_registered(t1));
    assert!(reactor.is_registered(t2));
}

#[test]
fn limit_reached_when_no_token_left() {
    // The issue counter models the platform limit on registrations.
    let mut reactor = Reactor { entries: Vec::new(), next_token_id: u64::MAX };
    assert_eq!(reactor.register(1), Err(RegistrationError::LimitReached));
}
