//! The reactor's registration table: resources bound to readiness tokens.
//!
//! Only the reactor thread mutates this table, so it is a plain sequential
//! structure. Each successful registration issues a fresh token, never reused
//! for the lifetime of the reactor; deregistration is idempotent and keeps
//! the entry as a tombstone so stale tokens stay distinguishable from live
//! ones. Registering a resource that is already observed fails rather than
//! silently duplicating notifications.

use vstd::prelude::*;

verus! {

/// Opaque handle naming one registration of a pollable resource.
#[derive(Clone, Copy, PartialEq, Eq, Structural, Debug)]
pub struct ReadinessToken {
    /// Identity of the registration; unique per reactor, never reused.
    pub id: u64,
}

/// Why a registration was refused.
#[derive(Clone, Copy, PartialEq, Eq, Structural, Debug)]
pub enum RegistrationError {
    /// The resource is already observed and was not deregistered in between.
    AlreadyRegistered,
    /// The underlying readiness mechanism can take no further registration.
    LimitReached,
}

/// One row of the registration table. A deregistered row stays, inactive,
/// so its token id is never handed out again.
#[derive(Clone, Copy)]
pub struct RegistrationEntry {
    /// Identity of the pollable resource that was registered.
    pub resource: u64,
    /// The token issued for this registration.
    pub token_id: u64,
    /// Whether the registration is still live.
    pub active: bool,
}

/// The registration table of a single-threaded readiness reactor.
pub struct Reactor {
    /// All registrations ever made, live and tombstoned.
    pub entries: Vec<RegistrationEntry>,
    /// The id the next successful registration will be issued.
    pub next_token_id: u64,
}

impl Reactor {
    /// Row `i` exists and is live.
    pub open spec fn live_at(self, i: int) -> bool {
        0 <= i < self.entries@.len() && self.entries@[i].active
    }

    /// Some live registration carries this token.
    pub open spec fn token_registered(self, t: ReadinessToken) -> bool {
        exists|i: int| self.live_at(i) && #[trigger] self.entries@[i].token_id == t.id
    }

    /// Some live registration observes this resource.
    pub open spec fn resource_registered(self, r: u64) -> bool {
        exists|i: int| self.live_at(i) && #[trigger] self.entries@[i].resource == r
    }

    /// This resource is live under exactly this token.
    pub open spec fn bound_to(self, r: u64, t: ReadinessToken) -> bool {
        exists|i: int|
            self.live_at(i) && #[trigger] self.entries@[i].resource == r
                && self.entries@[i].token_id == t.id
    }

    /// No further token id can be issued.
    pub open spec fn at_capacity(self) -> bool {
        self.next_token_id == u64::MAX
    }

    /// Table invariant: token ids are unique over all rows and below the
    /// issue counter, and no two live rows observe the same resource.
    pub open spec fn wf(self) -> bool {
        &&& forall|i: int, j: int|
            0 <= i < self.entries@.len() && 0 <= j < self.entries@.len() && i != j
                ==> #[trigger] self.entries@[i].token_id != #[trigger] self.entries@[j].token_id
        &&& forall|i: int, j: int|
            self.live_at(i) && self.live_at(j) && i != j
                ==> #[trigger] self.entries@[i].resource != #[trigger] self.entries@[j].resource
        &&& forall|i: int|
            0 <= i < self.entries@.len() ==> #[trigger] self.entries@[i].token_id
                < self.next_token_id
    }

    /// A reactor with an empty registration table.
    pub fn new() -> (r: Self)
        ensures
            r.wf(),
            forall|t: ReadinessToken| !r.token_registered(t),
            forall|x: u64| !r.resource_registered(x),
            !r.at_capacity(),
            r.next_token_id == 0,
            r.entries@.len() == 0,
    {
        Reactor { entries: Vec::new(), next_token_id: 0 }
    }

    /// Bind a pollable resource, identified by `resource`, with readable
    /// interest.
    ///
    /// Fails exactly when the resource is already observed — registering
    /// twice without an intervening deregister never silently duplicates
    /// notifications — or when the platform limit is reached. On success the
    /// returned token is fresh: it names this registration and no earlier
    /// one.
    pub fn register(&mut self, resource: u64) -> (r: Result<ReadinessToken, RegistrationError>)
        requires
            old(self).wf(),
        ensures
            final(self).wf(),
            r is Err <==> (old(self).resource_registered(resource) || old(self).at_capacity()),
            r is Err ==> *final(self) == *old(self),
            old(self).resource_registered(resource) ==> r == Result::<
                ReadinessToken,
                RegistrationError,
            >::Err(RegistrationError::AlreadyRegistered),
            !old(self).resource_registered(resource) && old(self).at_capacity() ==> r == Result::<
                ReadinessToken,
                RegistrationError,
            >::Err(RegistrationError::LimitReached),
            r matches Ok(t) ==> {
                &&& t.id == old(self).next_token_id
                &&& !old(self).token_registered(t)
                &&& final(self).token_registered(t)
                &&& final(self).bound_to(resource, t)
                &&& forall|x: u64|
                    final(self).resource_registered(x) <==> (old(self).resource_registered(x)
                        || x == resource)
                &&& forall|u: ReadinessToken|
                    final(self).token_registered(u) <==> (old(self).token_registered(u) || u == t)
                &&& final(self).next_token_id == old(self).next_token_id + 1
            },
    {
        let ghost pre = *self;
        let n = self.entries.len();
        let mut i: usize = 0;
        while i < n
            invariant
                *self == pre,
                pre == *old(self),
                pre.wf(),
                n == self.entries@.len(),
                i <= n,
                forall|j: int|
                    0 <= j < i ==> !(#[trigger] self.entries@[j].active && self.entries@[j].resource
                        == resource),
            decreases n - i,
        {
            if self.entries[i].active && self.entries[i].resource == resource {
                return Result::Err(RegistrationError::AlreadyRegistered);
            }
            i += 1;
        }
        if self.next_token_id == u64::MAX {
            return Result::Err(RegistrationError::LimitReached);
        }
        let t = ReadinessToken { id: self.next_token_id };
        self.entries.push(RegistrationEntry { resource, token_id: t.id, active: true });
        self.next_token_id = self.next_token_id + 1;
        proof {
            let last = pre.entries@.len() as int;
            assert(self.live_at(last) && self.entries@[last].resource == resource
                && self.entries@[last].token_id == t.id);
            assert forall|x: u64| self.resource_registered(x) implies (
            pre.resource_registered(x) || x == resource) by {
                let w = choose|i: int|
                    self.live_at(i) && #[trigger] self.entries@[i].resource == x;
                if w < last {
                    assert(pre.live_at(w) && pre.entries@[w].resource == x);
                }
            }
            assert forall|x: u64|
                pre.resource_registered(x) || x == resource implies self.resource_registered(
                x,
            ) by {
                if pre.resource_registered(x) {
                    let w = choose|i: int|
                        pre.live_at(i) && #[trigger] pre.entries@[i].resource == x;
                    assert(self.live_at(w) && self.entries@[w].resource == x);
                }
            }
            assert forall|u: ReadinessToken| self.token_registered(u) implies (
            pre.token_registered(u) || u == t) by {
                let w = choose|i: int|
                    self.live_at(i) && #[trigger] self.entries@[i].token_id == u.id;
                if w < last {
                    assert(pre.live_at(w) && pre.entries@[w].token_id == u.id);
                }
            }
            assert forall|u: ReadinessToken|
                pre.token_registered(u) || u == t implies self.token_registered(u) by {
                if pre.token_registered(u) {
                    let w = choose|i: int|
                        pre.live_at(i) && #[trigger] pre.entries@[i].token_id == u.id;
                    assert(self.live_at(w) && self.entries@[w].token_id == u.id);
                }
            }
            if pre.token_registered(t) {
                let w = choose|i: int|
                    pre.live_at(i) && #[trigger] pre.entries@[i].token_id == t.id;
                assert(pre.entries@[w].token_id < pre.next_token_id);
            }
        }
        Result::Ok(t)
    }

    /// Idempotent removal of a registration; safe to call during or after
    /// task completion, and on a token that was never issued.
    ///
    /// The token stops being registered; every other token keeps its status;
    /// a resource stays registered exactly if it was and was not bound to
    /// this token.
    pub fn deregister(&mut self, token: ReadinessToken)
        requires
            old(self).wf(),
        ensures
            final(self).wf(),
            !final(self).token_registered(token),
            forall|u: ReadinessToken|
                u != token ==> (final(self).token_registered(u) <==> old(self).token_registered(
                    u,
                )),
            forall|x: u64|
                final(self).resource_registered(x) <==> (old(self).resource_registered(x)
                    && !old(self).bound_to(x, token)),
            final(self).next_token_id == old(self).next_token_id,
            final(self).at_capacity() == old(self).at_capacity(),
    {
        let ghost pre = *self;
        let n = self.entries.len();
        let mut i: usize = 0;
        while i < n
            invariant
                *self == pre,
                pre == *old(self),
                pre.wf(),
                n == self.entries@.len(),
                i <= n,
                forall|j: int| 0 <= j < i ==> #[trigger] self.entries@[j].token_id != token.id,
            decreases n - i,
        {
            if self.entries[i].token_id == token.id {
                let mut e = self.entries.remove(i);
                e.active = false;
                self.entries.insert(i, e);
                proof {
                    let k = i as int;
                    assert(self.entries@ =~= pre.entries@.update(k, e));
                    lemma_deregister_update(pre, *self, token, k, e);
                }
                return ;
            }
            i += 1;
        }
        proof {
            assert forall|x: u64| pre.resource_registered(x) implies !pre.bound_to(x, token) by {
                if pre.bound_to(x, token) {
                    let w = choose|i: int|
                        pre.live_at(i) && #[trigger] pre.entries@[i].resource == x
                            && pre.entries@[i].token_id == token.id;
                }
            }
        }
    }

    /// Whether a token currently names a live registration.
    pub fn is_registered(&self, token: ReadinessToken) -> (b: bool)
        ensures
            b == self.token_registered(token),
    {
        let n = self.entries.len();
        let mut i: usize = 0;
        while i < n
            invariant
                n == self.entries@.len(),
                i <= n,
                forall|j: int|
                    0 <= j < i ==> !(#[trigger] self.entries@[j].active && self.entries@[j].token_id
                        == token.id),
            decreases n - i,
        {
            if self.entries[i].active && self.entries[i].token_id == token.id {
                proof {
                    assert(self.live_at(i as int));
                }
                return true;
            }
            i += 1;
        }
        false
    }
}

/// After tombstoning the unique row `k` that carried `token`, exactly that
/// token drops out of the table and exactly its resource stops being
/// registered.
proof fn lemma_deregister_update(
    pre: Reactor,
    post: Reactor,
    token: ReadinessToken,
    k: int,
    e: RegistrationEntry,
)
    requires
        pre.wf(),
        0 <= k < pre.entries@.len(),
        pre.entries@[k].token_id == token.id,
        e == (RegistrationEntry { active: false, ..pre.entries@[k] }),
        post.entries@ == pre.entries@.update(k, e),
        post.next_token_id == pre.next_token_id,
    ensures
        post.wf(),
        !post.token_registered(token),
        forall|u: ReadinessToken|
            u != token ==> (post.token_registered(u) <==> pre.token_registered(u)),
        forall|x: u64|
            post.resource_registered(x) <==> (pre.resource_registered(x) && !pre.bound_to(
                x,
                token,
            )),
{
    assert forall|u: ReadinessToken| u != token implies (post.token_registered(u)
        <==> pre.token_registered(u)) by {
        if post.token_registered(u) {
            let w = choose|i: int| post.live_at(i) && #[trigger] post.entries@[i].token_id == u.id;
            assert(pre.live_at(w) && pre.entries@[w].token_id == u.id);
        }
        if pre.token_registered(u) {
            let w = choose|i: int| pre.live_at(i) && #[trigger] pre.entries@[i].token_id == u.id;
            assert(w != k);
            assert(post.live_at(w) && post.entries@[w].token_id == u.id);
        }
    }
    if post.token_registered(token) {
        let w = choose|i: int| post.live_at(i) && #[trigger] post.entries@[i].token_id == token.id;
        assert(w != k);
        assert(pre.entries@[w].token_id != pre.entries@[k].token_id);
    }
    assert forall|x: u64| post.resource_registered(x) implies (pre.resource_registered(x)
        && !pre.bound_to(x, token)) by {
        let w = choose|i: int| post.live_at(i) && #[trigger] post.entries@[i].resource == x;
        assert(w != k);
        assert(pre.live_at(w) && pre.entries@[w].resource == x);
        if pre.bound_to(x, token) {
            let v = choose|i: int|
                pre.live_at(i) && #[trigger] pre.entries@[i].resource == x && pre.entries@[i].token_id
                    == token.id;
            assert(v == k);
            assert(pre.entries@[w].resource != pre.entries@[v].resource);
        }
    }
    assert forall|x: u64| pre.resource_registered(x) && !pre.bound_to(x, token) implies post
        .resource_registered(x) by {
        let w = choose|i: int| pre.live_at(i) && #[trigger] pre.entries@[i].resource == x;
        assert(w != k);
        assert(post.live_at(w) && post.entries@[w].resource == x);
    }
}

} // verus!
