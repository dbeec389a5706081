//! The broadcast service: applies mutation requests and notifies subscribers.
//!
//! One service instance exists per (model type, scope) pair; the host keeps
//! that registry and routes every request for a given pair to the same
//! instance. The service owns the handler, keeps the set of subscriber
//! identities, and turns each mutation request into the exact list of
//! snapshot deliveries the host must perform.

use crate::handler::{reduces, Handler};
use std::rc::Rc;
use vstd::prelude::*;

verus! {

/// A mutation request: a reusable reduction, or a one-shot reduction that is
/// consumed by the dispatch that applies it.
pub enum Request<F, G> {
    /// Apply a state change.
    Apply(F),
    /// Apply a state change once.
    ApplyOnce(G),
}

/// One snapshot push owed to one subscriber.
pub struct Delivery<T> {
    /// The subscriber identity the snapshot is addressed to.
    pub to: u64,
    /// The snapshot to deliver.
    pub snapshot: Rc<T>,
}

/// Context service for managing shared state. In charge of applying changes
/// to state then notifying subscribers of new state.
///
/// `SCOPE` is a static tag: two services with different scopes are distinct
/// instances in the host's registry even for one model type, so their
/// subscribers never see each other's mutations.
pub struct SharedStateService<H: Handler, SCOPE> {
    handler: H,
    subscriptions: Vec<u64>,
    next_id: u64,
    scope: core::marker::PhantomData<SCOPE>,
}

impl<H: Handler, SCOPE> SharedStateService<H, SCOPE> {
    /// The registered subscriber identities, in registration order.
    pub closed spec fn subs(&self) -> Seq<u64> {
        self.subscriptions@
    }

    /// Whether `id` is currently registered.
    pub open spec fn registered(&self, id: u64) -> bool {
        self.subs().contains(id)
    }

    /// The model currently owned by the service's handler.
    pub closed spec fn model(&self) -> H::Model {
        self.handler.model()
    }

    /// How many fresh subscriber identities can still be handed out.
    pub closed spec fn remaining_ids(&self) -> int {
        u64::MAX - self.next_id
    }

    /// The registry holds no duplicate identity, and none that could collide
    /// with an identity yet to be handed out.
    pub closed spec fn wf(&self) -> bool {
        &&& forall|i: int, j: int|
            0 <= i < j < self.subs().len() ==> self.subs()[i] != self.subs()[j]
        &&& forall|i: int| 0 <= i < self.subs().len() ==> self.subs()[i] < self.next_id
    }

    /// Whether another subscriber can still be registered: identities are
    /// never reused, and the identity space is finite.
    pub fn can_connect(&self) -> (r: bool)
        ensures
            r == (self.remaining_ids() > 0),
    {
        self.next_id < u64::MAX
    }

    /// How many subscribers are currently registered.
    pub fn subscriber_count(&self) -> (r: usize)
        ensures
            r == self.subs().len(),
    {
        self.subscriptions.len()
    }

    /// Create the service around an already-constructed handler, with an
    /// empty subscriber registry.
    pub fn create(handler: H) -> (r: Self)
        ensures
            r.wf(),
            r.model() == handler.model(),
            r.subs() == Seq::<u64>::empty(),
            r.remaining_ids() == u64::MAX,
    {
        SharedStateService {
            handler,
            subscriptions: Vec::new(),
            next_id: 0,
            scope: core::marker::PhantomData,
        }
    }

    /// Register a new subscriber: assign it a fresh identity and immediately
    /// deliver the current snapshot to it, independent of any mutation.
    pub fn connected(&mut self) -> (r: (u64, Rc<H::Model>))
        requires
            old(self).wf(),
            old(self).remaining_ids() > 0,
        ensures
            final (self).wf(),
            !old(self).registered(r.0),
            final (self).subs() == old(self).subs().push(r.0),
            *r.1 == final (self).model(),
            final (self).model() == old(self).model(),
            final (self).remaining_ids() == old(self).remaining_ids() - 1,
    {
        let id = self.next_id;
        self.next_id = self.next_id + 1;
        self.subscriptions.push(id);
        proof {
            assert forall|a: int, b: int|
                0 <= a < b < self.subs().len() implies self.subs()[a] != self.subs()[b] by {
                if b < self.subs().len() - 1 {
                    assert(old(self).subs()[a] != old(self).subs()[b]);
                } else {
                    assert(self.subs()[a] == old(self).subs()[a]);
                    assert(old(self).subs()[a] < old(self).next_id);
                }
            }
            assert forall|a: int|
                0 <= a < self.subs().len() implies self.subs()[a] < self.next_id by {
                if a < self.subs().len() - 1 {
                    assert(self.subs()[a] == old(self).subs()[a]);
                    assert(old(self).subs()[a] < old(self).next_id);
                }
            }
        }
        (id, self.handler.state())
    }

    /// Remove a subscriber identity from the registry. Removing one that is
    /// not registered is a no-op, not a fault.
    pub fn disconnected(&mut self, who: u64)
        requires
            old(self).wf(),
        ensures
            final (self).wf(),
            !final (self).registered(who),
            forall|id: u64| id != who ==> final (self).registered(id) == old(self).registered(id),
            final (self).model() == old(self).model(),
            final (self).remaining_ids() == old(self).remaining_ids(),
    {
        let mut i: usize = 0;
        #[verifier::loop_isolation(false)]
        while i < self.subscriptions.len()
            invariant
                0 <= i <= self.subscriptions.len(),
                forall|k: int| 0 <= k < i ==> self.subscriptions@[k] != who,
                self.subscriptions@ == old(self).subscriptions@,
                self.next_id == old(self).next_id,
                self.handler == old(self).handler,
                old(self).wf(),
                self.wf(),
            decreases self.subscriptions.len() - i,
        {
            if self.subscriptions[i] == who {
                let ghost before = self.subscriptions@;
                self.subscriptions.remove(i);
                proof {
                    assert forall|a: int, b: int|
                        0 <= a < b < self.subs().len() implies self.subs()[a]
                        != self.subs()[b] by {
                        let a2: int = if a < i { a } else { a + 1 };
                        let b2: int = if b < i { b } else { b + 1 };
                        assert(self.subs()[a] == before[a2]);
                        assert(self.subs()[b] == before[b2]);
                        assert(old(self).subs()[a2] != old(self).subs()[b2]);
                    }
                    assert forall|k: int|
                        0 <= k < self.subs().len() implies self.subs()[k] < self.next_id by {
                        let k2: int = if k < i { k } else { k + 1 };
                        assert(self.subs()[k] == before[k2]);
                        assert(old(self).subs()[k2] < old(self).next_id);
                    }
                    assert forall|id: u64| id != who implies self.subs().contains(id)
                        == before.contains(id) by {
                        if before.contains(id) {
                            let k = choose|k: int| 0 <= k < before.len() && before[k] == id;
                            if k < i {
                                assert(self.subs()[k] == id);
                            } else {
                                assert(k != i);
                                assert(self.subs()[k - 1] == id);
                            }
                        }
                        if self.subs().contains(id) {
                            let k = choose|k: int|
                                0 <= k < self.subs().len() && self.subs()[k] == id;
                            if k < i {
                                assert(before[k] == id);
                            } else {
                                assert(before[k + 1] == id);
                            }
                        }
                    }
                    assert forall|k: int|
                        0 <= k < self.subs().len() implies self.subs()[k] != who by {
                        if k >= i {
                            assert(before[i as int] == who);
                            assert(before[k + 1] != before[i as int]);
                            assert(self.subs()[k] == before[k + 1]);
                        }
                    }
                }
                return;
            }
            i = i + 1;
        }
    }

    /// Apply a mutation request to the handler, then broadcast: one delivery
    /// of the fresh snapshot to every currently registered subscriber, in
    /// registry order, each exactly once. The mutation is applied whether or
    /// not anyone is subscribed. Also returns the record owed to storage, if
    /// the handler persists and holds the capability.
    pub fn handle_input<F: Fn(&H::Model) -> H::Model, G: FnOnce(&H::Model) -> H::Model>(
        &mut self,
        req: Request<F, G>,
    ) -> (out: (Vec<Delivery<H::Model>>, Option<Rc<H::Model>>))
        requires
            old(self).wf(),
            match req {
                Request::Apply(f) => call_requires(f, (&old(self).model(),)),
                Request::ApplyOnce(g) => call_requires(g, (&old(self).model(),)),
            },
        ensures
            final (self).wf(),
            final (self).subs() == old(self).subs(),
            final (self).remaining_ids() == old(self).remaining_ids(),
            match req {
                Request::Apply(f) => reduces(f, old(self).model(), final (self).model()),
                Request::ApplyOnce(g) => reduces(g, old(self).model(), final (self).model()),
            },
            out.1 matches Some(s) ==> *s == final (self).model(),
            out.0@.len() == old(self).subs().len(),
            forall|k: int|
                0 <= k < out.0@.len() ==> (#[trigger] out.0@[k]).to == old(self).subs()[k],
            forall|k: int|
                0 <= k < out.0@.len() ==> *(#[trigger] out.0@[k]).snapshot == final (self).model(),
    {
        let save = match req {
            Request::Apply(reduce) => self.handler.apply(reduce),
            Request::ApplyOnce(reduce) => self.handler.apply_once(reduce),
        };

        proof {
            assert forall|a: int, b: int|
                0 <= a < b < self.subs().len() implies self.subs()[a] != self.subs()[b] by {
                assert(old(self).subs()[a] != old(self).subs()[b]);
            }
            assert forall|a: int|
                0 <= a < self.subs().len() implies self.subs()[a] < self.next_id by {
                assert(old(self).subs()[a] < old(self).next_id);
            }
            assert(self.wf());
        }
        // Notify subscribers of change
        let snap = self.handler.state();
        let mut pushes: Vec<Delivery<H::Model>> = Vec::new();
        let mut i: usize = 0;
        #[verifier::loop_isolation(false)]
        while i < self.subscriptions.len()
            invariant
                0 <= i <= self.subscriptions.len(),
                pushes@.len() == i,
                *snap == self.model(),
                self.wf(),
                self.subscriptions@ == old(self).subscriptions@,
                self.next_id == old(self).next_id,
                match req {
                    Request::Apply(f) => reduces(f, old(self).model(), self.model()),
                    Request::ApplyOnce(g) => reduces(g, old(self).model(), self.model()),
                },
                save matches Some(s) ==> *s == self.model(),
                forall|k: int|
                    0 <= k < i ==> (#[trigger] pushes@[k]).to == self.subscriptions@[k],
                forall|k: int| 0 <= k < i ==> *(#[trigger] pushes@[k]).snapshot == self.model(),
            decreases self.subscriptions.len() - i,
        {
            let to = self.subscriptions[i];
            pushes.push(Delivery { to, snapshot: crate::handler::rc_clone(&snap) });
            i = i + 1;
        }
        (pushes, save)
    }
}

/// Broadcast consistency: the deliveries of one dispatch reach every
/// subscriber registered at broadcast time exactly once, each carrying the
/// fresh snapshot — no subscriber is skipped, none is double-notified. `s`
/// is the service as the registry stood when the broadcast was taken, `ds`
/// the deliveries it produced, `m` the model after the mutation.
pub proof fn lemma_broadcast_exactly_once<H: Handler, SCOPE>(
    s: SharedStateService<H, SCOPE>,
    ds: Seq<Delivery<H::Model>>,
    m: H::Model,
    id: u64,
)
    requires
        s.wf(),
        ds.len() == s.subs().len(),
        forall|k: int| 0 <= k < ds.len() ==> (#[trigger] ds[k]).to == s.subs()[k],
        forall|k: int| 0 <= k < ds.len() ==> *(#[trigger] ds[k]).snapshot == m,
        s.registered(id),
    ensures
        exists|k: int| 0 <= k < ds.len() && (#[trigger] ds[k]).to == id && *ds[k].snapshot == m,
        forall|k1: int, k2: int|
            0 <= k1 < k2 < ds.len() && (#[trigger] ds[k1]).to == id ==> (#[trigger] ds[k2]).to
                != id,
{
    let k = choose|k: int| 0 <= k < s.subs().len() && s.subs()[k] == id;
    assert(ds[k].to == id && *ds[k].snapshot == m);
    assert forall|k1: int, k2: int|
        0 <= k1 < k2 < ds.len() && (#[trigger] ds[k1]).to == id implies (#[trigger] ds[k2]).to
        != id by {
        assert(s.subs()[k1] != s.subs()[k2]);
    }
}

/// Disconnection silence: once an identity is out of the registry, a
/// dispatch delivers nothing to it — mutations may go on, its adapter hears
/// none of them.
pub proof fn lemma_disconnection_silence<H: Handler, SCOPE>(
    s: SharedStateService<H, SCOPE>,
    ds: Seq<Delivery<H::Model>>,
    id: u64,
)
    requires
        ds.len() == s.subs().len(),
        forall|k: int| 0 <= k < ds.len() ==> (#[trigger] ds[k]).to == s.subs()[k],
        !s.registered(id),
    ensures
        forall|k: int| 0 <= k < ds.len() ==> (#[trigger] ds[k]).to != id,
{
    assert forall|k: int| 0 <= k < ds.len() implies (#[trigger] ds[k]).to != id by {
        assert(s.subs().contains(s.subs()[k]));
    }
}

} // verus!
