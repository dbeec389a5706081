//! Wrapper for components with shared state.
//!
//! The adapter binds one UI component instance to the broadcast service. Its
//! life is a small state machine: `create` connects (uninitialized to
//! mounted), `update` and `change` act while mounted, and `destroy` consumes
//! the adapter and disconnects (mounted to unmounted) — an unmounted adapter
//! no longer exists, so no call can reach it.
//!
//! The adapter never writes shared state directly: a locally issued mutation
//! is wrapped into a [`Request`] for the host to hand to the service, and the
//! local cache moves only when the broadcast snapshot comes back. That keeps
//! a single source of truth and rules out a race between a locally
//! optimistic update and the authoritative broadcast.

use crate::handler::Handler;
use crate::service::{Delivery, Request, SharedStateService};
use std::rc::Rc;
use vstd::prelude::*;

verus! {

/// The properties handed to the wrapped component: the parent-supplied part,
/// plus the adapter's locally cached snapshot of the shared state.
pub struct SharedProps<T, P> {
    /// The locally cached snapshot: this component's view of shared state.
    pub state: Rc<T>,
    /// The component's remaining, parent-supplied properties.
    pub rest: P,
}

/// A message handled by the adapter while mounted.
pub enum SharedStateComponentMsg<T, F, G> {
    /// Receive new local state.
    /// IMPORTANT: Changes will **not** be reflected in shared state.
    SetLocal(Rc<T>),
    /// Update shared state with a reusable reduction.
    Apply(F),
    /// Update shared state with a one-shot reduction.
    ApplyOnce(G),
}

/// Component wrapper for managing messages and state handles.
pub struct SharedStateComponent<T, P> {
    props: SharedProps<T, P>,
    id: u64,
}

impl<T, P> SharedStateComponent<T, P> {
    /// The snapshot this component currently holds as its view of the state.
    pub closed spec fn cached(&self) -> T {
        *self.props.state
    }

    /// The parent-supplied part of the component's properties.
    pub closed spec fn rest(&self) -> P {
        self.props.rest
    }

    /// The subscriber identity this adapter connected under.
    pub closed spec fn id(&self) -> u64 {
        self.id
    }

    /// The properties the wrapped component renders from.
    pub closed spec fn props(&self) -> SharedProps<T, P> {
        self.props
    }

    /// The subscriber identity this adapter connected under: the host routes
    /// each delivery to the adapter whose identity it names.
    pub fn subscriber_id(&self) -> (r: u64)
        ensures
            r == self.id(),
    {
        self.id
    }

    /// Mount: connect to the broadcast service, receive the current snapshot
    /// immediately — before the component's first render — and cache it.
    pub fn create<H: Handler<Model = T>, SCOPE>(
        rest: P,
        service: &mut SharedStateService<H, SCOPE>,
    ) -> (r: Self)
        requires
            old(service).wf(),
            old(service).remaining_ids() > 0,
        ensures
            final (service).wf(),
            final (service).model() == old(service).model(),
            final (service).subs() == old(service).subs().push(r.id()),
            !old(service).registered(r.id()),
            final (service).remaining_ids() == old(service).remaining_ids() - 1,
            r.cached() == old(service).model(),
            r.rest() == rest,
    {
        let (id, snapshot) = service.connected();
        SharedStateComponent { props: SharedProps { state: snapshot, rest }, id }
    }

    /// Handle one message. A mutation request does not touch the local cache:
    /// it is returned, wrapped, for the host to dispatch to the service, and
    /// no re-render is due. A delivered snapshot replaces the local cache and
    /// a re-render is due.
    pub fn update<F: Fn(&T) -> T, G: FnOnce(&T) -> T>(
        &mut self,
        msg: SharedStateComponentMsg<T, F, G>,
    ) -> (r: (bool, Option<Request<F, G>>))
        ensures
            final (self).id() == old(self).id(),
            final (self).rest() == old(self).rest(),
            match msg {
                SharedStateComponentMsg::SetLocal(s) => {
                    &&& final (self).cached() == *s
                    &&& r.0 == true
                    &&& r.1 is None
                },
                SharedStateComponentMsg::Apply(f) => {
                    &&& final (self).cached() == old(self).cached()
                    &&& r.0 == false
                    &&& r.1 == Some(Request::<F, G>::Apply(f))
                },
                SharedStateComponentMsg::ApplyOnce(g) => {
                    &&& final (self).cached() == old(self).cached()
                    &&& r.0 == false
                    &&& r.1 == Some(Request::<F, G>::ApplyOnce(g))
                },
            },
    {
        match msg {
            SharedStateComponentMsg::Apply(reduce) => (false, Some(Request::Apply(reduce))),
            SharedStateComponentMsg::ApplyOnce(reduce) => (
                false,
                Some(Request::ApplyOnce(reduce)),
            ),
            SharedStateComponentMsg::SetLocal(state) => {
                self.props.state = state;
                (true, None)
            },
        }
    }

    /// New properties arrived from the parent: adopt them, but propagate the
    /// locally cached snapshot over the incoming one, so the locally known
    /// state is never clobbered by a stale value from the property tree.
    /// A re-render is always due.
    pub fn change(&mut self, props: SharedProps<T, P>) -> (render: bool)
        ensures
            render == true,
            final (self).cached() == old(self).cached(),
            final (self).rest() == props.rest,
            final (self).id() == old(self).id(),
    {
        self.props.rest = props.rest;
        true
    }

    /// The properties the wrapped component's view is rendered from: the
    /// rendering itself is the host framework's pass-through.
    pub fn view(&self) -> (r: &SharedProps<T, P>)
        ensures
            *r == self.props(),
    {
        &self.props
    }

    /// Unmount: disconnect from the broadcast service, which promptly removes
    /// this identity from the registry. Consumes the adapter.
    pub fn destroy<H: Handler<Model = T>, SCOPE>(self, service: &mut SharedStateService<H, SCOPE>)
        requires
            old(service).wf(),
        ensures
            final (service).wf(),
            !final (service).registered(self.id()),
            forall|other: u64|
                other != self.id() ==> final (service).registered(other) == old(
                    service,
                ).registered(other),
            final (service).model() == old(service).model(),
            final (service).remaining_ids() == old(service).remaining_ids(),
    {
        service.disconnected(self.id);
    }
}

/// Broadcast consistency, seen from one adapter: a dispatch hands every
/// delivery the handler's model as it stands after the mutation, and caching
/// a delivered snapshot is all `update` does with it — so once the host has
/// routed its delivery, the adapter's cached snapshot equals the handler's
/// snapshot, for every adapter the broadcast reached. No subscriber lags or
/// diverges.
pub proof fn lemma_broadcast_consistency<T, P, H: Handler<Model = T>, SCOPE>(
    svc: SharedStateService<H, SCOPE>,
    ds: Seq<Delivery<T>>,
    comp: SharedStateComponent<T, P>,
    k: int,
)
    requires
        0 <= k < ds.len(),
        *ds[k].snapshot == svc.model(),
        comp.cached() == *ds[k].snapshot,
    ensures
        comp.cached() == svc.model(),
{
}

} // verus!
