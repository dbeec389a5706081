//! End-to-end tests: a test driver plays the host event loop — it owns the
//! service, routes requests, distributes deliveries, and keeps a fake
//! key/value store for the persisting handler.

use std::rc::Rc;

use shared_state::handler::{Area, Handler, LoadOutcome, SharedHandler, Storable, StorageHandler};
use shared_state::service::{Delivery, Request, SharedStateService};
use shared_state::wrapper::{SharedProps, SharedStateComponent, SharedStateComponentMsg};

#[derive(Clone, Debug, PartialEq, Eq, Default)]
struct Counter {
    count: u64,
}

impl Storable for Counter {
    fn key() -> String {
        "counter".to_string()
    }
}

type Reuse = fn(&Counter) -> Counter;
type Once = Box<dyn FnOnce(&Counter) -> Counter>;

fn increment(c: &Counter) -> Counter {
    Counter { count: c.count + 1 }
}

fn deliver(
    comp: &mut SharedStateComponent<Counter, ()>,
    ds: &[Delivery<Counter>],
    id: u64,
) -> bool {
    let mut rendered = false;
    for d in ds {
        if d.to == id {
            let (render, fwd) = comp.update(SharedStateComponentMsg::<Counter, Reuse, Once>::SetLocal(
                Rc::clone(&d.snapshot),
            ));
            assert!(fwd.is_none());
            rendered = rendered || render;
        }
    }
    rendered
}

#[test]
fn broadcast_reaches_every_subscriber() {
    // Model = { count: 0 }; components A and B connect; dispatch a reusable
    // "increment" — both cached snapshots become { count: 1 }, and a freshly
    // connecting C immediately observes { count: 1 }.
    let mut svc =
        SharedStateService::<SharedHandler<Counter>, ()>::create(SharedHandler::new());
    let mut a = SharedStateComponent::<Counter, ()>::create((), &mut svc);
    let mut b = SharedStateComponent::<Counter, ()>::create((), &mut svc);
    assert_eq!(a.view().state.count, 0, "the initial snapshot is the default");

    let (ds, save) = svc.handle_input(Request::<Reuse, Once>::Apply(increment));
    assert!(save.is_none());
    assert_eq!(ds.len(), 2);
    for d in &ds {
        assert_eq!(d.snapshot.count, 1);
    }
    let a_rendered = deliver(&mut a, &ds, ds[0].to);
    let b_rendered = deliver(&mut b, &ds, ds[1].to);
    assert!(a_rendered && b_rendered);
    assert_eq!(a.view().state.count, 1);
    assert_eq!(b.view().state.count, 1);

    let c = SharedStateComponent::<Counter, ()>::create((), &mut svc);
    assert_eq!(c.view().state.count, 1);
}

#[test]
fn late_join_receives_current_snapshot() {
    // Mutations with no subscribers still apply; a subscriber connecting
    // after n mutations immediately sees all n.
    let mut svc =
        SharedStateService::<SharedHandler<Counter>, ()>::create(SharedHandler::new());
    for _ in 0..3 {
        let (ds, _) = svc.handle_input(Request::<Reuse, Once>::Apply(increment));
        assert!(ds.is_empty());
    }
    let late = SharedStateComponent::<Counter, ()>::create((), &mut svc);
    assert_eq!(late.view().state.count, 3);
}

#[test]
fn disconnected_subscriber_gets_no_delivery() {
    let mut svc =
        SharedStateService::<SharedHandler<Counter>, ()>::create(SharedHandler::new());
    let a = SharedStateComponent::<Counter, ()>::create((), &mut svc);
    let b = SharedStateComponent::<Counter, ()>::create((), &mut svc);

    assert_eq!(svc.subscriber_count(), 2);
    let (ds, _) = svc.handle_input(Request::<Reuse, Once>::Apply(increment));
    assert_eq!(ds.len(), 2);
    assert_eq!(ds[0].to, a.subscriber_id());
    assert_eq!(ds[1].to, b.subscriber_id());

    // B unmounts; the registry forgets it at once.
    let b_id = b.subscriber_id();
    b.destroy(&mut svc);
    assert_eq!(svc.subscriber_count(), 1);
    let (ds, _) = svc.handle_input(Request::<Reuse, Once>::Apply(increment));
    assert_eq!(ds.len(), 1);
    assert!(ds.iter().all(|d| d.to != b_id));
    a.destroy(&mut svc);
    let (ds, _) = svc.handle_input(Request::<Reuse, Once>::Apply(increment));
    assert!(ds.is_empty());
}

#[test]
fn one_shot_applies_exactly_once() {
    // A one-shot reduction is consumed by the dispatch that applies it: the
    // request moves into `handle_input`, the mutator into `apply_once`, so
    // there is no object left to resend.
    let mut svc =
        SharedStateService::<SharedHandler<Counter>, ()>::create(SharedHandler::new());
    let payload = String::from("amount");
    let once: Once = Box::new(move |c| {
        // consume a captured value to make re-invocation impossible
        let _ = payload.len();
        Counter { count: c.count + 10 }
    });
    let (_, _) = svc.handle_input(Request::<Reuse, Once>::ApplyOnce(once));
    let probe = SharedStateComponent::<Counter, ()>::create((), &mut svc);
    assert_eq!(probe.view().state.count, 10);
}

#[test]
fn update_forwards_requests_without_touching_cache() {
    let mut svc =
        SharedStateService::<SharedHandler<Counter>, ()>::create(SharedHandler::new());
    let mut a = SharedStateComponent::<Counter, ()>::create((), &mut svc);
    let (render, fwd) =
        a.update(SharedStateComponentMsg::<Counter, Reuse, Once>::Apply(increment));
    assert!(!render);
    let req = fwd.expect("a mutation message must be forwarded");
    assert_eq!(a.view().state.count, 0, "local cache must not change before the broadcast");

    let (ds, _) = svc.handle_input(req);
    deliver(&mut a, &ds, ds[0].to);
    assert_eq!(a.view().state.count, 1);
}

#[test]
fn change_keeps_local_snapshot() {
    // Incoming parent properties never clobber the locally known state.
    let mut svc =
        SharedStateService::<SharedHandler<Counter>, ()>::create(SharedHandler::new());
    let (ds, _) = svc.handle_input(Request::<Reuse, Once>::Apply(increment));
    assert!(ds.is_empty());
    let mut a = SharedStateComponent::<Counter, ()>::create((), &mut svc);
    assert_eq!(a.view().state.count, 1);

    let stale = SharedProps::<Counter, ()> { state: Rc::new(Counter::default()), rest: () };
    let render = a.change(stale);
    assert!(render);
    assert_eq!(a.view().state.count, 1, "cached snapshot survives a property change");
}

#[test]
fn snapshots_handed_out_stay_unchanged() {
    // A snapshot taken before a mutation keeps its value afterwards: only
    // the handler's own storage moves on.
    let mut handler = SharedHandler::<Counter>::new();
    let before = handler.state();
    let save = handler.apply(increment);
    assert!(save.is_none());
    assert_eq!(before.count, 0);
    assert_eq!(handler.state().count, 1);
}

#[test]
fn storage_round_trip() {
    // Persisting handler, key "counter", durable area: starts with no prior
    // record and loads the default; two increments leave a stored record of
    // { count: 2 }; a fresh handler with the same key and area loads it.
    assert_eq!(Counter::key(), "counter");
    assert_eq!(Counter::area(), Area::Local);
    let mut store: Vec<(String, Counter)> = Vec::new();

    let handler = StorageHandler::<Counter>::new(load(&store));
    let mut svc = SharedStateService::<StorageHandler<Counter>, ()>::create(handler);
    let probe = SharedStateComponent::<Counter, ()>::create((), &mut svc);
    assert_eq!(probe.view().state.count, 0);

    for _ in 0..2 {
        let (_, save) = svc.handle_input(Request::<Reuse, Once>::Apply(increment));
        let record = save.expect("the capability is held, so a write is owed");
        write(&mut store, Counter::key(), (*record).clone());
    }
    assert_eq!(store, vec![("counter".to_string(), Counter { count: 2 })]);

    let fresh = StorageHandler::<Counter>::new(load(&store));
    assert_eq!(fresh.state().count, 2);
}

fn load(store: &[(String, Counter)]) -> LoadOutcome<Counter> {
    match store.iter().find(|(k, _)| *k == Counter::key()) {
        Some((_, v)) => LoadOutcome::Loaded(v.clone()),
        None => LoadOutcome::Missing,
    }
}

fn write(store: &mut Vec<(String, Counter)>, key: String, value: Counter) {
    for slot in store.iter_mut() {
        if slot.0 == key {
            slot.1 = value;
            return;
        }
    }
    store.push((key, value));
}

#[test]
fn unavailable_storage_degrades_to_in_memory() {
    // The same mutation sequence on a persisting handler without the
    // capability and on a pure in-memory handler yields the same snapshots,
    // and no write is ever owed.
    let mut persisting = StorageHandler::<Counter>::new(LoadOutcome::Unavailable);
    let mut pure = SharedHandler::<Counter>::new();
    for _ in 0..4 {
        let save = persisting.apply(increment);
        assert!(save.is_none());
        let _ = pure.apply(increment);
        assert_eq!(persisting.state().count, pure.state().count);
    }
}

#[test]
fn corrupt_record_falls_back_to_default() {
    // A record that does not deserialize counts as absent; the capability is
    // still held, so later writes are owed again.
    let mut handler = StorageHandler::<Counter>::new(LoadOutcome::Corrupt);
    assert_eq!(handler.state().count, 0);
    let save = handler.apply(increment);
    assert_eq!(save.expect("capability held").count, 1);
}

#[test]
fn duplicate_reopens_fresh_and_copies_value() {
    let mut original = StorageHandler::<Counter>::new(LoadOutcome::Missing);
    let _ = original.apply(increment);
    let copy = original.duplicate(LoadOutcome::Unavailable);
    assert_eq!(copy.state().count, 1, "the in-memory value crosses to the duplicate");
    let mut copy = copy;
    let save = copy.apply(increment);
    assert!(save.is_none(), "the duplicate holds only its own, failed acquisition");
}

struct FooScope;

#[test]
fn scopes_partition_services() {
    // Two services with distinct scope tags are independent instances: a
    // mutation dispatched in one is never seen in the other.
    let mut plain =
        SharedStateService::<SharedHandler<Counter>, ()>::create(SharedHandler::new());
    let mut scoped =
        SharedStateService::<SharedHandler<Counter>, FooScope>::create(SharedHandler::new());
    let (_, _) = plain.handle_input(Request::<Reuse, Once>::Apply(increment));
    let in_plain = SharedStateComponent::<Counter, ()>::create((), &mut plain);
    let in_scoped = SharedStateComponent::<Counter, ()>::create((), &mut scoped);
    assert_eq!(in_plain.view().state.count, 1);
    assert_eq!(in_scoped.view().state.count, 0);
}

#[derive(Clone, Debug, PartialEq, Eq, Default)]
struct SessionCounter {
    count: u64,
}

impl Storable for SessionCounter {
    fn key() -> String {
        "session_counter".to_string()
    }

    fn area() -> Area {
        Area::Session
    }
}

#[test]
fn storable_configuration_is_per_model() {
    assert_eq!(Counter::area(), Area::Local, "the default area is the durable one");
    assert_eq!(SessionCounter::area(), Area::Session);
    assert_eq!(SessionCounter::key(), "session_counter");
    assert_eq!(Counter::key(), "counter");
}
