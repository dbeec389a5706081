//! State handlers determine how state should be created, modified, and shared.
//!
//! A handler owns the model, applies reductions to it and hands out shared
//! snapshots. The persisting variant additionally reports, after every
//! change, the record that the host must write back to its key/value storage;
//! acquiring that storage and performing the reads and writes is the host's
//! work, and its outcome enters through [`LoadOutcome`].

use std::rc::Rc;
use vstd::prelude::*;

verus! {

/// Relies on `Rc::clone`: the clone points at the same value as the original.
#[verifier::external_body]
pub(crate) fn rc_clone<T>(rc: &Rc<T>) -> (r: Rc<T>)
    ensures
        r == *rc,
{
    Rc::clone(rc)
}

/// Relies on `Rc::as_ref`: the reference points at the shared value.
#[verifier::external_body]
fn rc_as_ref<T>(rc: &Rc<T>) -> (r: &T)
    ensures
        *r == *rc,
{
    rc.as_ref()
}

/// Holds when `m` is a value that `T::default()` may return.
pub open spec fn is_default<T: Default>(m: T) -> bool {
    call_ensures(<T as Default>::default, (), m)
}

/// Holds when `after` is a value the reduction `f` may produce from `before`:
/// one permitted outcome of applying the mutation to the model.
pub open spec fn reduces<T, F: FnOnce(&T) -> T>(f: F, before: T, after: T) -> bool {
    call_ensures(f, (&before,), after)
}

/// One permitted `apply` step of the pure in-memory handler.
pub open spec fn shared_step<T, F: FnOnce(&T) -> T>(f: F, before: T, after: T) -> bool {
    reduces(f, before, after)
}

/// One permitted `apply` step of the persisting handler: the model steps as
/// the reduction permits, and a write of exactly the new model is owed to
/// storage when the capability is held — never when it is not.
pub open spec fn storage_step<T, F: FnOnce(&T) -> T>(
    f: F,
    before: T,
    after: T,
    connected: bool,
    save: Option<Rc<T>>,
) -> bool {
    &&& reduces(f, before, after)
    &&& (save is Some) == connected
    &&& (save matches Some(s) ==> *s == after)
}

/// What a persisting handler holds right after construction: the stored
/// model when a record deserialized, a default-constructed model otherwise.
pub open spec fn loads<T: Default>(loaded: LoadOutcome<T>, m: T) -> bool {
    match loaded {
        LoadOutcome::Loaded(v) => m == v,
        _ => is_default::<T>(m),
    }
}

/// Determines how state should be created, modified, and shared.
///
/// A reduction is applied at most once per call: `apply_once` consumes its
/// single-use mutator, so a one-shot reduction can never run twice.
pub trait Handler: Sized {
    type Model: Default;

    /// The model currently owned by the handler.
    spec fn model(&self) -> Self::Model;

    /// Apply a reusable change to state. Returns the record that must be
    /// written back to storage, or `None` when no write is owed.
    fn apply<F: Fn(&Self::Model) -> Self::Model>(&mut self, f: F) -> (save: Option<
        Rc<Self::Model>,
    >)
        requires
            call_requires(f, (&old(self).model(),)),
        ensures
            reduces(f, old(self).model(), final (self).model()),
            save matches Some(s) ==> *s == final (self).model(),
    ;

    /// Apply a single-use change to state, consuming it. Returns the record
    /// that must be written back to storage, or `None` when no write is owed.
    fn apply_once<F: FnOnce(&Self::Model) -> Self::Model>(&mut self, f: F) -> (save: Option<
        Rc<Self::Model>,
    >)
        requires
            call_requires(f, (&old(self).model(),)),
        ensures
            reduces(f, old(self).model(), final (self).model()),
            save matches Some(s) ==> *s == final (self).model(),
    ;

    /// Return a shared snapshot of current state.
    fn state(&self) -> (r: Rc<Self::Model>)
        ensures
            *r == self.model(),
    ;
}

/// Handler for basic shared state.
pub struct SharedHandler<T> {
    state: Rc<T>,
}

impl<T: Default> SharedHandler<T> {
    /// Create new state, holding a default-constructed model.
    pub fn new() -> (r: Self)
        ensures
            is_default::<T>(r.model()),
    {
        SharedHandler { state: Rc::new(T::default()) }
    }
}

impl<T: Default> Handler for SharedHandler<T> {
    type Model = T;

    closed spec fn model(&self) -> T {
        *self.state
    }

    fn apply<F: Fn(&T) -> T>(&mut self, f: F) -> (save: Option<Rc<T>>)
        ensures
            shared_step(f, old(self).model(), final (self).model()),
            save is None,
    {
        let next = f(rc_as_ref(&self.state));
        self.state = Rc::new(next);
        None
    }

    fn apply_once<F: FnOnce(&T) -> T>(&mut self, f: F) -> (save: Option<Rc<T>>)
        ensures
            shared_step(f, old(self).model(), final (self).model()),
            save is None,
    {
        let next = f(rc_as_ref(&self.state));
        self.state = Rc::new(next);
        None
    }

    fn state(&self) -> (r: Rc<T>) {
        rc_clone(&self.state)
    }
}

/// The two durability areas of the host's key/value storage capability.
#[derive(Clone, Copy, PartialEq, Eq, Structural, Debug)]
pub enum Area {
    /// Cleared when the browsing session ends.
    Session,
    /// Survives across sessions.
    Local,
}

/// Allows state to be stored persistently in local or session storage.
///
/// The host reads this configuration when it performs the loads and stores
/// that a persisting handler asks for.
pub trait Storable: Sized {
    /// The key used to save and load state from storage; each model type
    /// picks its own stable identifier.
    fn key() -> (r: String);

    /// The area to store state.
    fn area() -> (r: Area) {
        Area::Local
    }
}

/// What the host found when it acquired the storage capability and looked up
/// the model's record at construction time.
pub enum LoadOutcome<T> {
    /// The storage capability could not be acquired; the handler degrades to
    /// pure in-memory behavior.
    Unavailable,
    /// Storage is available, but no record exists under the key.
    Missing,
    /// Storage is available; a record exists but could not be deserialized.
    Corrupt,
    /// Storage is available and the record deserialized to this model.
    Loaded(T),
}

/// Handler for shared state with persistent storage.
///
/// If persistent storage is unavailable it behaves like a `SharedHandler`:
/// every write request is simply never owed, and no failure is surfaced.
pub struct StorageHandler<T> {
    state: Rc<T>,
    connected: bool,
}

impl<T: Default + Storable> StorageHandler<T> {
    /// Whether the storage capability was acquired at construction.
    pub closed spec fn connected(&self) -> bool {
        self.connected
    }

    /// Replace the default model with the loaded record, if one deserialized.
    fn load_state(&mut self, loaded: LoadOutcome<T>)
        ensures
            final (self).connected() == !(loaded is Unavailable),
            loaded matches LoadOutcome::Loaded(m) ==> final (self).model() == m,
            !(loaded is Loaded) ==> final (self).model() == old(self).model(),
    {
        match loaded {
            LoadOutcome::Unavailable => {
                self.connected = false;
            },
            LoadOutcome::Missing => {
                self.connected = true;
            },
            LoadOutcome::Corrupt => {
                self.connected = true;
            },
            LoadOutcome::Loaded(m) => {
                self.connected = true;
                self.state = Rc::new(m);
            },
        }
    }

    /// The record owed to storage: the current snapshot when the capability
    /// is held, nothing when it is not.
    pub fn save_state(&self) -> (save: Option<Rc<T>>)
        ensures
            (save is Some) == self.connected(),
            save matches Some(s) ==> *s == self.model(),
    {
        if self.connected {
            Some(rc_clone(&self.state))
        } else {
            None
        }
    }

    /// Create new state from what the host loaded: the deserialized record
    /// when one exists, a default-constructed model otherwise.
    pub fn new(loaded: LoadOutcome<T>) -> (r: Self)
        ensures
            r.connected() == !(loaded is Unavailable),
            loads(loaded, r.model()),
    {
        let mut this = StorageHandler { state: Rc::new(T::default()), connected: false };
        this.load_state(loaded);
        this
    }

    /// Duplicate this handler onto a freshly re-acquired storage capability,
    /// carrying only the current in-memory model across.
    pub fn duplicate(&self, reopened: LoadOutcome<T>) -> (r: Self)
        ensures
            r.model() == self.model(),
            r.connected() == !(reopened is Unavailable),
    {
        let mut fresh = Self::new(reopened);
        fresh.state = rc_clone(&self.state);
        fresh
    }
}

impl<T: Default + Storable> Handler for StorageHandler<T> {
    type Model = T;

    closed spec fn model(&self) -> T {
        *self.state
    }

    fn apply<F: Fn(&T) -> T>(&mut self, f: F) -> (save: Option<Rc<T>>)
        ensures
            final (self).connected() == old(self).connected(),
            storage_step(f, old(self).model(), final (self).model(), old(self).connected(), save),
    {
        let next = f(rc_as_ref(&self.state));
        self.state = Rc::new(next);
        self.save_state()
    }

    fn apply_once<F: FnOnce(&T) -> T>(&mut self, f: F) -> (save: Option<Rc<T>>)
        ensures
            final (self).connected() == old(self).connected(),
            storage_step(f, old(self).model(), final (self).model(), old(self).connected(), save),
    {
        let next = f(rc_as_ref(&self.state));
        self.state = Rc::new(next);
        self.save_state()
    }

    fn state(&self) -> (r: Rc<T>) {
        rc_clone(&self.state)
    }
}

/// Persistence round-trip: when the capability is held, the record owed to
/// storage after a mutation is exactly the new model, so a fresh handler
/// constructed from that record — the codec being lossless — holds exactly
/// the model the mutation produced.
pub proof fn lemma_persistence_round_trip<T: Default, F: FnOnce(&T) -> T>(
    f: F,
    before: T,
    after: T,
    save: Option<Rc<T>>,
    restored: T,
)
    requires
        storage_step(f, before, after, true, save),
        save matches Some(s) && loads(LoadOutcome::Loaded(*s), restored),
    ensures
        restored == after,
{
}

/// Persistence degradation equivalence: with the storage capability
/// unavailable, a persisting handler admits exactly the steps of the pure
/// in-memory handler, and owes nothing to storage; applied step by step,
/// the same reductions therefore yield the same snapshot sequences.
pub proof fn lemma_degradation_equivalence<T, F: FnOnce(&T) -> T>(
    f: F,
    before: T,
    after: T,
    save: Option<Rc<T>>,
)
    ensures
        storage_step(f, before, after, false, save) <==> (shared_step(f, before, after)
            && save is None),
{
}

} // verus!
