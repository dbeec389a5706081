//! A shared-state distribution layer for trees of UI components.
//!
//! Many independently rendered components read one logical state value and
//! mutate it through well-defined update functions. The crate provides:
//!
//! - handlers ([`handler`]): own the state value, apply mutations to it and,
//!   in the persisting variant, decide what must be written back to durable
//!   storage after every change;
//! - the broadcast service ([`service`]): keeps a registry of subscriber
//!   identities, applies incoming mutation requests to its handler and pushes
//!   the fresh snapshot to every registered subscriber, exactly once each;
//! - the component adapter ([`wrapper`]): binds one component instance to the
//!   service — it forwards locally issued mutation requests, caches delivered
//!   snapshots, and keeps that cache authoritative when new properties arrive.
//!
//! The host event loop (a UI framework, or a test driver) owns the service,
//! routes the requests that adapters emit, and distributes the deliveries the
//! service returns; the storage backend and the serialization codec stay on
//! the host's side of the boundary as an opaque key/value capability.

pub mod handler;
pub mod service;
pub mod wrapper;
