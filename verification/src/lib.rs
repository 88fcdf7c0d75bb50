//! An observer (publish/subscribe) registry with safe observer lifetime.
//!
//! A `Publisher` owns an `ObserverRegistry`, which holds non-owning,
//! generation-stamped handles into an `ObserverArena` that stores the
//! observers themselves. A broadcast visits the handles in registration
//! order, delivers an event to each handle that still resolves to a live
//! observer, and silently skips handles whose observer has been destroyed.

pub mod arena;
pub mod generator;
pub mod laws;
pub mod observer;
pub mod registry;
