//! Reactive synchronization core for a small task-list editor.
//!
//! A user adds and removes short text entries that live in an external
//! store; the visible list is re-fetched whenever a mutation settles.
//! This crate holds the verified heart of that loop: the error taxonomy,
//! the item record, configuration resolution with its documented defaults,
//! the memoized backend-handle provider and its initialization sequence,
//! the versioned mutation actions with their optimistic submissions, the
//! list-resource state machine, the view composer, and an in-memory
//! reference model of the backend's CRUD surface.
//!
//! Everything asynchronous stays outside: a driver performs each backend
//! call and feeds the outcome back in as a plain value, so the decision
//! logic here is verified for every outcome the backend could produce.

pub mod actions;
pub mod config;
pub mod errors;
pub mod handle;
pub mod item;
pub mod resource;
pub mod store;
pub mod sync;
pub mod view;
