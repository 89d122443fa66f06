//! A proof-of-existence registry.
//!
//! An authenticated identity claims a content fingerprint at a point in
//! logical time, and may later revoke that claim. Each fingerprint has at
//! most one active claim, and only its owner can revoke it.
//!
//! * [`types`] holds the plain data: fingerprints, identities, claims.
//! * [`outcome`] holds the events and errors that an operation reports.
//! * [`rules`] decides an operation from the one slot that it concerns.
//! * [`registry`] is the mathematical model: a map of claims and an event log.
//! * [`claims`] is the table that stores the active claims.
//! * [`pallet`] is the executable registry, whose view is that model.
//! * [`laws`] states what holds of every registry, and proves it.

pub mod claims;
pub mod laws;
pub mod outcome;
pub mod pallet;
pub mod registry;
pub mod rules;
pub mod types;

pub use claims::Claims;
pub use outcome::{Error, Event};
pub use pallet::Pallet;
pub use registry::Registry;
pub use types::{Claim, Fingerprint, Identity, LogicalTime};
