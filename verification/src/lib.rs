//! Session lifecycle management: issuing, validating, rotating and retiring
//! login sessions bound to a user and a client context, with a TTL-based
//! expiry policy and a cap on concurrent sessions per user.
//!
//! The heart of the crate is [`service::SessionService`], which orchestrates
//! the four session operations against an injected storage abstraction,
//! [`repository::SessionRepository`].  A fully verified in-memory
//! implementation of that abstraction lives in [`in_memory`].

use vstd::prelude::*;

pub mod in_memory;
pub mod laws;
pub mod outcome;
pub mod person;
pub mod repository;
pub mod service;
pub mod session;
pub mod subdivision;
pub mod tag;
pub mod university;

verus! {

/// Identifier type for persisted entities (users, universities, ...).
pub type SerialId = i32;

} // verus!
