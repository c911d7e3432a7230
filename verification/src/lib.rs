//! Aggregate persistence for a sports-league backend: leagues with their
//! rulesets, teams with their players and owners.
//!
//! An aggregate is made, changed and removed as one. The [`managers`] say
//! which statements each operation sends and in which order; a
//! [`session`] wraps them in a leased connection and a transaction and
//! decides, reply by reply, what to send next. The [`database`] is a store
//! held in memory that enforces the keys, checks and references of the
//! [`schema`]; every operation is stated against it, and the [`laws`] say
//! what holds of the operations taken together.

pub mod database;
pub mod errors;
pub mod handlers;
pub mod ids;
pub mod invariants;
pub mod laws;
pub mod managers;
pub mod models;
pub mod rows;
pub mod schema;
pub mod session;
pub mod store;
pub mod time;
