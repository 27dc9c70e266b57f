//! Wire-level building blocks for a real-time event gateway client.
//!
//! - [`model::id`] holds the identifiers: one type per kind of entity, each a
//!   non-zero 64-bit number with its creation time in the upper bits, read
//!   from decimal text eight digits at a time.
//! - [`model::timestamp`] turns that creation time into a calendar date.
//! - [`gateway::message`] builds the control messages a client sends.
//! - [`gateway::ws`] decides what a received frame amounts to, inflating
//!   compressed frames on the way.
//!
//! A few things are taken on trust from outside: how `pieced` cuts a slice
//! into chunks, that the zlib decoder of `flate2` gives the same text for the
//! same bytes, and that `String::push` and `String::with_capacity` do what
//! std documents. Everything else is proved.

pub mod decimal;
pub mod gateway;
pub mod model;
