//! The data that travels over the gateway.

pub mod id;
pub mod timestamp;
