//! The envelope around everything the gateway sends.

use crate::gateway::opcode::{op_of, Opcode};
use vstd::prelude::*;

verus! {

/// One decoded unit of inbound traffic. The payload is carried as it came;
/// what it holds depends on the operation.
#[derive(Clone, Debug, Eq, PartialEq)]
pub struct Envelope {
    pub op: Opcode,
    /// The payload of the operation, still encoded.
    pub d: String,
    /// The sequence number, which only dispatched events have.
    pub s: Option<u64>,
    /// The name of the event, which only dispatched events have.
    pub t: Option<String>,
}

impl Envelope {
    /// Puts an envelope together from the four fields of a decoded payload.
    /// The operation is read from its number; the rest is passed through.
    pub fn from_parts(op: u8, d: String, s: Option<u64>, t: Option<String>) -> (envelope: Envelope)
        ensures
            envelope.op == op_of(op),
            envelope.d == d,
            envelope.s == s,
            envelope.t == t,
    {
        Envelope { op: Opcode::from_code(op), d, s, t }
    }
}

} // verus!
