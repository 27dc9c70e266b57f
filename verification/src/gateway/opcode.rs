//! The operation codes that tag every payload on the gateway.

use vstd::prelude::*;

verus! {

/// What a payload is for.
#[derive(Clone, Copy, Debug, Eq, Hash, PartialEq, Structural)]
pub enum Opcode {
    /// An event was dispatched.
    Dispatch,
    /// Fired periodically to keep the connection alive.
    Heartbeat,
    /// Starts a new session.
    Identify,
    /// Updates the client's presence.
    PresenceUpdate,
    /// Joins, leaves or moves between voice channels.
    VoiceStateUpdate,
    /// Resumes a session that was cut off.
    Resume,
    /// The client should reconnect at once.
    Reconnect,
    /// Asks for the members of a guild, in chunks.
    RequestGuildMembers,
    /// The session is no longer valid.
    InvalidSession,
    /// Sent once after connecting; carries the heartbeat interval.
    Hello,
    /// Acknowledges a heartbeat.
    HeartbeatAck,
    /// A code that this client does not know.
    Unknown,
}

/// The number that stands for `op` on the wire.
pub open spec fn code_of(op: Opcode) -> u8 {
    match op {
        Opcode::Dispatch => 0,
        Opcode::Heartbeat => 1,
        Opcode::Identify => 2,
        Opcode::PresenceUpdate => 3,
        Opcode::VoiceStateUpdate => 4,
        Opcode::Resume => 6,
        Opcode::Reconnect => 7,
        Opcode::RequestGuildMembers => 8,
        Opcode::InvalidSession => 9,
        Opcode::Hello => 10,
        Opcode::HeartbeatAck => 11,
        Opcode::Unknown => 255,
    }
}

/// The operation that the number `code` stands for; every number without a
/// meaning of its own is [`Opcode::Unknown`].
pub open spec fn op_of(code: u8) -> Opcode {
    if code == 0 {
        Opcode::Dispatch
    } else if code == 1 {
        Opcode::Heartbeat
    } else if code == 2 {
        Opcode::Identify
    } else if code == 3 {
        Opcode::PresenceUpdate
    } else if code == 4 {
        Opcode::VoiceStateUpdate
    } else if code == 6 {
        Opcode::Resume
    } else if code == 7 {
        Opcode::Reconnect
    } else if code == 8 {
        Opcode::RequestGuildMembers
    } else if code == 9 {
        Opcode::InvalidSession
    } else if code == 10 {
        Opcode::Hello
    } else if code == 11 {
        Opcode::HeartbeatAck
    } else {
        Opcode::Unknown
    }
}

impl Opcode {
    /// The number that stands for this operation on the wire.
    pub fn code(self) -> (code: u8)
        ensures
            code == code_of(self),
    {
        match self {
            Opcode::Dispatch => 0,
            Opcode::Heartbeat => 1,
            Opcode::Identify => 2,
            Opcode::PresenceUpdate => 3,
            Opcode::VoiceStateUpdate => 4,
            Opcode::Resume => 6,
            Opcode::Reconnect => 7,
            Opcode::RequestGuildMembers => 8,
            Opcode::InvalidSession => 9,
            Opcode::Hello => 10,
            Opcode::HeartbeatAck => 11,
            Opcode::Unknown => 255,
        }
    }

    /// The operation that a number from the wire stands for.
    pub fn from_code(code: u8) -> (op: Opcode)
        ensures
            op == op_of(code),
    {
        match code {
            0 => Opcode::Dispatch,
            1 => Opcode::Heartbeat,
            2 => Opcode::Identify,
            3 => Opcode::PresenceUpdate,
            4 => Opcode::VoiceStateUpdate,
            6 => Opcode::Resume,
            7 => Opcode::Reconnect,
            8 => Opcode::RequestGuildMembers,
            9 => Opcode::InvalidSession,
            10 => Opcode::Hello,
            11 => Opcode::HeartbeatAck,
            _ => Opcode::Unknown,
        }
    }
}

/// Every operation is read back from its own number.
pub proof fn lemma_code_round_trip(op: Opcode)
    ensures
        op_of(code_of(op)) == op,
{
}

} // verus!
