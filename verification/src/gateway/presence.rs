//! What a client tells the gateway about itself: whether it is there, and
//! what it is doing.

use vstd::prelude::*;

verus! {

/// How present a user is.
#[derive(Clone, Copy, Debug, Eq, Hash, PartialEq, Structural)]
pub enum OnlineStatus {
    DoNotDisturb,
    Idle,
    Invisible,
    Offline,
    Online,
}

impl OnlineStatus {
    /// The word for this status on the wire.
    pub open spec fn spec_name(self) -> Seq<char> {
        match self {
            OnlineStatus::DoNotDisturb => "dnd"@,
            OnlineStatus::Idle => "idle"@,
            OnlineStatus::Invisible => "invisible"@,
            OnlineStatus::Offline => "offline"@,
            OnlineStatus::Online => "online"@,
        }
    }

    /// The word for this status on the wire.
    pub fn name(&self) -> (name: &'static str)
        ensures
            name@ == self.spec_name(),
    {
        match self {
            OnlineStatus::DoNotDisturb => "dnd",
            OnlineStatus::Idle => "idle",
            OnlineStatus::Invisible => "invisible",
            OnlineStatus::Offline => "offline",
            OnlineStatus::Online => "online",
        }
    }
}

/// The kinds of thing a user can be doing.
#[derive(Clone, Copy, Debug, Eq, Hash, PartialEq, Structural)]
pub enum ActivityType {
    Playing,
    Streaming,
    Listening,
    Watching,
    Custom,
    Competing,
}

impl ActivityType {
    /// The number that stands for this kind on the wire.
    pub open spec fn spec_code(self) -> u8 {
        match self {
            ActivityType::Playing => 0,
            ActivityType::Streaming => 1,
            ActivityType::Listening => 2,
            ActivityType::Watching => 3,
            ActivityType::Custom => 4,
            ActivityType::Competing => 5,
        }
    }

    /// The number that stands for this kind on the wire.
    pub fn code(self) -> (code: u8)
        ensures
            code == self.spec_code(),
    {
        match self {
            ActivityType::Playing => 0,
            ActivityType::Streaming => 1,
            ActivityType::Listening => 2,
            ActivityType::Watching => 3,
            ActivityType::Custom => 4,
            ActivityType::Competing => 5,
        }
    }
}

/// What a user is doing, as it is shown next to the user's name.
#[derive(Clone, Debug, Eq, PartialEq)]
pub struct ActivityData {
    pub name: String,
    pub kind: ActivityType,
    pub state: Option<String>,
    /// Where a stream can be watched.
    pub url: Option<String>,
}

/// The presence that a client wants to show.
#[derive(Clone, Debug, Eq, PartialEq)]
pub struct PresenceData {
    /// What the client is doing, if anything.
    pub activity: Option<ActivityData>,
    pub status: OnlineStatus,
}

/// A reading of the clock: the whole seconds that have passed since the Unix
/// epoch, and the nanoseconds into the current second.
#[derive(Clone, Copy, Debug, Eq, Hash, PartialEq, Structural)]
pub struct UnixTime {
    pub secs_since_epoch: u64,
    pub nanos_since_epoch: u32,
}

} // verus!
