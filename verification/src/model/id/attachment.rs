//! Identifiers of attachments.

use crate::decimal::{ascii, decimal_digits};
use crate::model::id::snowflake::{parse, parsed, serialize};
use crate::model::id::IDFromStrError;
use crate::model::timestamp::{Timestamp, DISCORD_EPOCH};
use std::cmp::Ordering;
use std::str::FromStr;
use vstd::prelude::*;
use vstd::std_specs::cmp::{PartialEqSpecImpl, PartialOrdSpecImpl};
use vstd::std_specs::convert::FromSpecImpl;
use vstd::string::StringSliceAdditionalSpecFns;

verus! {

/// An identifier for an attachment.
#[derive(Clone, Copy, Debug, Eq, Hash, Ord, PartialEq, Structural)]
pub struct AttachmentId(u64);

impl AttachmentId {
    #[verifier::type_invariant]
    spec fn non_zero(self) -> bool {
        self.0 != 0
    }

    /// The number that this identifier holds.
    pub closed spec fn view(&self) -> u64 {
        self.0
    }

    /// Two identifiers that hold the same number are the same identifier.
    pub proof fn lemma_same_number(self, other: Self)
        requires
            self@ == other@,
        ensures
            self == other,
    {
    }

    /// Creates a new AttachmentId. The number must not be zero.
    pub fn new(id: u64) -> (made: Self)
        requires
            id != 0,
        ensures
            made@ == id,
    {
        AttachmentId(id)
    }

    /// Retrieves the inner `id` as a [`u64`]. It is never zero.
    pub fn get(self) -> (id: u64)
        ensures
            id == self@,
            id != 0,
    {
        proof {
            use_type_invariant(self);
        }
        self.0
    }

    /// Retrieves the time that the AttachmentId was created: the
    /// upper 42 bits of the number count the milliseconds since
    /// [`DISCORD_EPOCH`].
    pub fn created_at(&self) -> (at: Timestamp)
        ensures
            at@ == (self@ >> 22) + DISCORD_EPOCH,
            at@ - DISCORD_EPOCH == self@ >> 22,
    {
        Timestamp::from_discord_id(self.0)
    }

    /// The identifier in decimal, as it is written on the wire.
    pub fn to_string(&self) -> (text: String)
        ensures
            text@ == ascii(decimal_digits(self@ as nat)),
    {
        serialize(self.0)
    }
}

impl Default for AttachmentId {
    /// The smallest identifier there is.
    fn default() -> (made: Self)
        ensures
            made@ == 1,
    {
        AttachmentId(1)
    }
}

impl FromStr for AttachmentId {
    type Err = IDFromStrError;

    /// Reads an identifier from decimal text. Text that is empty, holds
    /// anything but digits, spells zero or does not fit in 64 bits is refused.
    fn from_str(s: &str) -> (made: Result<Self, IDFromStrError>)
        ensures
            match made {
                Ok(id) => parsed(s.spec_bytes()) == Some(id@),
                Err(_) => parsed(s.spec_bytes()).is_none(),
            },
    {
        match parse(s.as_bytes()) {
            Some(id) => Ok(AttachmentId(id)),
            None => Err(IDFromStrError),
        }
    }
}

impl AsRef<AttachmentId> for AttachmentId {
    /// The identifier itself, so that one function can take identifiers and
    /// references to identifiers alike.
    fn as_ref(&self) -> (same: &Self)
        ensures
            same == self,
    {
        self
    }
}

impl<'a> From<&'a AttachmentId> for AttachmentId {
    fn from(id: &'a AttachmentId) -> (copy: AttachmentId) {
        *id
    }
}

impl<'a> FromSpecImpl<&'a AttachmentId> for AttachmentId {
    open spec fn obeys_from_spec() -> bool {
        true
    }

    open spec fn from_spec(id: &'a AttachmentId) -> AttachmentId {
        *id
    }
}

impl From<AttachmentId> for u64 {
    fn from(id: AttachmentId) -> (number: u64) {
        id.get()
    }
}

impl FromSpecImpl<AttachmentId> for u64 {
    open spec fn obeys_from_spec() -> bool {
        true
    }

    open spec fn from_spec(id: AttachmentId) -> u64 {
        id@
    }
}

impl From<AttachmentId> for i64 {
    /// The same 64 bits read as a signed number.
    fn from(id: AttachmentId) -> (number: i64) {
        id.get() as i64
    }
}

impl FromSpecImpl<AttachmentId> for i64 {
    open spec fn obeys_from_spec() -> bool {
        true
    }

    open spec fn from_spec(id: AttachmentId) -> i64 {
        id@ as i64
    }
}

impl PartialEq<u64> for AttachmentId {
    fn eq(&self, u: &u64) -> (equal: bool) {
        self.get() == *u
    }
}

impl PartialEqSpecImpl<u64> for AttachmentId {
    open spec fn obeys_eq_spec() -> bool {
        true
    }

    open spec fn eq_spec(&self, u: &u64) -> bool {
        self@ == *u
    }
}

impl PartialOrd for AttachmentId {
    /// Identifiers are ordered as the numbers they hold.
    fn partial_cmp(&self, other: &Self) -> (order: Option<Ordering>) {
        if self.0 < other.0 {
            Some(Ordering::Less)
        } else if self.0 == other.0 {
            Some(Ordering::Equal)
        } else {
            Some(Ordering::Greater)
        }
    }
}

impl PartialOrdSpecImpl for AttachmentId {
    open spec fn obeys_partial_cmp_spec() -> bool {
        true
    }

    open spec fn partial_cmp_spec(&self, other: &Self) -> Option<Ordering> {
        if self@ < other@ {
            Some(Ordering::Less)
        } else if self@ == other@ {
            Some(Ordering::Equal)
        } else {
            Some(Ordering::Greater)
        }
    }
}

} // verus!
