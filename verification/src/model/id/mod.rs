//! Type-strong identifiers: one type per kind of entity, all of them a
//! non-zero 64-bit number that carries its own creation time.

use crate::decimal::{ascii, decimal_digits, push_decimal};
use vstd::prelude::*;

pub mod application;
pub mod attachment;
pub mod audit_log_entry;
pub mod channel;
pub mod command;
pub mod command_permission;
pub mod command_version;
pub mod emoji;
pub mod entitlement;
pub mod forum_tag;
pub mod generic;
pub mod guild;
pub mod integration;
pub mod interaction;
pub mod message;
pub mod role;
pub mod rule;
pub mod scheduled_event;
pub mod sku;
pub mod snowflake;
pub mod stage_instance;
pub mod sticker;
pub mod sticker_pack;
pub mod sticker_pack_banner;
pub mod target;
pub mod user;
pub mod webhook;

pub use application::ApplicationId;
pub use attachment::AttachmentId;
pub use audit_log_entry::AuditLogEntryId;
pub use channel::ChannelId;
pub use command::CommandId;
pub use command_permission::CommandPermissionId;
pub use command_version::CommandVersionId;
pub use emoji::EmojiId;
pub use entitlement::EntitlementId;
pub use forum_tag::ForumTagId;
pub use generic::GenericId;
pub use guild::GuildId;
pub use integration::IntegrationId;
pub use interaction::InteractionId;
pub use message::MessageId;
pub use role::RoleId;
pub use rule::RuleId;
pub use scheduled_event::ScheduledEventId;
pub use sku::SkuId;
pub use stage_instance::StageInstanceId;
pub use sticker::StickerId;
pub use sticker_pack::StickerPackId;
pub use sticker_pack_banner::StickerPackBannerId;
pub use target::TargetId;
pub use user::UserId;
pub use webhook::WebhookId;

verus! {

/// The text was no identifier: it did not spell a non-zero 64-bit number.
#[derive(Debug, Clone, Copy, PartialEq, Eq, Structural)]
pub struct IDFromStrError;

impl IDFromStrError {
    /// What went wrong, in words.
    pub fn to_string(&self) -> (text: String)
        ensures
            text@ == "attempted to construct an ID of zero"@,
    {
        "attempted to construct an ID of zero".to_owned()
    }
}

/// An identifier for a Shard.
///
/// It only tells the partitions of one connection apart, and never goes over
/// the wire on its own.
#[derive(Clone, Copy, Debug, Eq, Hash, PartialEq, PartialOrd, Ord, Structural)]
pub struct ShardId(pub u32);

impl ShardId {
    /// The shard's number in decimal.
    pub fn to_string(&self) -> (text: String)
        ensures
            text@ == ascii(decimal_digits(self.0 as nat)),
    {
        let mut text = String::new();
        push_decimal(&mut text, self.0 as u64);
        assert(text@ =~= ascii(decimal_digits(self.0 as nat)));
        text
    }
}

} // verus!
