use crate::user::UserId;
use vstd::prelude::*;

verus! {

/// A channel's topic: the text, who set it, and when (unix seconds).
pub struct ChannelTopic {
    pub value: String,
    pub creator: UserId,
    pub last_set: i64,
}

/// A channel's purpose: the text, who set it, and when (unix seconds).
pub struct ChannelPurpose {
    pub value: String,
    pub creator: UserId,
    pub last_set: i64,
}

/// One source channel record from the export's channel list, immutable once
/// loaded. Timestamps are unix seconds.
pub struct ChannelInfo {
    pub id: String,
    pub created: i64,
    pub is_private: bool,
    pub name: String,
    pub creator: UserId,
    pub is_archived: bool,
    pub members: Vec<UserId>,
    pub topic: ChannelTopic,
    pub purpose: ChannelPurpose,
}

/// One exported message: author, text, timestamp (unix seconds), and an
/// optional subtype discriminating system events. Parsed for completeness of
/// the export schema; the migration path does not consume messages.
pub struct Message {
    pub user: UserId,
    pub text: String,
    pub ts: i64,
    pub subtype: Option<MessageSubType>,
}

/// The mutually exclusive system-event variants a message can carry.
#[derive(Clone, Copy, PartialEq, Eq, Structural, Debug)]
pub enum MessageSubType {
    ChannelJoin,
    ChannelTopic,
    ChannelPurpose,
    Tombstone,
    ThreadBroadcast,
}

} // verus!
