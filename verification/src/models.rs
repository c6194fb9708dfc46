//! Request and response records exchanged with clients.

use vstd::prelude::*;

verus! {

/// A point in time: whole seconds since the Unix epoch, UTC, and the
/// nanoseconds into that second.
#[derive(Debug, Clone, Copy, PartialEq, Eq, Structural)]
pub struct Timestamp {
    pub seconds: i64,
    pub nanoseconds: u32,
}

#[derive(Debug, Clone, PartialEq, Eq)]
pub struct CreateAuthUserRequest {
    pub username: String,
    pub email: String,
    pub password: String,
    pub confirm_password: String,
}

#[derive(Debug, Clone, PartialEq, Eq)]
pub struct AuthUserResponse {
    pub id: i32,
    pub username: String,
    pub token: String,
    pub refresh_token: String,
    pub websocket_token: String,
}

#[derive(Debug, Clone, PartialEq, Eq)]
pub struct RefreshTokenRequest {
    pub refresh_token: String,
}

#[derive(Debug, Clone, PartialEq, Eq)]
pub struct CreateChannelRequest {
    pub name: String,
}

#[derive(Debug, Clone, PartialEq, Eq)]
pub struct CreateChannelResponse {
    pub id: i32,
    pub name: String,
    pub guild_id: i32,
    pub created_date: Timestamp,
    pub updated_date: Timestamp,
}

#[derive(Debug, Clone, PartialEq, Eq)]
pub struct CreateGuildRequest {
    pub name: String,
    pub description: String,
}

#[derive(Debug, Clone, PartialEq, Eq)]
pub struct CreateGuildResponse {
    pub id: i32,
    pub name: String,
    pub description: String,
    pub owner_id: i32,
    pub channels: Vec<CreateChannelResponse>,
    pub created_date: Timestamp,
    pub updated_date: Timestamp,
}

#[derive(Debug, Clone, Copy, PartialEq, Eq, Structural)]
pub struct CreateMemberRequest {
    pub user_id: i32,
    pub guild_id: i32,
}

#[derive(Debug, Clone, Copy, PartialEq, Eq, Structural)]
pub struct CreateMemberResponse {
    pub user_id: i32,
    pub guild_id: i32,
    pub created_date: Timestamp,
}

#[derive(Debug, Clone, PartialEq, Eq)]
pub struct CreateMessageRequest {
    pub channel_id: i32,
    pub content: String,
    pub attachments: Vec<i32>,
}

#[derive(Debug, Clone, PartialEq, Eq)]
pub struct MessageResponse {
    pub id: i32,
    pub author_id: i32,
    pub author: String,
    pub content: String,
    pub attachments: Vec<String>,
    pub created_date: Timestamp,
    pub updated_date: Timestamp,
}

#[derive(Debug, Clone, PartialEq, Eq)]
pub struct AttachmentResponse {
    pub id: i32,
    pub file_name: String,
    pub file_size: i64,
    pub mime_type: String,
    pub created_date: Timestamp,
}

/// What a role may be notified of or act upon.
#[derive(Debug, Clone, Copy, PartialEq, Eq, Structural)]
pub enum IntentValue {
    GuildCreate,
    GuildUpdate,
    GuildDelete,
    GuildRoleCreate,
    GuildRoleUpdate,
    GuildRoleDelete,
    GuildMemberAdd,
    GuildMemberUpdate,
    GuildMemberRemove,
    GuildBanAdd,
    GuildBanRemove,
    GuildEmojisUpdate,
    GuildIntegrationsUpdate,
    ChannelCreate,
    ChannelUpdate,
    ChannelDelete,
    ChannelPinsUpdate,
    MessageCreate,
    MessageUpdate,
    MessageDelete,
    MessageDeleteBulk,
    MessageReactionAdd,
    MessageReactionRemove,
    MessageReactionRemoveAll,
    MessageReactionRemoveEmoji,
}

impl IntentValue {
    /// The number under which an intent is stored: guild intents from 100,
    /// channel intents from 200, message intents from 300.
    pub open spec fn spec_code(self) -> i32 {
        match self {
            IntentValue::GuildCreate => 100,
            IntentValue::GuildUpdate => 101,
            IntentValue::GuildDelete => 102,
            IntentValue::GuildRoleCreate => 103,
            IntentValue::GuildRoleUpdate => 104,
            IntentValue::GuildRoleDelete => 105,
            IntentValue::GuildMemberAdd => 106,
            IntentValue::GuildMemberUpdate => 107,
            IntentValue::GuildMemberRemove => 108,
            IntentValue::GuildBanAdd => 109,
            IntentValue::GuildBanRemove => 110,
            IntentValue::GuildEmojisUpdate => 111,
            IntentValue::GuildIntegrationsUpdate => 112,
            IntentValue::ChannelCreate => 200,
            IntentValue::ChannelUpdate => 201,
            IntentValue::ChannelDelete => 202,
            IntentValue::ChannelPinsUpdate => 203,
            IntentValue::MessageCreate => 300,
            IntentValue::MessageUpdate => 301,
            IntentValue::MessageDelete => 302,
            IntentValue::MessageDeleteBulk => 303,
            IntentValue::MessageReactionAdd => 304,
            IntentValue::MessageReactionRemove => 305,
            IntentValue::MessageReactionRemoveAll => 306,
            IntentValue::MessageReactionRemoveEmoji => 307,
        }
    }

    #[verifier::when_used_as_spec(spec_code)]
    pub fn code(self) -> (n: i32)
        ensures
            n == self.spec_code(),
    {
        match self {
            IntentValue::GuildCreate => 100,
            IntentValue::GuildUpdate => 101,
            IntentValue::GuildDelete => 102,
            IntentValue::GuildRoleCreate => 103,
            IntentValue::GuildRoleUpdate => 104,
            IntentValue::GuildRoleDelete => 105,
            IntentValue::GuildMemberAdd => 106,
            IntentValue::GuildMemberUpdate => 107,
            IntentValue::GuildMemberRemove => 108,
            IntentValue::GuildBanAdd => 109,
            IntentValue::GuildBanRemove => 110,
            IntentValue::GuildEmojisUpdate => 111,
            IntentValue::GuildIntegrationsUpdate => 112,
            IntentValue::ChannelCreate => 200,
            IntentValue::ChannelUpdate => 201,
            IntentValue::ChannelDelete => 202,
            IntentValue::ChannelPinsUpdate => 203,
            IntentValue::MessageCreate => 300,
            IntentValue::MessageUpdate => 301,
            IntentValue::MessageDelete => 302,
            IntentValue::MessageDeleteBulk => 303,
            IntentValue::MessageReactionAdd => 304,
            IntentValue::MessageReactionRemove => 305,
            IntentValue::MessageReactionRemoveAll => 306,
            IntentValue::MessageReactionRemoveEmoji => 307,
        }
    }
}

#[derive(Debug, Clone, PartialEq, Eq)]
pub struct CreateRoleRequest {
    pub name: String,
    pub guild_id: i32,
    pub intents: Vec<IntentValue>,
}

} // verus!
