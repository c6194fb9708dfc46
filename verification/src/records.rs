//! Rows as the database returns them, and their conversion into the
//! records that are sent to clients.
//!
//! A row may lack any column that its query did not select, so every
//! column is optional. A conversion succeeds exactly when each column that
//! the response needs is present, and otherwise names the first one
//! missing, in the order of the response's fields.

use crate::models::{
    AttachmentResponse, AuthUserResponse, CreateAuthUserRequest, CreateChannelResponse,
    CreateGuildResponse, CreateMemberResponse, MessageResponse, Timestamp,
};
use vstd::prelude::*;
use vstd::string::StringExecFns;

verus! {

#[derive(Debug, Clone, Default, PartialEq, Eq)]
pub struct Attachment {
    pub id: Option<i32>,
    pub file_name: Option<String>,
    pub file_path: Option<String>,
    pub file_size: Option<i64>,
    pub mime_type: Option<String>,
    pub created_date: Option<Timestamp>,
}

#[derive(Debug, Clone, Copy, Default, PartialEq, Eq)]
pub struct AttachmentMapping {
    pub post_id: i32,
    pub attachment_id: i32,
}

#[derive(Debug, Clone, Default, PartialEq, Eq)]
pub struct AuthUser {
    pub id: Option<i32>,
    pub username: String,
    pub password: Option<String>,
    pub email: Option<String>,
    pub refresh_token: Option<String>,
    pub websocket_token: Option<String>,
    pub created_date: Option<Timestamp>,
    pub updated_date: Option<Timestamp>,
}

#[derive(Debug, Clone, Default, PartialEq, Eq)]
pub struct Channel {
    pub id: Option<i32>,
    pub name: Option<String>,
    pub message_count: Option<i32>,
    pub guild_id: Option<i32>,
    pub created_date: Option<Timestamp>,
    pub updated_date: Option<Timestamp>,
}

#[derive(Debug, Clone, Default, PartialEq, Eq)]
pub struct Guild {
    pub id: Option<i32>,
    pub name: Option<String>,
    pub description: Option<String>,
    pub owner_id: Option<i32>,
    pub created_date: Option<Timestamp>,
    pub updated_date: Option<Timestamp>,
}

#[derive(Debug, Clone, Copy, Default, PartialEq, Eq)]
pub struct Member {
    pub id: Option<i32>,
    pub user_id: Option<i32>,
    pub guild_id: Option<i32>,
    pub user_who_added: Option<i32>,
    pub created_date: Option<Timestamp>,
    pub updated_date: Option<Timestamp>,
}

#[derive(Debug, Clone, Default, PartialEq, Eq)]
pub struct Message {
    pub id: Option<i32>,
    pub channel_id: Option<i32>,
    pub author: Option<String>,
    pub author_id: Option<i32>,
    pub content: Option<String>,
    pub created_date: Option<Timestamp>,
    pub updated_date: Option<Timestamp>,
}

#[derive(Debug, Clone, Copy, PartialEq, Eq)]
pub struct Intent {
    pub id: Option<i32>,
    pub role_id: i32,
    pub value: i32,
    pub created_date: Option<Timestamp>,
    pub updated_date: Option<Timestamp>,
}

#[derive(Debug, Clone, PartialEq, Eq)]
pub struct Role {
    pub id: Option<i32>,
    pub name: String,
    pub guild_id: i32,
    pub created_date: Option<Timestamp>,
    pub updated_date: Option<Timestamp>,
}

#[derive(Debug, Clone, PartialEq, Eq)]
pub struct RoleResult {
    pub id: Option<i32>,
    pub name: String,
    pub guild_id: i32,
    pub intents: Vec<Intent>,
    pub created_date: Option<Timestamp>,
    pub updated_date: Option<Timestamp>,
}

impl RoleResult {
    /// A role together with the intents that were stored for it.
    pub fn from_parts(role: Role, intents: Vec<Intent>) -> (out: Self)
        ensures
            out.id == role.id,
            out.name == role.name,
            out.guild_id == role.guild_id,
            out.intents == intents,
            out.created_date == role.created_date,
            out.updated_date == role.updated_date,
    {
        RoleResult {
            id: role.id,
            name: role.name,
            guild_id: role.guild_id,
            intents,
            created_date: role.created_date,
            updated_date: role.updated_date,
        }
    }
}

/// Why a guild row could not be turned into a response.
#[derive(Debug, Clone, PartialEq, Eq)]
pub struct FromGuildError(String);

impl FromGuildError {
    pub closed spec fn reason(&self) -> Seq<char> {
        self.0@
    }

    pub fn new(reason: String) -> (e: Self)
        ensures
            e.reason() == reason@,
    {
        FromGuildError(reason)
    }

    /// The text shown for this error: a fixed prefix, then the reason.
    pub fn message(&self) -> (text: String)
        ensures
            text@ == "ERROR - Unable to convert Guild to GuildResult: "@ + self.reason(),
    {
        let mut text = String::from_str("ERROR - Unable to convert Guild to GuildResult: ");
        text.append(self.0.as_str());
        text
    }
}

impl AttachmentResponse {
    pub open spec fn try_from_ok(value: Attachment) -> bool {
        &&& value.id is Some
        &&& value.file_name is Some
        &&& value.file_size is Some
        &&& value.mime_type is Some
        &&& value.created_date is Some
    }

    pub open spec fn try_from_err(value: Attachment) -> Seq<char> {
        if value.id is None {
            "ID was not provided while casting from Attachment to AttachmentResponse"@
        } else if value.file_name is None {
            "File Name was not provided while casting from Attachment to Attachment Response"@
        } else if value.file_size is None {
            "File Size was not provided while casting from Attachment to Attachment Response"@
        } else if value.mime_type is None {
            "Mime Type was not provided while casting from Attachment to Attachment Response"@
        } else {
            "Created Date was not provided while casting from Attachment to Attachment Response"@
        }
    }

    /// Whether this response holds what `value` holds.
    pub open spec fn reflects(&self, value: Attachment) -> bool {
        &&& value.id == Some(self.id)
        &&& value.file_name == Some(self.file_name)
        &&& value.file_size == Some(self.file_size)
        &&& value.mime_type == Some(self.mime_type)
        &&& value.created_date == Some(self.created_date)
    }

    pub fn try_from(value: &Attachment) -> (r: Result<Self, &'static str>)
        ensures
            r is Ok <==> Self::try_from_ok(*value),
            r matches Ok(out) ==> out.reflects(*value),
            r matches Err(e) ==> e@ == Self::try_from_err(*value),
    {
        let id = match value.id {
            Some(id) => id,
            None => {
                return Err(
                    "ID was not provided while casting from Attachment to AttachmentResponse",
                );
            },
        };
        let file_name = match &value.file_name {
            Some(name) => name.clone(),
            None => {
                return Err(
                    "File Name was not provided while casting from Attachment to Attachment Response",
                );
            },
        };
        let file_size = match value.file_size {
            Some(size) => size,
            None => {
                return Err(
                    "File Size was not provided while casting from Attachment to Attachment Response",
                );
            },
        };
        let mime_type = match &value.mime_type {
            Some(mime) => mime.clone(),
            None => {
                return Err(
                    "Mime Type was not provided while casting from Attachment to Attachment Response",
                );
            },
        };
        let created_date = match value.created_date {
            Some(at) => at,
            None => {
                return Err(
                    "Created Date was not provided while casting from Attachment to Attachment Response",
                );
            },
        };
        Ok(AttachmentResponse { id, file_name, file_size, mime_type, created_date })
    }
}

impl AuthUser {
    /// The row to insert for a registration: the name, password and email as
    /// given, everything that the database assigns left empty.
    pub fn from(value: CreateAuthUserRequest) -> (user: Self)
        ensures
            user.id is None,
            user.username == value.username,
            user.password == Some(value.password),
            user.email == Some(value.email),
            user.refresh_token is None,
            user.websocket_token is None,
            user.created_date is None,
            user.updated_date is None,
    {
        AuthUser {
            id: None,
            username: value.username,
            password: Some(value.password),
            email: Some(value.email),
            refresh_token: None,
            websocket_token: None,
            created_date: None,
            updated_date: None,
        }
    }
}

impl AuthUserResponse {
    pub open spec fn try_from_ok(value: AuthUser) -> bool {
        &&& value.id is Some
        &&& value.refresh_token is Some
        &&& value.websocket_token is Some
    }

    pub open spec fn try_from_err(value: AuthUser) -> Seq<char> {
        if value.id is None {
            "Id was not returned from the database"@
        } else if value.refresh_token is None {
            "Refresh token was not provided from the database"@
        } else {
            "Websocket token was not provided from the database"@
        }
    }

    /// Whether this response holds what `value` holds.
    pub open spec fn reflects(&self, value: AuthUser) -> bool {
        &&& value.id == Some(self.id)
        &&& self.username == value.username
        &&& self.token@ == Seq::<char>::empty()
        &&& value.refresh_token == Some(self.refresh_token)
        &&& value.websocket_token == Some(self.websocket_token)
    }

    /// The response for a signed-in user. Its access token is left empty for
    /// the caller to fill in.
    pub fn try_from(value: AuthUser) -> (r: Result<Self, &'static str>)
        ensures
            r is Ok <==> Self::try_from_ok(value),
            r matches Ok(out) ==> out.reflects(value),
            r matches Err(e) ==> e@ == Self::try_from_err(value),
    {
        let id = match value.id {
            Some(id) => id,
            None => {
                return Err("Id was not returned from the database");
            },
        };
        let refresh_token = match value.refresh_token {
            Some(token) => token,
            None => {
                return Err("Refresh token was not provided from the database");
            },
        };
        let websocket_token = match value.websocket_token {
            Some(token) => token,
            None => {
                return Err("Websocket token was not provided from the database");
            },
        };
        Ok(
            AuthUserResponse {
                id,
                username: value.username,
                token: String::new(),
                refresh_token,
                websocket_token,
            },
        )
    }
}

impl CreateChannelResponse {
    pub open spec fn try_from_ok(value: Channel) -> bool {
        &&& value.id is Some
        &&& value.name is Some
        &&& value.guild_id is Some
        &&& value.created_date is Some
        &&& value.updated_date is Some
    }

    pub open spec fn try_from_err(value: Channel) -> Seq<char> {
        if value.id is None {
            "ID was not provided while casting from Channel to CreateChannelResponse"@
        } else if value.name is None {
            "Name was not provided while casting Channel to CreateCHannelResponse"@
        } else if value.guild_id is None {
            "Guild ID was not provided while casting Channel to CreateCHannelResponse"@
        } else if value.created_date is None {
            "Created Date was not provided while casting Channel to CreateCHannelResponse"@
        } else {
            "Updated Date was not provided while casting Channel to CreateCHannelResponse"@
        }
    }

    /// Whether this response holds what `value` holds.
    pub open spec fn reflects(&self, value: Channel) -> bool {
        &&& value.id == Some(self.id)
        &&& value.name == Some(self.name)
        &&& value.guild_id == Some(self.guild_id)
        &&& value.created_date == Some(self.created_date)
        &&& value.updated_date == Some(self.updated_date)
    }

    pub fn try_from(value: Channel) -> (r: Result<Self, &'static str>)
        ensures
            r is Ok <==> Self::try_from_ok(value),
            r matches Ok(out) ==> out.reflects(value),
            r matches Err(e) ==> e@ == Self::try_from_err(value),
    {
        let id = match value.id {
            Some(id) => id,
            None => {
                return Err(
                    "ID was not provided while casting from Channel to CreateChannelResponse",
                );
            },
        };
        let name = match value.name {
            Some(name) => name,
            None => {
                return Err("Name was not provided while casting Channel to CreateCHannelResponse");
            },
        };
        let guild_id = match value.guild_id {
            Some(guild_id) => guild_id,
            None => {
                return Err(
                    "Guild ID was not provided while casting Channel to CreateCHannelResponse",
                );
            },
        };
        let created_date = match value.created_date {
            Some(at) => at,
            None => {
                return Err(
                    "Created Date was not provided while casting Channel to CreateCHannelResponse",
                );
            },
        };
        let updated_date = match value.updated_date {
            Some(at) => at,
            None => {
                return Err(
                    "Updated Date was not provided while casting Channel to CreateCHannelResponse",
                );
            },
        };
        Ok(CreateChannelResponse { id, name, guild_id, created_date, updated_date })
    }
}

impl CreateGuildResponse {
    pub open spec fn try_from_ok(value: Guild) -> bool {
        &&& value.id is Some
        &&& value.name is Some
        &&& value.description is Some
        &&& value.owner_id is Some
        &&& value.created_date is Some
        &&& value.updated_date is Some
    }

    pub open spec fn try_from_err(value: Guild) -> Seq<char> {
        if value.id is None {
            "ID was not provided while casting Guild to GuildResponse"@
        } else if value.name is None {
            "Guild name was not provided while casting Guild to GuildResponse"@
        } else if value.description is None {
            "Description was not provided while casting Guild to GuildResponse"@
        } else if value.owner_id is None {
            "Owner ID was not provided while casting Guild to GuildResponse"@
        } else if value.created_date is None {
            "Created Date was not provided while casting Guild to GuildResponse"@
        } else {
            "Updated Date was not provided while casting Guild to GuildResponse"@
        }
    }

    /// Whether this response holds what `value` holds.
    pub open spec fn reflects(&self, value: Guild) -> bool {
        &&& value.id == Some(self.id)
        &&& value.name == Some(self.name)
        &&& value.description == Some(self.description)
        &&& value.owner_id == Some(self.owner_id)
        &&& self.channels@.len() == 0
        &&& value.created_date == Some(self.created_date)
        &&& value.updated_date == Some(self.updated_date)
    }

    /// The response for a guild row, with no channels listed yet.
    pub fn try_from(value: Guild) -> (r: Result<Self, &'static str>)
        ensures
            r is Ok <==> Self::try_from_ok(value),
            r matches Ok(out) ==> out.reflects(value),
            r matches Err(e) ==> e@ == Self::try_from_err(value),
    {
        let id = match value.id {
            Some(id) => id,
            None => {
                return Err("ID was not provided while casting Guild to GuildResponse");
            },
        };
        let name = match value.name {
            Some(name) => name,
            None => {
                return Err("Guild name was not provided while casting Guild to GuildResponse");
            },
        };
        let description = match value.description {
            Some(description) => description,
            None => {
                return Err("Description was not provided while casting Guild to GuildResponse");
            },
        };
        let owner_id = match value.owner_id {
            Some(owner_id) => owner_id,
            None => {
                return Err("Owner ID was not provided while casting Guild to GuildResponse");
            },
        };
        let created_date = match value.created_date {
            Some(at) => at,
            None => {
                return Err("Created Date was not provided while casting Guild to GuildResponse");
            },
        };
        let updated_date = match value.updated_date {
            Some(at) => at,
            None => {
                return Err("Updated Date was not provided while casting Guild to GuildResponse");
            },
        };
        Ok(
            CreateGuildResponse {
                id,
                name,
                description,
                owner_id,
                channels: Vec::new(),
                created_date,
                updated_date,
            },
        )
    }
}

impl CreateMemberResponse {
    pub open spec fn try_from_ok(value: Member) -> bool {
        &&& value.user_id is Some
        &&& value.guild_id is Some
        &&& value.created_date is Some
    }

    pub open spec fn try_from_err(value: Member) -> Seq<char> {
        if value.user_id is None {
            "User ID was not provided while casting from Member to CreateMemberResponse"@
        } else if value.guild_id is None {
            "Guild ID was not provided while casting from Member to CreateMemberResponse"@
        } else {
            "Created Date was not provided while casting from Member to CreateMemberResponse"@
        }
    }

    /// Whether this response holds what `value` holds.
    pub open spec fn reflects(&self, value: Member) -> bool {
        &&& value.user_id == Some(self.user_id)
        &&& value.guild_id == Some(self.guild_id)
        &&& value.created_date == Some(self.created_date)
    }

    pub fn try_from(value: Member) -> (r: Result<Self, &'static str>)
        ensures
            r is Ok <==> Self::try_from_ok(value),
            r matches Ok(out) ==> out.reflects(value),
            r matches Err(e) ==> e@ == Self::try_from_err(value),
    {
        let user_id = match value.user_id {
            Some(user_id) => user_id,
            None => {
                return Err(
                    "User ID was not provided while casting from Member to CreateMemberResponse",
                );
            },
        };
        let guild_id = match value.guild_id {
            Some(guild_id) => guild_id,
            None => {
                return Err(
                    "Guild ID was not provided while casting from Member to CreateMemberResponse",
                );
            },
        };
        let created_date = match value.created_date {
            Some(at) => at,
            None => {
                return Err(
                    "Created Date was not provided while casting from Member to CreateMemberResponse",
                );
            },
        };
        Ok(CreateMemberResponse { user_id, guild_id, created_date })
    }
}

impl MessageResponse {
    pub open spec fn try_from_ok(value: Message) -> bool {
        &&& value.id is Some
        &&& value.author is Some
        &&& value.author_id is Some
        &&& value.content is Some
        &&& value.created_date is Some
        &&& value.updated_date is Some
    }

    pub open spec fn try_from_err(value: Message) -> Seq<char> {
        if value.id is None {
            "ID was not provided while casting Message to MessageResponse"@
        } else if value.author is None {
            "Author was not provided while casting Message to MessageREsponse"@
        } else {
            "Author ID was not provided while casting Message to MessageResponse"@
        }
    }

    /// Whether this response holds what `value` holds.
    pub open spec fn reflects(&self, value: Message) -> bool {
        &&& value.id == Some(self.id)
        &&& value.author == Some(self.author)
        &&& value.author_id == Some(self.author_id)
        &&& value.content == Some(self.content)
        &&& self.attachments@.len() == 0
        &&& value.created_date == Some(self.created_date)
        &&& value.updated_date == Some(self.updated_date)
    }

    /// The response for a message row, with no attachments listed yet.
    pub fn try_from(value: Message) -> (r: Result<Self, &'static str>)
        ensures
            r is Ok <==> Self::try_from_ok(value),
            r matches Ok(out) ==> out.reflects(value),
            r matches Err(e) ==> e@ == Self::try_from_err(value),
    {
        let id = match value.id {
            Some(id) => id,
            None => {
                return Err("ID was not provided while casting Message to MessageResponse");
            },
        };
        let author = match value.author {
            Some(author) => author,
            None => {
                return Err("Author was not provided while casting Message to MessageREsponse");
            },
        };
        let author_id = match value.author_id {
            Some(author_id) => author_id,
            None => {
                return Err("Author ID was not provided while casting Message to MessageResponse");
            },
        };
        let content = match value.content {
            Some(content) => content,
            None => {
                return Err("Author ID was not provided while casting Message to MessageResponse");
            },
        };
        let created_date = match value.created_date {
            Some(at) => at,
            None => {
                return Err("Author ID was not provided while casting Message to MessageResponse");
            },
        };
        let updated_date = match value.updated_date {
            Some(at) => at,
            None => {
                return Err("Author ID was not provided while casting Message to MessageResponse");
            },
        };
        Ok(
            MessageResponse {
                id,
                author_id,
                author,
                content,
                attachments: Vec::new(),
                created_date,
                updated_date,
            },
        )
    }
}

} // verus!
