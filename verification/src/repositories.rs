//! What the outcome of each statement means.
//!
//! The statements themselves are run by the host. A repository is told what
//! came of its statement and says what that is to the caller: a row, no
//! row, or the failure.

use crate::records::{Attachment, AuthUser, Channel, Guild, Intent, Member, Message, Role};
use vstd::prelude::*;

verus! {

/// Why a statement gave no result.
#[derive(Debug, Clone, PartialEq, Eq)]
pub struct QueryError {
    /// The statement ran and returned no row where one was expected.
    pub row_not_found: bool,
    /// The failure in words.
    pub message: String,
}

/// A row that may be absent: no row is no failure.
pub open spec fn spec_found<T>(fetched: Result<T, QueryError>) -> Result<Option<T>, String> {
    match fetched {
        Ok(row) => Ok(Some(row)),
        Err(e) => if e.row_not_found {
            Ok(None)
        } else {
            Err(e.message)
        },
    }
}

#[verifier::when_used_as_spec(spec_found)]
pub fn found<T>(fetched: Result<T, QueryError>) -> (r: Result<Option<T>, String>)
    ensures
        r == spec_found(fetched),
{
    match fetched {
        Ok(row) => Ok(Some(row)),
        Err(e) => if e.row_not_found {
            Ok(None)
        } else {
            Err(e.message)
        },
    }
}

/// A row that must be there: no row is a failure like any other.
pub open spec fn spec_required<T>(fetched: Result<T, QueryError>) -> Result<T, String> {
    match fetched {
        Ok(row) => Ok(row),
        Err(e) => Err(e.message),
    }
}

#[verifier::when_used_as_spec(spec_required)]
pub fn required<T>(fetched: Result<T, QueryError>) -> (r: Result<T, String>)
    ensures
        r == spec_required(fetched),
{
    match fetched {
        Ok(row) => Ok(row),
        Err(e) => Err(e.message),
    }
}

/// The statements on attachments and on their ties to messages.
#[derive(Debug, Clone, Copy, PartialEq, Eq)]
pub struct AttachmentsRepository {}

/// The statements on users and their tokens.
#[derive(Debug, Clone, Copy, PartialEq, Eq)]
pub struct AuthRepository {}

/// The statements on channels.
#[derive(Debug, Clone, Copy, PartialEq, Eq)]
pub struct ChannelRepository {}

/// The statements on guilds.
#[derive(Debug, Clone, Copy, PartialEq, Eq)]
pub struct GuildRepository {}

/// The statements on memberships.
#[derive(Debug, Clone, Copy, PartialEq, Eq)]
pub struct MemberRepository {}

/// The statements on messages.
#[derive(Debug, Clone, Copy, PartialEq, Eq)]
pub struct MessageRepository {}

/// The statements on roles and their intents.
#[derive(Debug, Clone, Copy, PartialEq, Eq)]
pub struct RoleRepository {}

impl AttachmentsRepository {
    /// The stored attachment, without the path under which its file lies:
    /// that is nothing for a client to see.
    pub fn insert(&self, fetched: Result<Attachment, QueryError>) -> (r: Result<
        Option<Attachment>,
        String,
    >)
        ensures
            match fetched {
                Ok(row) => r == Ok::<Option<Attachment>, String>(
                    Some(Attachment { file_path: None, ..row }),
                ),
                Err(e) => r == spec_found::<Attachment>(Err(e)),
            },
    {
        match fetched {
            Ok(row) => Ok(
                Some(
                    Attachment {
                        id: row.id,
                        file_name: row.file_name,
                        file_path: None,
                        file_size: row.file_size,
                        mime_type: row.mime_type,
                        created_date: row.created_date,
                    },
                ),
            ),
            Err(e) => found(Err(e)),
        }
    }

    pub fn create_message_attachment_mapping(&self, executed: Result<(), QueryError>) -> (r: Result<
        (),
        String,
    >)
        ensures
            r == spec_required(executed),
    {
        required(executed)
    }

    /// The attachments of a message. A message without any has none: that
    /// is no failure.
    pub fn get_message_attachments(&self, fetched: Result<Vec<Attachment>, QueryError>) -> (r:
        Result<Vec<Attachment>, String>)
        ensures
            match fetched {
                Ok(rows) => r == Ok::<Vec<Attachment>, String>(rows),
                Err(e) => if e.row_not_found {
                    r matches Ok(rows) && rows@.len() == 0
                } else {
                    r == Err::<Vec<Attachment>, String>(e.message)
                },
            },
    {
        match fetched {
            Ok(rows) => Ok(rows),
            Err(e) => if e.row_not_found {
                Ok(Vec::new())
            } else {
                Err(e.message)
            },
        }
    }
}

impl AuthRepository {
    pub fn insert(&self, fetched: Result<AuthUser, QueryError>) -> (r: Result<AuthUser, String>)
        ensures
            r == spec_required(fetched),
    {
        required(fetched)
    }

    pub fn find(&self, fetched: Result<AuthUser, QueryError>) -> (r: Result<
        Option<AuthUser>,
        String,
    >)
        ensures
            r == spec_found(fetched),
    {
        found(fetched)
    }

    pub fn find_websocket(&self, fetched: Result<AuthUser, QueryError>) -> (r: Result<
        Option<AuthUser>,
        String,
    >)
        ensures
            r == spec_found(fetched),
    {
        found(fetched)
    }

    pub fn update_refresh_token(&self, fetched: Result<AuthUser, QueryError>) -> (r: Result<
        Option<AuthUser>,
        String,
    >)
        ensures
            r == spec_found(fetched),
    {
        found(fetched)
    }
}

impl ChannelRepository {
    pub fn insert(&self, fetched: Result<Channel, QueryError>) -> (r: Result<
        Option<Channel>,
        String,
    >)
        ensures
            r == spec_found(fetched),
    {
        found(fetched)
    }

    pub fn find_guild_channels(&self, fetched: Result<Vec<Channel>, QueryError>) -> (r: Result<
        Option<Vec<Channel>>,
        String,
    >)
        ensures
            r == spec_found(fetched),
    {
        found(fetched)
    }

    pub fn find_channel(&self, fetched: Result<Channel, QueryError>) -> (r: Result<
        Option<Channel>,
        String,
    >)
        ensures
            r == spec_found(fetched),
    {
        found(fetched)
    }
}

impl GuildRepository {
    pub fn find_by_id(&self, fetched: Result<Guild, QueryError>) -> (r: Result<
        Option<Guild>,
        String,
    >)
        ensures
            r == spec_found(fetched),
    {
        found(fetched)
    }

    pub fn find_guilds(&self, fetched: Result<Vec<Guild>, QueryError>) -> (r: Result<
        Option<Vec<Guild>>,
        String,
    >)
        ensures
            r == spec_found(fetched),
    {
        found(fetched)
    }

    pub fn find_owner_guilds(&self, fetched: Result<Vec<Guild>, QueryError>) -> (r: Result<
        Option<Vec<Guild>>,
        String,
    >)
        ensures
            r == spec_found(fetched),
    {
        found(fetched)
    }

    pub fn insert(&self, fetched: Result<Guild, QueryError>) -> (r: Result<Guild, String>)
        ensures
            r == spec_required(fetched),
    {
        required(fetched)
    }
}

impl MemberRepository {
    pub fn add_user_to_guild(&self, fetched: Result<Member, QueryError>) -> (r: Result<
        Member,
        String,
    >)
        ensures
            r == spec_required(fetched),
    {
        required(fetched)
    }
}

impl MessageRepository {
    pub fn insert(&self, fetched: Result<Message, QueryError>) -> (r: Result<Message, String>)
        ensures
            r == spec_required(fetched),
    {
        required(fetched)
    }

    pub fn get_page(&self, fetched: Result<Vec<Message>, QueryError>) -> (r: Result<
        Option<Vec<Message>>,
        String,
    >)
        ensures
            r == spec_found(fetched),
    {
        found(fetched)
    }
}

impl RoleRepository {
    pub fn create_role(&self, fetched: Result<Role, QueryError>) -> (r: Result<Role, String>)
        ensures
            r == spec_required(fetched),
    {
        required(fetched)
    }

    pub fn add_row_intent(&self, fetched: Result<Intent, QueryError>) -> (r: Result<
        Intent,
        String,
    >)
        ensures
            r == spec_required(fetched),
    {
        required(fetched)
    }
}

} // verus!
