//! What each endpoint answers, by how far its request got.
//!
//! The host reads the request, talks to the store and writes the answer;
//! which answer it is, is decided here.

use crate::models::CreateAuthUserRequest;
use crate::records::Attachment;
use vstd::prelude::*;

verus! {

/// The status of an answer.
#[derive(Debug, Clone, Copy, PartialEq, Eq, Structural)]
pub enum Status {
    Success,
    Created,
    BadRequest,
    Unauthorized,
    NotFound,
    InternalServerError,
}

impl Status {
    pub open spec fn spec_code(self) -> u16 {
        match self {
            Status::Success => 200,
            Status::Created => 201,
            Status::BadRequest => 400,
            Status::Unauthorized => 401,
            Status::NotFound => 404,
            Status::InternalServerError => 500,
        }
    }

    /// The status as a number.
    #[verifier::when_used_as_spec(spec_code)]
    pub fn code(self) -> (n: u16)
        ensures
            n == self.spec_code(),
    {
        match self {
            Status::Success => 200,
            Status::Created => 201,
            Status::BadRequest => 400,
            Status::Unauthorized => 401,
            Status::NotFound => 404,
            Status::InternalServerError => 500,
        }
    }
}

/// What a look into the store came to.
#[derive(Debug, Clone, Copy, PartialEq, Eq, Structural)]
pub enum Lookup {
    Found,
    Missing,
    Failed,
}

pub open spec fn spec_lookup<T, E>(outcome: Result<Option<T>, E>) -> Lookup {
    match outcome {
        Ok(Some(_)) => Lookup::Found,
        Ok(None) => Lookup::Missing,
        Err(_) => Lookup::Failed,
    }
}

/// What `outcome` came to, without what it holds.
pub fn lookup<T, E>(outcome: &Result<Option<T>, E>) -> (shape: Lookup)
    ensures
        shape == spec_lookup(*outcome),
{
    match outcome {
        Ok(Some(_)) => Lookup::Found,
        Ok(None) => Lookup::Missing,
        Err(_) => Lookup::Failed,
    }
}

/// The answer to a question for one thing: it is there, it is not, or
/// asking failed.
pub open spec fn answer(found: Lookup, there: Status, missing: Status) -> Status {
    match found {
        Lookup::Found => there,
        Lookup::Missing => missing,
        Lookup::Failed => Status::InternalServerError,
    }
}

fn answered(found: Lookup, there: Status, missing: Status) -> (status: Status)
    ensures
        status == answer(found, there, missing),
{
    match found {
        Lookup::Found => there,
        Lookup::Missing => missing,
        Lookup::Failed => Status::InternalServerError,
    }
}

/// The answer to something done: it was done, or it failed.
pub open spec fn done(succeeded: bool, status: Status) -> Status {
    if succeeded {
        status
    } else {
        Status::InternalServerError
    }
}

/// The guilds that the user has joined. A user who has joined none gets an
/// empty list, not an error.
pub fn get_guilds(found: Lookup) -> (status: Status)
    ensures
        status == answer(found, Status::Success, Status::Success),
{
    answered(found, Status::Success, Status::Success)
}

pub fn get_owned_guilds(succeeded: bool) -> (status: Status)
    ensures
        status == done(succeeded, Status::Success),
{
    if succeeded {
        Status::Success
    } else {
        Status::InternalServerError
    }
}

pub fn get_guild(found: Lookup) -> (status: Status)
    ensures
        status == answer(found, Status::Success, Status::NotFound),
{
    answered(found, Status::Success, Status::NotFound)
}

pub fn create_guild(succeeded: bool) -> (status: Status)
    ensures
        status == done(succeeded, Status::Created),
{
    if succeeded {
        Status::Created
    } else {
        Status::InternalServerError
    }
}

pub fn get_guild_channels(found: Lookup) -> (status: Status)
    ensures
        status == answer(found, Status::Success, Status::NotFound),
{
    answered(found, Status::Success, Status::NotFound)
}

pub fn create_guild_channel(found: Lookup) -> (status: Status)
    ensures
        status == answer(found, Status::Created, Status::NotFound),
{
    answered(found, Status::Created, Status::NotFound)
}

pub fn get_guild_channel(found: Lookup) -> (status: Status)
    ensures
        status == answer(found, Status::Success, Status::NotFound),
{
    answered(found, Status::Success, Status::NotFound)
}

/// A role for a guild. The guild named in the request must be the guild of
/// the path; where it is, `found` tells what the store did, and where it is
/// not, the store is not asked.
pub open spec fn spec_create_guild_role(
    request_guild: i32,
    path_guild: i32,
    found: Option<Lookup>,
) -> Status {
    if request_guild != path_guild {
        Status::BadRequest
    } else {
        match found {
            Some(found) => answer(found, Status::Created, Status::BadRequest),
            None => Status::InternalServerError,
        }
    }
}

pub fn create_guild_role(request_guild: i32, path_guild: i32, found: Option<Lookup>) -> (status:
    Status)
    ensures
        status == spec_create_guild_role(request_guild, path_guild, found),
{
    if request_guild != path_guild {
        Status::BadRequest
    } else {
        match found {
            Some(found) => answered(found, Status::Created, Status::BadRequest),
            None => Status::InternalServerError,
        }
    }
}

/// A member for a guild. The guild named in the request must be the guild
/// of the path; where it is, `succeeded` tells whether the store added the
/// member.
pub open spec fn spec_add_guild_member(request_guild: i32, path_guild: i32, succeeded: bool) -> Status {
    if request_guild != path_guild {
        Status::BadRequest
    } else {
        done(succeeded, Status::Created)
    }
}

pub fn add_guild_member(request_guild: i32, path_guild: i32, succeeded: bool) -> (status: Status)
    ensures
        status == spec_add_guild_member(request_guild, path_guild, succeeded),
{
    if request_guild != path_guild {
        Status::BadRequest
    } else if succeeded {
        Status::Created
    } else {
        Status::InternalServerError
    }
}

/// A page of a channel's messages. No page means that the user may not see
/// the channel.
pub fn get_channel_messages(found: Lookup) -> (status: Status)
    ensures
        status == answer(found, Status::Success, Status::Unauthorized),
{
    answered(found, Status::Success, Status::Unauthorized)
}

/// How far a sign-in got.
#[derive(Debug, Clone, Copy, PartialEq, Eq, Structural)]
pub enum Login {
    /// The request held no password.
    NoPassword,
    /// The store knows no user of that name.
    UnknownUser,
    /// Asking the store failed.
    StoreFailed,
    /// The password did not match.
    WrongPassword,
    /// No token could be made.
    NoToken,
    /// The user's row lacks what the response needs.
    Incomplete,
    /// The user is signed in.
    SignedIn,
}

pub open spec fn spec_login(progress: Login) -> Status {
    match progress {
        Login::NoPassword => Status::Unauthorized,
        Login::UnknownUser => Status::Unauthorized,
        Login::StoreFailed => Status::InternalServerError,
        Login::WrongPassword => Status::Unauthorized,
        Login::NoToken => Status::InternalServerError,
        Login::Incomplete => Status::InternalServerError,
        Login::SignedIn => Status::Success,
    }
}

#[verifier::when_used_as_spec(spec_login)]
pub fn login(progress: Login) -> (status: Status)
    ensures
        status == spec_login(progress),
{
    match progress {
        Login::NoPassword => Status::Unauthorized,
        Login::UnknownUser => Status::Unauthorized,
        Login::StoreFailed => Status::InternalServerError,
        Login::WrongPassword => Status::Unauthorized,
        Login::NoToken => Status::InternalServerError,
        Login::Incomplete => Status::InternalServerError,
        Login::SignedIn => Status::Success,
    }
}

/// Whether a registration repeats its password as it gave it.
pub fn passwords_agree(request: &CreateAuthUserRequest) -> (same: bool)
    ensures
        same == (request.password@ == request.confirm_password@),
{
    request.password == request.confirm_password
}

/// How far a registration got.
#[derive(Debug, Clone, Copy, PartialEq, Eq, Structural)]
pub enum Registration {
    /// The password and its repetition differ.
    Mismatch,
    /// The password could not be hashed.
    HashFailed,
    /// The store did not take the user.
    StoreFailed,
    /// The user is registered.
    Registered,
}

pub open spec fn spec_register(progress: Registration) -> Status {
    match progress {
        Registration::Mismatch => Status::Unauthorized,
        Registration::HashFailed => Status::InternalServerError,
        Registration::StoreFailed => Status::InternalServerError,
        Registration::Registered => Status::Success,
    }
}

#[verifier::when_used_as_spec(spec_register)]
pub fn register(progress: Registration) -> (status: Status)
    ensures
        status == spec_register(progress),
{
    match progress {
        Registration::Mismatch => Status::Unauthorized,
        Registration::HashFailed => Status::InternalServerError,
        Registration::StoreFailed => Status::InternalServerError,
        Registration::Registered => Status::Success,
    }
}

/// The answer to a request for new tokens: whoever the store does not
/// vouch for, because the refresh token is not the user's or because asking
/// failed, is not authorized.
pub open spec fn spec_refresh_token(found: Lookup, token_made: bool) -> Status {
    match found {
        Lookup::Found => done(token_made, Status::Success),
        _ => Status::Unauthorized,
    }
}

#[verifier::when_used_as_spec(spec_refresh_token)]
pub fn refresh_token(found: Lookup, token_made: bool) -> (status: Status)
    ensures
        status == spec_refresh_token(found, token_made),
{
    match found {
        Lookup::Found => if token_made {
            Status::Success
        } else {
            Status::InternalServerError
        },
        _ => Status::Unauthorized,
    }
}

/// The cookie that carries a token.
#[derive(Debug, Clone, PartialEq, Eq)]
pub struct AuthCookie {
    pub name: &'static str,
    pub domain: &'static str,
    pub path: &'static str,
    /// Minutes from now until it expires.
    pub minutes: i64,
}

impl AuthCookie {
    pub fn new() -> (cookie: Self)
        ensures
            cookie.name@ == "auth_token"@,
            cookie.domain@ == "localhost"@,
            cookie.path@ == "/"@,
            cookie.minutes == 10,
    {
        AuthCookie { name: "auth_token", domain: "localhost", path: "/", minutes: 10 }
    }
}

/// How far an upload got.
#[derive(Debug, Clone, Copy, PartialEq, Eq, Structural)]
pub enum Upload {
    /// The part has no content type.
    NoContentType,
    /// The part has no file name.
    NoName,
    /// The file could not be put into the storage folder.
    NotStored,
    /// The file is stored and the store returned no row for it.
    NotRecorded,
    /// The file is stored and recording it failed.
    RecordFailed,
    /// The file is stored and recorded.
    Recorded,
}

/// The answer to an upload.
#[derive(Debug, Clone, Copy, PartialEq, Eq)]
pub struct UploadAnswer {
    pub status: Status,
    /// What the answer says, where it says anything besides the status.
    pub body: Option<&'static str>,
    /// Whether the stored file is to be deleted again.
    pub delete_file: bool,
}

impl UploadAnswer {
    /// Whether the answer is this one.
    pub open spec fn is(self, status: Status, body: Option<Seq<char>>, delete_file: bool) -> bool {
        &&& self.status == status
        &&& self.delete_file == delete_file
        &&& match body {
            Some(text) => self.body matches Some(s) && s@ == text,
            None => self.body is None,
        }
    }
}

/// The answer to an upload. A file that is stored and not recorded is
/// deleted again.
pub fn upload_attachments(progress: Upload) -> (answer: UploadAnswer)
    ensures
        match progress {
            Upload::NoContentType => answer.is(
                Status::BadRequest,
                Some("Content Type was not set for the attachment."@),
                false,
            ),
            Upload::NoName => answer.is(
                Status::BadRequest,
                Some("File provided had no name"@),
                false,
            ),
            Upload::NotStored => answer.is(Status::InternalServerError, None, false),
            Upload::NotRecorded => answer.is(
                Status::InternalServerError,
                Some("Error occurred while saving your file to the database."@),
                true,
            ),
            Upload::RecordFailed => answer.is(Status::InternalServerError, None, true),
            Upload::Recorded => answer.is(Status::Created, None, false),
        },
{
    match progress {
        Upload::NoContentType => UploadAnswer {
            status: Status::BadRequest,
            body: Some("Content Type was not set for the attachment."),
            delete_file: false,
        },
        Upload::NoName => UploadAnswer {
            status: Status::BadRequest,
            body: Some("File provided had no name"),
            delete_file: false,
        },
        Upload::NotStored => UploadAnswer {
            status: Status::InternalServerError,
            body: None,
            delete_file: false,
        },
        Upload::NotRecorded => UploadAnswer {
            status: Status::InternalServerError,
            body: Some("Error occurred while saving your file to the database."),
            delete_file: true,
        },
        Upload::RecordFailed => UploadAnswer {
            status: Status::InternalServerError,
            body: None,
            delete_file: true,
        },
        Upload::Recorded => UploadAnswer { status: Status::Created, body: None, delete_file: false },
    }
}

/// The row to record for a file that was stored.
pub fn uploaded(file_name: String, file_path: String, file_size: i64, mime_type: String) -> (row:
    Attachment)
    ensures
        row.id is None,
        row.file_name == Some(file_name),
        row.file_path == Some(file_path),
        row.file_size == Some(file_size),
        row.mime_type == Some(mime_type),
        row.created_date is None,
{
    Attachment {
        id: None,
        file_name: Some(file_name),
        file_size: Some(file_size),
        file_path: Some(file_path),
        mime_type: Some(mime_type),
        created_date: None,
    }
}

} // verus!
