//! The decisions of the store's units of work.
//!
//! A unit of work runs its statements inside a transaction. The host runs
//! them and reports each outcome; what is decided here is how the
//! transaction ends and what the caller gets.

use crate::models::{
    AttachmentResponse, AuthUserResponse, CreateChannelResponse, CreateGuildResponse,
    CreateMemberRequest, CreateMemberResponse, IntentValue, MessageResponse,
};
use crate::records::{
    Attachment, AttachmentMapping, AuthUser, Channel, Guild, Intent, Member, Message, Role,
    RoleResult,
};
use crate::repositories::{
    spec_found, spec_required, AttachmentsRepository, AuthRepository, ChannelRepository,
    GuildRepository, MemberRepository, MessageRepository, QueryError, RoleRepository,
};
use vstd::prelude::*;
use vstd::string::StringExecFns;

verus! {

/// How many messages a page holds.
pub const PAGE_SIZE: i32 = 20;

/// How a transaction is to end.
#[derive(Debug, Clone, Copy, PartialEq, Eq, Structural)]
pub enum Settlement {
    /// Make its changes last.
    Commit,
    /// Undo them.
    Rollback,
    /// Let go of it as it is; what it changed is undone with it.
    Leave,
}

/// A failure that reads `message`.
fn failure<T>(message: &str) -> (r: Result<T, String>)
    ensures
        r matches Err(e) && e@ == message@,
{
    Err(String::from_str(message))
}

/// The channel responses for `rows`, in their order; the complaint of the
/// first row that lacks a column, if one does.
pub fn channel_responses(rows: Vec<Channel>) -> (r: Result<
    Vec<CreateChannelResponse>,
    &'static str,
>)
    ensures
        r is Ok <==> forall|i: int|
            0 <= i < rows@.len() ==> CreateChannelResponse::try_from_ok(#[trigger] rows@[i]),
        r matches Ok(out) ==> out@.len() == rows@.len() && forall|i: int|
            0 <= i < rows@.len() ==> (#[trigger] out@[i]).reflects(rows@[i]),
        r matches Err(e) ==> exists|k: int|
            0 <= k < rows@.len() && !CreateChannelResponse::try_from_ok(#[trigger] rows@[k]) && e@
                == CreateChannelResponse::try_from_err(rows@[k]) && forall|j: int|
                0 <= j < k ==> CreateChannelResponse::try_from_ok(#[trigger] rows@[j]),
{
    broadcast use vstd::std_specs::vec::axiom_spec_into_iter;

    let ghost all = rows@;
    let mut out: Vec<CreateChannelResponse> = Vec::new();
    for row in it: rows.into_iter()
        invariant
            it.seq() == all,
            out@.len() == it.index(),
            forall|i: int|
                0 <= i < it.index() ==> CreateChannelResponse::try_from_ok(#[trigger] all[i]),
            forall|i: int| 0 <= i < it.index() ==> (#[trigger] out@[i]).reflects(all[i]),
    {
        match CreateChannelResponse::try_from(row) {
            Ok(response) => {
                out.push(response);
            },
            Err(e) => {
                assert(!CreateChannelResponse::try_from_ok(all[it.index()]));
                return Err(e);
            },
        }
    }
    Ok(out)
}

/// The guild responses for `rows`, in their order; the complaint of the
/// first row that lacks a column, if one does.
pub fn guild_responses(rows: Vec<Guild>) -> (r: Result<
    Vec<CreateGuildResponse>,
    &'static str,
>)
    ensures
        r is Ok <==> forall|i: int|
            0 <= i < rows@.len() ==> CreateGuildResponse::try_from_ok(#[trigger] rows@[i]),
        r matches Ok(out) ==> out@.len() == rows@.len() && forall|i: int|
            0 <= i < rows@.len() ==> (#[trigger] out@[i]).reflects(rows@[i]),
        r matches Err(e) ==> exists|k: int|
            0 <= k < rows@.len() && !CreateGuildResponse::try_from_ok(#[trigger] rows@[k]) && e@
                == CreateGuildResponse::try_from_err(rows@[k]) && forall|j: int|
                0 <= j < k ==> CreateGuildResponse::try_from_ok(#[trigger] rows@[j]),
{
    broadcast use vstd::std_specs::vec::axiom_spec_into_iter;

    let ghost all = rows@;
    let mut out: Vec<CreateGuildResponse> = Vec::new();
    for row in it: rows.into_iter()
        invariant
            it.seq() == all,
            out@.len() == it.index(),
            forall|i: int|
                0 <= i < it.index() ==> CreateGuildResponse::try_from_ok(#[trigger] all[i]),
            forall|i: int| 0 <= i < it.index() ==> (#[trigger] out@[i]).reflects(all[i]),
    {
        match CreateGuildResponse::try_from(row) {
            Ok(response) => {
                out.push(response);
            },
            Err(e) => {
                assert(!CreateGuildResponse::try_from_ok(all[it.index()]));
                return Err(e);
            },
        }
    }
    Ok(out)
}

/// The message responses for `rows`, in their order; the complaint of the
/// first row that lacks a column, if one does.
pub fn message_responses(rows: Vec<Message>) -> (r: Result<
    Vec<MessageResponse>,
    &'static str,
>)
    ensures
        r is Ok <==> forall|i: int|
            0 <= i < rows@.len() ==> MessageResponse::try_from_ok(#[trigger] rows@[i]),
        r matches Ok(out) ==> out@.len() == rows@.len() && forall|i: int|
            0 <= i < rows@.len() ==> (#[trigger] out@[i]).reflects(rows@[i]),
        r matches Err(e) ==> exists|k: int|
            0 <= k < rows@.len() && !MessageResponse::try_from_ok(#[trigger] rows@[k]) && e@
                == MessageResponse::try_from_err(rows@[k]) && forall|j: int|
                0 <= j < k ==> MessageResponse::try_from_ok(#[trigger] rows@[j]),
{
    broadcast use vstd::std_specs::vec::axiom_spec_into_iter;

    let ghost all = rows@;
    let mut out: Vec<MessageResponse> = Vec::new();
    for row in it: rows.into_iter()
        invariant
            it.seq() == all,
            out@.len() == it.index(),
            forall|i: int|
                0 <= i < it.index() ==> MessageResponse::try_from_ok(#[trigger] all[i]),
            forall|i: int| 0 <= i < it.index() ==> (#[trigger] out@[i]).reflects(all[i]),
    {
        match MessageResponse::try_from(row) {
            Ok(response) => {
                out.push(response);
            },
            Err(e) => {
                assert(!MessageResponse::try_from_ok(all[it.index()]));
                return Err(e);
            },
        }
    }
    Ok(out)
}

/// The attachment responses for `rows`, in their order; the complaint of
/// the first row that lacks a column, if one does.
pub fn attachment_responses(rows: &Vec<Attachment>) -> (r: Result<
    Vec<AttachmentResponse>,
    &'static str,
>)
    ensures
        r is Ok <==> forall|i: int|
            0 <= i < rows@.len() ==> AttachmentResponse::try_from_ok(#[trigger] rows@[i]),
        r matches Ok(out) ==> out@.len() == rows@.len() && forall|i: int|
            0 <= i < rows@.len() ==> (#[trigger] out@[i]).reflects(rows@[i]),
        r matches Err(e) ==> exists|k: int|
            0 <= k < rows@.len() && !AttachmentResponse::try_from_ok(#[trigger] rows@[k]) && e@
                == AttachmentResponse::try_from_err(rows@[k]) && forall|j: int|
                0 <= j < k ==> AttachmentResponse::try_from_ok(#[trigger] rows@[j]),
{
    let mut out: Vec<AttachmentResponse> = Vec::new();
    let mut at: usize = 0;
    while at < rows.len()
        invariant
            at <= rows@.len(),
            out@.len() == at,
            forall|i: int| 0 <= i < at ==> AttachmentResponse::try_from_ok(#[trigger] rows@[i]),
            forall|i: int| 0 <= i < at ==> (#[trigger] out@[i]).reflects(rows@[i]),
        decreases rows@.len() - at,
    {
        match AttachmentResponse::try_from(&rows[at]) {
            Ok(response) => {
                out.push(response);
            },
            Err(e) => {
                assert(!AttachmentResponse::try_from_ok(rows@[at as int]));
                return Err(e);
            },
        }
        at = at + 1;
    }
    Ok(out)
}

/// The names of the files of `rows`, in their order; a complaint if a row
/// has none.
pub fn attachment_names(rows: &Vec<Attachment>) -> (r: Result<Vec<String>, &'static str>)
    ensures
        r is Ok <==> forall|i: int| 0 <= i < rows@.len() ==> (#[trigger] rows@[i]).file_name is Some,
        r matches Ok(names) ==> names@.len() == rows@.len() && forall|i: int|
            0 <= i < rows@.len() ==> (#[trigger] rows@[i]).file_name == Some(names@[i]),
        r matches Err(e) ==> e@
            == "Unable to get file name when submitting message with attachments."@,
{
    let mut names: Vec<String> = Vec::new();
    let mut at: usize = 0;
    while at < rows.len()
        invariant
            at <= rows@.len(),
            names@.len() == at,
            forall|i: int| 0 <= i < at ==> (#[trigger] rows@[i]).file_name == Some(names@[i]),
        decreases rows@.len() - at,
    {
        match &rows[at].file_name {
            Some(name) => {
                names.push(name.clone());
            },
            None => {
                return Err("Unable to get file name when submitting message with attachments.");
            },
        }
        at = at + 1;
    }
    Ok(names)
}

/// The numbers under which `intents` are stored, in their order.
pub fn intent_codes(intents: &Vec<IntentValue>) -> (codes: Vec<i32>)
    ensures
        codes@.len() == intents@.len(),
        forall|i: int| 0 <= i < intents@.len() ==> #[trigger] codes@[i] == intents@[i].spec_code(),
{
    let mut codes: Vec<i32> = Vec::new();
    let mut at: usize = 0;
    while at < intents.len()
        invariant
            at <= intents@.len(),
            codes@.len() == at,
            forall|i: int| 0 <= i < at ==> #[trigger] codes@[i] == intents@[i].spec_code(),
        decreases intents@.len() - at,
    {
        codes.push(intents[at].code());
        at = at + 1;
    }
    codes
}

/// How a transaction ends after its one statement: it is committed if the
/// statement succeeded, and rolled back if not.
pub open spec fn spec_settlement<T>(outcome: Result<T, String>) -> Settlement {
    if outcome is Ok {
        Settlement::Commit
    } else {
        Settlement::Rollback
    }
}

pub fn settlement<T>(outcome: &Result<T, String>) -> (end: Settlement)
    ensures
        end == spec_settlement(*outcome),
{
    match outcome {
        Ok(_) => Settlement::Commit,
        Err(_) => Settlement::Rollback,
    }
}

/// A statement of the unit of work that saves a message.
#[derive(Debug, Clone, Copy, PartialEq, Eq)]
pub enum MessageStatement {
    /// Insert the message.
    Insert,
    /// Tie an attachment to the message.
    Attach(AttachmentMapping),
    /// List the attachments of the message.
    List { post_id: i32 },
}

/// What became of a statement.
#[derive(Debug, PartialEq, Eq)]
pub enum MessageOutcome {
    Inserted(Result<Message, QueryError>),
    Attached(Result<(), QueryError>),
    Listed(Result<Vec<Attachment>, QueryError>),
}

/// Where the saving of a message stands: which statement's outcome it waits
/// for.
#[derive(Debug, Clone, PartialEq, Eq)]
pub enum MessageCreation {
    /// The insertion of the message.
    Inserting { attachments: Vec<i32> },
    /// The mapping of the attachment at `at`.
    Attaching { attachments: Vec<i32>, message: MessageResponse, at: usize },
    /// The listing of the attachments.
    Listing { message: MessageResponse },
}

/// What the host is to do next.
#[derive(Debug, PartialEq, Eq)]
pub enum MessageStep {
    /// Run this statement in the transaction and come back with its outcome.
    Run(MessageStatement, MessageCreation),
    /// End the transaction like this; once that is done, this is the result.
    End(Settlement, Result<MessageResponse, String>),
}

impl MessageCreation {
    /// The start: the message is to be inserted.
    pub fn begin(attachments: Vec<i32>) -> (first: (MessageStatement, MessageCreation))
        ensures
            first.0 == MessageStatement::Insert,
            first.1 == (MessageCreation::Inserting { attachments }),
    {
        (MessageStatement::Insert, MessageCreation::Inserting { attachments })
    }

    /// Whether `outcome` is the outcome of the statement that is waited for.
    pub open spec fn expects(self, outcome: MessageOutcome) -> bool {
        match self {
            MessageCreation::Inserting { .. } => outcome is Inserted,
            MessageCreation::Attaching { .. } => outcome is Attached,
            MessageCreation::Listing { .. } => outcome is Listed,
        }
    }

    /// What follows once the attachments up to `at` are mapped: the mapping
    /// of the next one, or, after the last, the listing.
    pub open spec fn after_mapping(attachments: Vec<i32>, message: MessageResponse, at: int) -> MessageStep {
        if 0 <= at < attachments@.len() {
            MessageStep::Run(
                MessageStatement::Attach(
                    AttachmentMapping { post_id: message.id, attachment_id: attachments@[at] },
                ),
                MessageCreation::Attaching { attachments, message, at: at as usize },
            )
        } else {
            MessageStep::Run(
                MessageStatement::List { post_id: message.id },
                MessageCreation::Listing { message },
            )
        }
    }

    fn attach_from(attachments: Vec<i32>, message: MessageResponse, at: usize) -> (next: MessageStep)
        ensures
            next == Self::after_mapping(attachments, message, at as int),
    {
        if at < attachments.len() {
            let mapping = AttachmentMapping { post_id: message.id, attachment_id: attachments[at] };
            MessageStep::Run(
                MessageStatement::Attach(mapping),
                MessageCreation::Attaching { attachments, message, at },
            )
        } else {
            MessageStep::Run(
                MessageStatement::List { post_id: message.id },
                MessageCreation::Listing { message },
            )
        }
    }

    /// Takes the outcome of the statement that was asked for and says what
    /// is next.
    ///
    /// The message is inserted first. If it has attachments, each is mapped
    /// to it, in their order, and then they are listed for the names of
    /// their files. A statement that fails ends the work with a rollback; a
    /// row that lacks what the response needs ends it by leaving the
    /// transaction. Only where everything succeeded is the transaction
    /// committed, and only then is there a message to return. An outcome of
    /// another statement than the one waited for ends the work with a
    /// rollback as well.
    pub fn step(self, outcome: MessageOutcome) -> (next: MessageStep)
        ensures
            next matches MessageStep::End(end, result) ==> (result is Ok <==> end
                == Settlement::Commit),
            !self.expects(outcome) ==> (next matches MessageStep::End(
                Settlement::Rollback,
                Err(e),
            ) && e@ == "The outcome is not that of the statement that was asked for."@),
            match (self, outcome) {
                (MessageCreation::Inserting { attachments }, MessageOutcome::Inserted(fetched)) => {
                    match spec_required(fetched) {
                        Ok(row) => if MessageResponse::try_from_ok(row) {
                            if attachments@.len() == 0 {
                                next matches MessageStep::End(Settlement::Commit, Ok(message))
                                    && message.reflects(row)
                            } else {
                                exists|message: MessageResponse| #[trigger]
                                    message.reflects(row) && next == Self::after_mapping(
                                        attachments,
                                        message,
                                        0,
                                    )
                            }
                        } else {
                            next matches MessageStep::End(Settlement::Leave, Err(e)) && e@
                                == MessageResponse::try_from_err(row)
                        },
                        Err(message) => next == MessageStep::End(
                            Settlement::Rollback,
                            Err(message),
                        ),
                    }
                },
                (
                    MessageCreation::Attaching { attachments, message, at },
                    MessageOutcome::Attached(executed),
                ) => match executed {
                    Ok(_) => next == if at < attachments@.len() {
                        Self::after_mapping(attachments, message, at + 1)
                    } else {
                        Self::after_mapping(attachments, message, at as int)
                    },
                    Err(e) => next == MessageStep::End(Settlement::Rollback, Err(e.message)),
                },
                (MessageCreation::Listing { message }, MessageOutcome::Listed(fetched)) => {
                    match fetched {
                        Ok(rows) => if forall|i: int|
                            0 <= i < rows@.len() ==> (#[trigger] rows@[i]).file_name is Some {
                            next matches MessageStep::End(Settlement::Commit, Ok(out)) && out
                                == (MessageResponse { attachments: out.attachments, ..message })
                                && out.attachments@.len() == rows@.len() && forall|i: int|
                                0 <= i < rows@.len() ==> (#[trigger] rows@[i]).file_name == Some(
                                    out.attachments@[i],
                                )
                        } else {
                            next matches MessageStep::End(Settlement::Leave, Err(e)) && e@
                                == "Unable to get file name when submitting message with attachments."@
                        },
                        Err(e) => if e.row_not_found {
                            next matches MessageStep::End(Settlement::Commit, Ok(out)) && out
                                == (MessageResponse { attachments: out.attachments, ..message })
                                && out.attachments@.len() == 0
                        } else {
                            next == MessageStep::End(Settlement::Leave, Err(e.message))
                        },
                    }
                },
                _ => true,
            },
    {
        let rules = DatabaseConnection::new();
        match (self, outcome) {
            (MessageCreation::Inserting { attachments }, MessageOutcome::Inserted(fetched)) => {
                match rules.message_inserted(fetched) {
                    Ok(message) => {
                        if attachments.len() == 0 {
                            MessageStep::End(Settlement::Commit, Ok(message))
                        } else {
                            Self::attach_from(attachments, message, 0)
                        }
                    },
                    Err(end) => MessageStep::End(end.0, Err(end.1)),
                }
            },
            (
                MessageCreation::Attaching { attachments, message, at },
                MessageOutcome::Attached(executed),
            ) => {
                match rules.attachment.create_message_attachment_mapping(executed) {
                    Ok(_) => {
                        if at < attachments.len() {
                            Self::attach_from(attachments, message, at + 1)
                        } else {
                            Self::attach_from(attachments, message, at)
                        }
                    },
                    Err(e) => MessageStep::End(Settlement::Rollback, Err(e)),
                }
            },
            (MessageCreation::Listing { message }, MessageOutcome::Listed(fetched)) => {
                match rules.create_message(message, fetched) {
                    Ok(out) => MessageStep::End(Settlement::Commit, Ok(out)),
                    Err(e) => MessageStep::End(Settlement::Leave, Err(e)),
                }
            },
            _ => MessageStep::End(
                Settlement::Rollback,
                failure("The outcome is not that of the statement that was asked for."),
            ),
        }
    }
}

/// A statement of the unit of work that creates a guild.
#[derive(Debug, Clone, Copy, PartialEq, Eq)]
pub enum GuildStatement {
    /// Insert the guild.
    Insert,
    /// Make the owner the first member of the guild.
    AddOwner { membership: CreateMemberRequest, adder_id: i32 },
}

/// What became of a statement.
#[derive(Debug, PartialEq, Eq)]
pub enum GuildOutcome {
    Inserted(Result<Guild, QueryError>),
    Added(Result<Member, QueryError>),
}

/// Where the creation of a guild stands: which statement's outcome it waits
/// for.
#[derive(Debug, Clone, PartialEq, Eq)]
pub enum GuildCreation {
    /// The insertion of the guild.
    Inserting,
    /// The membership of the owner of `guild`.
    Adding { guild: Guild },
}

/// What the host is to do next.
#[derive(Debug, PartialEq, Eq)]
pub enum GuildStep {
    /// Run this statement in the transaction and come back with its outcome.
    Run(GuildStatement, GuildCreation),
    /// End the transaction like this; once that is done, this is the result.
    End(Settlement, Result<CreateGuildResponse, String>),
}

impl GuildCreation {
    /// The start: the guild is to be inserted.
    pub fn begin() -> (first: (GuildStatement, GuildCreation))
        ensures
            first == (GuildStatement::Insert, GuildCreation::Inserting),
    {
        (GuildStatement::Insert, GuildCreation::Inserting)
    }

    /// Whether `outcome` is the outcome of the statement that is waited for.
    pub open spec fn expects(self, outcome: GuildOutcome) -> bool {
        match self {
            GuildCreation::Inserting => outcome is Inserted,
            GuildCreation::Adding { .. } => outcome is Added,
        }
    }

    /// A guild that was inserted has an id and an owner.
    pub open spec fn is_owned(outcome: GuildOutcome) -> bool {
        outcome matches GuildOutcome::Inserted(Ok(guild)) ==> guild.id is Some && guild.owner_id
            is Some
    }

    /// Takes the outcome of the statement that was asked for and says what
    /// is next.
    ///
    /// The guild is inserted, then its owner is made a member of it, by the
    /// owner. A statement that fails ends the work with a rollback. Once
    /// both succeeded the transaction is committed, and the guild is
    /// returned if its row holds what the response needs. An outcome of
    /// another statement than the one waited for ends the work with a
    /// rollback as well.
    pub fn step(self, outcome: GuildOutcome) -> (next: GuildStep)
        requires
            Self::is_owned(outcome),
        ensures
            !self.expects(outcome) ==> (next matches GuildStep::End(Settlement::Rollback, Err(e))
                && e@ == "The outcome is not that of the statement that was asked for."@),
            match (self, outcome) {
                (GuildCreation::Inserting, GuildOutcome::Inserted(fetched)) => match fetched {
                    Ok(guild) => next matches GuildStep::Run(
                        GuildStatement::AddOwner { membership, adder_id },
                        GuildCreation::Adding { guild: kept },
                    ) && kept == guild && guild.id == Some(membership.guild_id) && guild.owner_id
                        == Some(membership.user_id) && adder_id == membership.user_id,
                    Err(e) => next == GuildStep::End(Settlement::Rollback, Err(e.message)),
                },
                (GuildCreation::Adding { guild }, GuildOutcome::Added(fetched)) => match fetched {
                    Ok(_) => {
                        &&& next matches GuildStep::End(Settlement::Commit, result)
                        &&& result is Ok <==> CreateGuildResponse::try_from_ok(guild)
                        &&& result matches Ok(out) ==> out.reflects(guild)
                        &&& result matches Err(e) ==> e@ == CreateGuildResponse::try_from_err(
                            guild,
                        )
                    },
                    Err(e) => next == GuildStep::End(Settlement::Rollback, Err(e.message)),
                },
                _ => true,
            },
    {
        let rules = DatabaseConnection::new();
        match (self, outcome) {
            (GuildCreation::Inserting, GuildOutcome::Inserted(fetched)) => {
                match rules.guild.insert(fetched) {
                    Ok(guild) => {
                        let (membership, adder_id) = DatabaseConnection::owner_membership(&guild);
                        GuildStep::Run(
                            GuildStatement::AddOwner { membership, adder_id },
                            GuildCreation::Adding { guild },
                        )
                    },
                    Err(e) => GuildStep::End(Settlement::Rollback, Err(e)),
                }
            },
            (GuildCreation::Adding { guild }, GuildOutcome::Added(fetched)) => {
                match rules.member.add_user_to_guild(fetched) {
                    Ok(_) => GuildStep::End(Settlement::Commit, rules.create_guild(guild)),
                    Err(e) => GuildStep::End(Settlement::Rollback, Err(e)),
                }
            },
            _ => GuildStep::End(
                Settlement::Rollback,
                failure("The outcome is not that of the statement that was asked for."),
            ),
        }
    }
}

/// A statement of the unit of work that creates a role.
#[derive(Debug, Clone, Copy, PartialEq, Eq)]
pub enum RoleStatement {
    /// Insert the role.
    Create,
    /// Store an intent for the role.
    AddIntent { role_id: i32, code: i32 },
}

/// What became of a statement.
#[derive(Debug, PartialEq, Eq)]
pub enum RoleOutcome {
    Created(Result<Role, QueryError>),
    Added(Result<Intent, QueryError>),
}

/// Where the creation of a role stands: which statement's outcome it waits
/// for.
#[derive(Debug, Clone, PartialEq, Eq)]
pub enum RoleCreation {
    /// The insertion of the role. Its intents have the numbers `codes`.
    Creating { codes: Vec<i32> },
    /// The intent at `at`; those before it are stored as `intents`.
    Adding { role: Role, codes: Vec<i32>, intents: Vec<Intent>, at: usize },
}

/// What the host is to do next.
#[derive(Debug, PartialEq, Eq)]
pub enum RoleStep {
    /// Run this statement in the transaction and come back with its outcome.
    Run(RoleStatement, RoleCreation),
    /// End the transaction like this; once that is done, this is the result.
    End(Settlement, Result<Option<RoleResult>, String>),
}

impl RoleCreation {
    /// The start: the role is to be inserted.
    pub fn begin(intents: &Vec<IntentValue>) -> (first: (RoleStatement, RoleCreation))
        ensures
            first.0 == RoleStatement::Create,
            first.1 matches RoleCreation::Creating { codes } && codes@.len() == intents@.len()
                && forall|i: int|
                0 <= i < intents@.len() ==> #[trigger] codes@[i] == intents@[i].spec_code(),
    {
        (RoleStatement::Create, RoleCreation::Creating { codes: intent_codes(intents) })
    }

    /// Whether `outcome` is the outcome of the statement that is waited for.
    pub open spec fn expects(self, outcome: RoleOutcome) -> bool {
        match self {
            RoleCreation::Creating { .. } => outcome is Created,
            RoleCreation::Adding { .. } => outcome is Added,
        }
    }

    /// A role that was inserted has an id.
    pub open spec fn is_known(outcome: RoleOutcome) -> bool {
        outcome matches RoleOutcome::Created(Ok(role)) ==> role.id is Some
    }

    /// Whether `step` is what follows once the intents before `at` are
    /// stored as `stored`: the storing of the intent at `at`, or, after the
    /// last, the end with the role and its intents. The end leaves the
    /// transaction as it is.
    pub open spec fn continues(
        step: RoleStep,
        role: Role,
        codes: Vec<i32>,
        stored: Seq<Intent>,
        at: int,
    ) -> bool {
        if 0 <= at < codes@.len() {
            &&& step matches RoleStep::Run(
                RoleStatement::AddIntent { role_id, code },
                RoleCreation::Adding { role: kept, codes: left, intents, at: next },
            )
            &&& role.id == Some(role_id)
            &&& code == codes@[at]
            &&& kept == role
            &&& left == codes
            &&& intents@ == stored
            &&& next == at
        } else {
            &&& step matches RoleStep::End(Settlement::Leave, Ok(Some(result)))
            &&& result.id == role.id
            &&& result.name == role.name
            &&& result.guild_id == role.guild_id
            &&& result.intents@ == stored
            &&& result.created_date == role.created_date
            &&& result.updated_date == role.updated_date
        }
    }

    fn add_from(role: Role, codes: Vec<i32>, intents: Vec<Intent>, at: usize) -> (next: RoleStep)
        requires
            role.id is Some,
        ensures
            Self::continues(next, role, codes, intents@, at as int),
    {
        if at < codes.len() {
            let role_id = match role.id {
                Some(id) => id,
                None => 0,
            };
            RoleStep::Run(
                RoleStatement::AddIntent { role_id, code: codes[at] },
                RoleCreation::Adding { role, codes, intents, at },
            )
        } else {
            RoleStep::End(
                Settlement::Leave,
                Ok(DatabaseConnection::new().create_guild_role(role, intents)),
            )
        }
    }

    /// Takes the outcome of the statement that was asked for and says what
    /// is next.
    ///
    /// The role is inserted, then each of its intents is stored, in their
    /// order. A statement that fails ends the work with a rollback. Once
    /// all succeeded the role is returned with the intents as they were
    /// stored. An outcome of another statement than the one waited for ends
    /// the work with a rollback as well.
    pub fn step(self, outcome: RoleOutcome) -> (next: RoleStep)
        requires
            Self::is_known(outcome),
            self matches RoleCreation::Adding { role, .. } ==> role.id is Some,
        ensures
            !self.expects(outcome) ==> (next matches RoleStep::End(Settlement::Rollback, Err(e))
                && e@ == "The outcome is not that of the statement that was asked for."@),
            match (self, outcome) {
                (RoleCreation::Creating { codes }, RoleOutcome::Created(fetched)) => match fetched {
                    Ok(role) => Self::continues(next, role, codes, Seq::empty(), 0),
                    Err(e) => next == RoleStep::End(Settlement::Rollback, Err(e.message)),
                },
                (
                    RoleCreation::Adding { role, codes, intents, at },
                    RoleOutcome::Added(fetched),
                ) => match fetched {
                    Ok(intent) => Self::continues(
                        next,
                        role,
                        codes,
                        intents@.push(intent),
                        if at < codes@.len() {
                            at + 1
                        } else {
                            at as int
                        },
                    ),
                    Err(e) => next == RoleStep::End(Settlement::Rollback, Err(e.message)),
                },
                _ => true,
            },
            next matches RoleStep::Run(_, RoleCreation::Adding { role, .. }) ==> role.id is Some,
    {
        let rules = DatabaseConnection::new();
        match (self, outcome) {
            (RoleCreation::Creating { codes }, RoleOutcome::Created(fetched)) => {
                match rules.role.create_role(fetched) {
                    Ok(role) => Self::add_from(role, codes, Vec::new(), 0),
                    Err(e) => RoleStep::End(Settlement::Rollback, Err(e)),
                }
            },
            (RoleCreation::Adding { role, codes, intents, at }, RoleOutcome::Added(fetched)) => {
                match rules.role.add_row_intent(fetched) {
                    Ok(intent) => {
                        let mut intents = intents;
                        intents.push(intent);
                        if at < codes.len() {
                            Self::add_from(role, codes, intents, at + 1)
                        } else {
                            Self::add_from(role, codes, intents, at)
                        }
                    },
                    Err(e) => RoleStep::End(Settlement::Rollback, Err(e)),
                }
            },
            _ => RoleStep::End(
                Settlement::Rollback,
                failure("The outcome is not that of the statement that was asked for."),
            ),
        }
    }
}

/// The store's rules, by unit of work.
#[derive(Debug, Clone, Copy, PartialEq, Eq)]
pub struct DatabaseConnection {
    auth: AuthRepository,
    channel: ChannelRepository,
    guild: GuildRepository,
    member: MemberRepository,
    role: RoleRepository,
    message: MessageRepository,
    attachment: AttachmentsRepository,
}

impl DatabaseConnection {
    pub fn new() -> Self {
        DatabaseConnection {
            auth: AuthRepository {  },
            channel: ChannelRepository {  },
            guild: GuildRepository {  },
            member: MemberRepository {  },
            role: RoleRepository {  },
            message: MessageRepository {  },
            attachment: AttachmentsRepository {  },
        }
    }

    pub fn register_user(&self, fetched: Result<AuthUser, QueryError>) -> (r: Result<
        AuthUser,
        String,
    >)
        ensures
            r == spec_required(fetched),
    {
        self.auth.insert(fetched)
    }

    /// The user that signs in, if the name is known.
    pub fn login(&self, fetched: Result<AuthUser, QueryError>) -> (out: (
        Settlement,
        Result<Option<AuthUser>, String>,
    ))
        ensures
            out.1 == spec_found(fetched),
            out.0 == spec_settlement(out.1),
    {
        let outcome = self.auth.find(fetched);
        (settlement(&outcome), outcome)
    }

    /// The user behind a connection's credentials. Credentials that match
    /// no user are a failure.
    pub fn websocket_login(&self, fetched: Result<AuthUser, QueryError>) -> (out: (
        Settlement,
        Result<AuthUserResponse, String>,
    ))
        ensures
            match spec_found(fetched) {
                Ok(Some(user)) => {
                    &&& out.0 == Settlement::Commit
                    &&& out.1 is Ok <==> AuthUserResponse::try_from_ok(user)
                    &&& out.1 matches Ok(response) ==> response.reflects(user)
                    &&& out.1 matches Err(e) ==> e@ == AuthUserResponse::try_from_err(user)
                },
                Ok(None) => {
                    &&& out.0 == Settlement::Rollback
                    &&& out.1 matches Err(e) && e@ == "User not found"@
                },
                Err(message) => {
                    &&& out.0 == Settlement::Rollback
                    &&& out.1 == Err::<AuthUserResponse, String>(message)
                },
            },
    {
        match self.auth.find_websocket(fetched) {
            Ok(Some(user)) => {
                let converted = match AuthUserResponse::try_from(user) {
                    Ok(response) => Ok(response),
                    Err(e) => failure(e),
                };
                (Settlement::Commit, converted)
            },
            Ok(None) => (Settlement::Rollback, failure("User not found")),
            Err(message) => (Settlement::Rollback, Err(message)),
        }
    }

    /// The user with its new tokens, if the old refresh token was the
    /// user's.
    pub fn refresh_auth_token(&self, fetched: Result<AuthUser, QueryError>) -> (out: (
        Settlement,
        Result<Option<AuthUser>, String>,
    ))
        ensures
            out.1 == spec_found(fetched),
            out.0 == spec_settlement(out.1),
    {
        let outcome = self.auth.update_refresh_token(fetched);
        (settlement(&outcome), outcome)
    }

    /// The guilds that a user has joined, each still without its channels.
    pub fn find_joined_guild(&self, fetched: Result<Vec<Guild>, QueryError>) -> (r: Result<
        Option<Vec<CreateGuildResponse>>,
        String,
    >)
        ensures
            Self::listed(spec_found(fetched), r),
    {
        Self::guild_list(self.guild.find_guilds(fetched))
    }

    /// The guilds that a user owns, each still without its channels.
    pub fn find_owned_guilds(&self, fetched: Result<Vec<Guild>, QueryError>) -> (r: Result<
        Option<Vec<CreateGuildResponse>>,
        String,
    >)
        ensures
            Self::listed(spec_found(fetched), r),
    {
        Self::guild_list(self.guild.find_owner_guilds(fetched))
    }

    /// Whether `r` is the list of responses for the guilds `rows`.
    pub open spec fn listed(
        rows: Result<Option<Vec<Guild>>, String>,
        r: Result<Option<Vec<CreateGuildResponse>>, String>,
    ) -> bool {
        match rows {
            Ok(Some(guilds)) => {
                &&& r is Ok <==> forall|i: int|
                    0 <= i < guilds@.len() ==> CreateGuildResponse::try_from_ok(
                        #[trigger] guilds@[i],
                    )
                &&& r matches Ok(list) ==> list matches Some(out) && out@.len() == guilds@.len()
                    && forall|i: int|
                    0 <= i < guilds@.len() ==> (#[trigger] out@[i]).reflects(guilds@[i])
                &&& r matches Err(e) ==> exists|k: int|
                    0 <= k < guilds@.len() && e@ == CreateGuildResponse::try_from_err(
                        #[trigger] guilds@[k],
                    ) && !CreateGuildResponse::try_from_ok(guilds@[k]) && forall|j: int|
                        0 <= j < k ==> CreateGuildResponse::try_from_ok(#[trigger] guilds@[j])
            },
            Ok(None) => r == Ok::<Option<Vec<CreateGuildResponse>>, String>(None),
            Err(message) => r == Err::<Option<Vec<CreateGuildResponse>>, String>(message),
        }
    }

    fn guild_list(rows: Result<Option<Vec<Guild>>, String>) -> (r: Result<
        Option<Vec<CreateGuildResponse>>,
        String,
    >)
        ensures
            Self::listed(rows, r),
    {
        match rows {
            Ok(Some(guilds)) => match guild_responses(guilds) {
                Ok(out) => Ok(Some(out)),
                Err(e) => failure(e),
            },
            Ok(None) => Ok(None),
            Err(message) => Err(message),
        }
    }

    /// A listed guild with its channels: those that were found, or none.
    /// Where looking for them failed, the failure is passed on without its
    /// words.
    pub fn listed_guild_channels(
        guild: CreateGuildResponse,
        channels: Result<Option<Vec<CreateChannelResponse>>, String>,
    ) -> (r: Result<CreateGuildResponse, String>)
        ensures
            match channels {
                Ok(Some(found)) => r == Ok::<CreateGuildResponse, String>(
                    CreateGuildResponse { channels: found, ..guild },
                ),
                Ok(None) => r matches Ok(out) && out.channels@.len() == 0 && out
                    == (CreateGuildResponse { channels: out.channels, ..guild }),
                Err(_) => r matches Err(e) && e@.len() == 0,
            },
    {
        match channels {
            Ok(Some(found)) => Ok(Self::put_channels(guild, found)),
            Ok(None) => Ok(Self::put_channels(guild, Vec::new())),
            Err(_) => Err(String::new()),
        }
    }

    /// A guild with its channels: those that were found, or none. Where
    /// looking for them failed, the failure is passed on.
    pub fn guild_channels(
        guild: CreateGuildResponse,
        channels: Result<Option<Vec<CreateChannelResponse>>, String>,
    ) -> (r: Result<CreateGuildResponse, String>)
        ensures
            match channels {
                Ok(Some(found)) => r == Ok::<CreateGuildResponse, String>(
                    CreateGuildResponse { channels: found, ..guild },
                ),
                Ok(None) => r matches Ok(out) && out.channels@.len() == 0 && out
                    == (CreateGuildResponse { channels: out.channels, ..guild }),
                Err(message) => r == Err::<CreateGuildResponse, String>(message),
            },
    {
        match channels {
            Ok(Some(found)) => Ok(Self::put_channels(guild, found)),
            Ok(None) => Ok(Self::put_channels(guild, Vec::new())),
            Err(message) => Err(message),
        }
    }

    fn put_channels(guild: CreateGuildResponse, channels: Vec<CreateChannelResponse>) -> (out:
        CreateGuildResponse)
        ensures
            out == (CreateGuildResponse { channels, ..guild }),
    {
        CreateGuildResponse {
            id: guild.id,
            name: guild.name,
            description: guild.description,
            owner_id: guild.owner_id,
            channels,
            created_date: guild.created_date,
            updated_date: guild.updated_date,
        }
    }

    /// The guild with this id, still without its channels, if the user is a
    /// member of it.
    pub fn find_guild_by_id(&self, fetched: Result<Guild, QueryError>) -> (r: Result<
        Option<CreateGuildResponse>,
        String,
    >)
        ensures
            match spec_found(fetched) {
                Ok(Some(guild)) => {
                    &&& r is Ok <==> CreateGuildResponse::try_from_ok(guild)
                    &&& r matches Ok(found) ==> found matches Some(out) && out.reflects(guild)
                    &&& r matches Err(e) ==> e@ == CreateGuildResponse::try_from_err(guild)
                },
                Ok(None) => r == Ok::<Option<CreateGuildResponse>, String>(None),
                Err(message) => r == Err::<Option<CreateGuildResponse>, String>(message),
            },
    {
        match self.guild.find_by_id(fetched) {
            Ok(Some(guild)) => match CreateGuildResponse::try_from(guild) {
                Ok(out) => Ok(Some(out)),
                Err(e) => failure(e),
            },
            Ok(None) => Ok(None),
            Err(message) => Err(message),
        }
    }

    /// The membership that makes the owner of a new guild its first member,
    /// and who adds it: the owner.
    pub fn owner_membership(guild: &Guild) -> (out: (CreateMemberRequest, i32))
        requires
            guild.id is Some,
            guild.owner_id is Some,
        ensures
            guild.id == Some(out.0.guild_id),
            guild.owner_id == Some(out.0.user_id),
            out.1 == out.0.user_id,
    {
        let guild_id = match guild.id {
            Some(id) => id,
            None => 0,
        };
        let owner_id = match guild.owner_id {
            Some(id) => id,
            None => 0,
        };
        (CreateMemberRequest { user_id: owner_id, guild_id }, owner_id)
    }

    /// The response for a guild that was created, once its owner is a
    /// member and the transaction is committed.
    pub fn create_guild(&self, guild: Guild) -> (r: Result<CreateGuildResponse, String>)
        ensures
            r is Ok <==> CreateGuildResponse::try_from_ok(guild),
            r matches Ok(out) ==> out.reflects(guild),
            r matches Err(e) ==> e@ == CreateGuildResponse::try_from_err(guild),
    {
        match CreateGuildResponse::try_from(guild) {
            Ok(out) => Ok(out),
            Err(e) => failure(e),
        }
    }

    /// The channels of a guild, for a member of it.
    pub fn find_guild_channels(&self, fetched: Result<Vec<Channel>, QueryError>) -> (r: Result<
        Option<Vec<CreateChannelResponse>>,
        String,
    >)
        ensures
            match spec_found(fetched) {
                Ok(Some(rows)) => {
                    &&& r is Ok <==> forall|i: int|
                        0 <= i < rows@.len() ==> CreateChannelResponse::try_from_ok(
                            #[trigger] rows@[i],
                        )
                    &&& r matches Ok(list) ==> list matches Some(out) && out@.len() == rows@.len()
                        && forall|i: int|
                        0 <= i < rows@.len() ==> (#[trigger] out@[i]).reflects(rows@[i])
                    &&& r matches Err(e) ==> exists|k: int|
                        0 <= k < rows@.len() && e@ == CreateChannelResponse::try_from_err(
                            #[trigger] rows@[k],
                        ) && !CreateChannelResponse::try_from_ok(rows@[k])
                },
                Ok(None) => r == Ok::<Option<Vec<CreateChannelResponse>>, String>(None),
                Err(message) => r == Err::<Option<Vec<CreateChannelResponse>>, String>(message),
            },
    {
        match self.channel.find_guild_channels(fetched) {
            Ok(Some(rows)) => match channel_responses(rows) {
                Ok(out) => Ok(Some(out)),
                Err(e) => failure(e),
            },
            Ok(None) => Ok(None),
            Err(message) => Err(message),
        }
    }

    /// Whether `r` is the response for the channel that `row` may hold.
    pub open spec fn channel_found(
        row: Result<Option<Channel>, String>,
        r: Result<Option<CreateChannelResponse>, String>,
    ) -> bool {
        match row {
            Ok(Some(channel)) => {
                &&& r is Ok <==> CreateChannelResponse::try_from_ok(channel)
                &&& r matches Ok(found) ==> found matches Some(out) && out.reflects(channel)
                &&& r matches Err(e) ==> e@ == CreateChannelResponse::try_from_err(channel)
            },
            Ok(None) => r == Ok::<Option<CreateChannelResponse>, String>(None),
            Err(message) => r == Err::<Option<CreateChannelResponse>, String>(message),
        }
    }

    fn channel_response(row: Result<Option<Channel>, String>) -> (r: Result<
        Option<CreateChannelResponse>,
        String,
    >)
        ensures
            Self::channel_found(row, r),
    {
        match row {
            Ok(Some(channel)) => match CreateChannelResponse::try_from(channel) {
                Ok(out) => Ok(Some(out)),
                Err(e) => failure(e),
            },
            Ok(None) => Ok(None),
            Err(message) => Err(message),
        }
    }

    /// One channel of a guild, for a member of it.
    pub fn find_channel(&self, fetched: Result<Channel, QueryError>) -> (r: Result<
        Option<CreateChannelResponse>,
        String,
    >)
        ensures
            Self::channel_found(spec_found(fetched), r),
    {
        Self::channel_response(self.channel.find_channel(fetched))
    }

    /// The channel that a member created in a guild; none if the user is no
    /// member of it. The transaction is committed unless the statement or
    /// the conversion failed.
    pub fn create_guild_channel(&self, fetched: Result<Channel, QueryError>) -> (out: (
        Settlement,
        Result<Option<CreateChannelResponse>, String>,
    ))
        ensures
            Self::channel_found(spec_found(fetched), out.1),
            out.0 == spec_settlement(out.1),
    {
        let outcome = Self::channel_response(self.channel.insert(fetched));
        (settlement(&outcome), outcome)
    }

    /// The membership that was created. The transaction is committed unless
    /// the statement or the conversion failed.
    pub fn create_guild_member(&self, fetched: Result<Member, QueryError>) -> (out: (
        Settlement,
        Result<CreateMemberResponse, String>,
    ))
        ensures
            match spec_required(fetched) {
                Ok(member) => {
                    &&& out.1 is Ok <==> CreateMemberResponse::try_from_ok(member)
                    &&& out.1 matches Ok(response) ==> response.reflects(member)
                    &&& out.1 matches Err(e) ==> e@ == CreateMemberResponse::try_from_err(member)
                },
                Err(message) => out.1 == Err::<CreateMemberResponse, String>(message),
            },
            out.0 == spec_settlement(out.1),
    {
        let outcome = match self.member.add_user_to_guild(fetched) {
            Ok(member) => match CreateMemberResponse::try_from(member) {
                Ok(response) => Ok(response),
                Err(e) => failure(e),
            },
            Err(message) => Err(message),
        };
        (settlement(&outcome), outcome)
    }

    /// The role that was created, with the intents that were stored for it.
    pub fn create_guild_role(&self, role: Role, intents: Vec<Intent>) -> (r: Option<RoleResult>)
        ensures
            r matches Some(out) && out.id == role.id && out.name == role.name && out.guild_id
                == role.guild_id && out.intents == intents && out.created_date
                == role.created_date && out.updated_date == role.updated_date,
    {
        Some(RoleResult::from_parts(role, intents))
    }

    /// What the insertion of a message came to: the response to go on with,
    /// or how the transaction ends and why. A statement that failed rolls the
    /// transaction back; a row that lacks a column leaves it.
    pub fn message_inserted(&self, fetched: Result<Message, QueryError>) -> (r: Result<
        MessageResponse,
        (Settlement, String),
    >)
        ensures
            match spec_required(fetched) {
                Ok(row) => {
                    &&& r is Ok <==> MessageResponse::try_from_ok(row)
                    &&& r matches Ok(response) ==> response.reflects(row)
                    &&& r matches Err(end) ==> end.0 == Settlement::Leave && end.1@
                        == MessageResponse::try_from_err(row)
                },
                Err(message) => r == Err::<MessageResponse, (Settlement, String)>(
                    (Settlement::Rollback, message),
                ),
            },
    {
        match self.message.insert(fetched) {
            Ok(row) => match MessageResponse::try_from(row) {
                Ok(response) => Ok(response),
                Err(e) => Err((Settlement::Leave, String::from_str(e))),
            },
            Err(message) => Err((Settlement::Rollback, message)),
        }
    }

    /// What the listing of a new message's attachments came to: the message
    /// with the names of their files, or why not. Either failure leaves the
    /// transaction.
    pub fn create_message(
        &self,
        message: MessageResponse,
        fetched: Result<Vec<Attachment>, QueryError>,
    ) -> (r: Result<MessageResponse, String>)
        ensures
            match fetched {
                Ok(rows) => {
                    &&& r is Ok <==> forall|i: int|
                        0 <= i < rows@.len() ==> (#[trigger] rows@[i]).file_name is Some
                    &&& r matches Ok(out) ==> out == (MessageResponse {
                        attachments: out.attachments,
                        ..message
                    }) && out.attachments@.len() == rows@.len() && forall|i: int|
                        0 <= i < rows@.len() ==> (#[trigger] rows@[i]).file_name == Some(
                            out.attachments@[i],
                        )
                    &&& r matches Err(e) ==> e@
                        == "Unable to get file name when submitting message with attachments."@
                },
                Err(e) => if e.row_not_found {
                    r matches Ok(out) && out == (MessageResponse {
                        attachments: out.attachments,
                        ..message
                    }) && out.attachments@.len() == 0
                } else {
                    r == Err::<MessageResponse, String>(e.message)
                },
            },
    {
        match self.attachment.get_message_attachments(fetched) {
            Ok(rows) => match attachment_names(&rows) {
                Ok(names) => Ok(
                    MessageResponse {
                        id: message.id,
                        author_id: message.author_id,
                        author: message.author,
                        content: message.content,
                        attachments: names,
                        created_date: message.created_date,
                        updated_date: message.updated_date,
                    },
                ),
                Err(e) => failure(e),
            },
            Err(message) => Err(message),
        }
    }

    /// One page of the messages of a channel, for a member of its guild.
    pub fn get_channel_message(&self, fetched: Result<Vec<Message>, QueryError>) -> (r: Result<
        Option<Vec<MessageResponse>>,
        String,
    >)
        ensures
            match spec_found(fetched) {
                Ok(Some(rows)) => {
                    &&& r is Ok <==> forall|i: int|
                        0 <= i < rows@.len() ==> MessageResponse::try_from_ok(#[trigger] rows@[i])
                    &&& r matches Ok(list) ==> list matches Some(out) && out@.len() == rows@.len()
                        && forall|i: int|
                        0 <= i < rows@.len() ==> (#[trigger] out@[i]).reflects(rows@[i])
                    &&& r matches Err(e) ==> exists|k: int|
                        0 <= k < rows@.len() && e@ == MessageResponse::try_from_err(
                            #[trigger] rows@[k],
                        ) && !MessageResponse::try_from_ok(rows@[k])
                },
                Ok(None) => r == Ok::<Option<Vec<MessageResponse>>, String>(None),
                Err(message) => r == Err::<Option<Vec<MessageResponse>>, String>(message),
            },
    {
        match self.message.get_page(fetched) {
            Ok(Some(rows)) => match message_responses(rows) {
                Ok(out) => Ok(Some(out)),
                Err(e) => failure(e),
            },
            Ok(None) => Ok(None),
            Err(message) => Err(message),
        }
    }

    /// The attachment that was stored. The transaction is committed once the
    /// row is there, also where the row then lacks a column; no row is a
    /// failure.
    pub fn create_attachment(&self, fetched: Result<Attachment, QueryError>) -> (out: (
        Settlement,
        Result<Option<AttachmentResponse>, String>,
    ))
        ensures
            match spec_found(fetched) {
                Ok(Some(row)) => {
                    &&& out.0 == Settlement::Commit
                    &&& out.1 is Ok <==> AttachmentResponse::try_from_ok(row)
                    &&& out.1 matches Ok(stored) ==> stored matches Some(response)
                        && response.reflects(Attachment { file_path: None, ..row })
                    &&& out.1 matches Err(e) ==> e@ == AttachmentResponse::try_from_err(row)
                },
                Ok(None) => {
                    &&& out.0 == Settlement::Rollback
                    &&& out.1 matches Err(e) && e@
                        == "An error occurred while trying to create attachment in the database"@
                },
                Err(message) => {
                    &&& out.0 == Settlement::Rollback
                    &&& out.1 == Err::<Option<AttachmentResponse>, String>(message)
                },
            },
    {
        match self.attachment.insert(fetched) {
            Ok(Some(row)) => {
                let converted = match AttachmentResponse::try_from(&row) {
                    Ok(response) => Ok(Some(response)),
                    Err(e) => failure(e),
                };
                (Settlement::Commit, converted)
            },
            Ok(None) => (
                Settlement::Rollback,
                failure("An error occurred while trying to create attachment in the database"),
            ),
            Err(message) => (Settlement::Rollback, Err(message)),
        }
    }

    /// The attachments of a message.
    pub fn get_post_attachment(&self, fetched: Result<Vec<Attachment>, QueryError>) -> (r: Result<
        Vec<AttachmentResponse>,
        String,
    >)
        ensures
            match fetched {
                Ok(rows) => {
                    &&& r is Ok <==> forall|i: int|
                        0 <= i < rows@.len() ==> AttachmentResponse::try_from_ok(
                            #[trigger] rows@[i],
                        )
                    &&& r matches Ok(out) ==> out@.len() == rows@.len() && forall|i: int|
                        0 <= i < rows@.len() ==> (#[trigger] out@[i]).reflects(rows@[i])
                    &&& r matches Err(e) ==> exists|k: int|
                        0 <= k < rows@.len() && e@ == AttachmentResponse::try_from_err(
                            #[trigger] rows@[k],
                        ) && !AttachmentResponse::try_from_ok(rows@[k])
                },
                Err(e) => if e.row_not_found {
                    r matches Ok(out) && out@.len() == 0
                } else {
                    r == Err::<Vec<AttachmentResponse>, String>(e.message)
                },
            },
    {
        match self.attachment.get_message_attachments(fetched) {
            Ok(rows) => match attachment_responses(&rows) {
                Ok(out) => Ok(out),
                Err(e) => failure(e),
            },
            Err(message) => Err(message),
        }
    }
}

} // verus!
