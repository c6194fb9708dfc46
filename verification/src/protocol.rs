//! What travels over a connection: the requests a client may send and the
//! events the server sends back.

use crate::models::{
    CreateChannelRequest, CreateGuildRequest, CreateMessageRequest, MessageResponse, Timestamp,
};
use vstd::prelude::*;
use vstd::string::StringExecFns;

verus! {

#[derive(Debug, Clone, PartialEq, Eq)]
pub struct Notification {
    pub from: String,
    pub message: String,
    pub create_date: Timestamp,
}

/// The payload of a client's request.
#[derive(Debug, Clone, PartialEq, Eq)]
pub enum WebsocketMessageData {
    Channel(CreateChannelRequest),
    Guild(CreateGuildRequest),
    Message(CreateMessageRequest),
    Notification(Notification),
    Ack(String),
}

/// A decoded text frame from a client: a request, or a heartbeat.
#[derive(Debug, Clone, PartialEq, Eq)]
pub enum WebsocketMessage {
    Data(WebsocketMessageData),
    Ping(String),
}

/// A request in its envelope.
#[derive(Debug, Clone, PartialEq, Eq)]
pub struct WebSocketMessage {
    pub data: WebsocketMessageData,
}

/// An event sent to a client: a chat message, or a line of acknowledgment.
#[derive(Debug, Clone, PartialEq, Eq)]
pub enum WebsocketResponseData {
    Message(MessageResponse),
    Ack(String),
}

impl WebsocketMessageData {
    /// Whether this is the acknowledgment that reads `text`.
    pub open spec fn is_ack(&self, text: Seq<char>) -> bool {
        self matches WebsocketMessageData::Ack(s) && s@ == text
    }
}

impl WebsocketMessage {
    /// Whether this is a request carrying the acknowledgment that reads `text`.
    pub open spec fn is_ack(&self, text: Seq<char>) -> bool {
        self matches WebsocketMessage::Data(d) && d.is_ack(text)
    }

    /// What a client is told when its request could not be carried out.
    pub fn failure() -> (notice: Self)
        ensures
            notice.is_ack("An error occurred while processing your request"@),
    {
        WebsocketMessage::Data(
            WebsocketMessageData::Ack(
                String::from_str("An error occurred while processing your request"),
            ),
        )
    }
}

impl WebsocketResponseData {
    /// Whether this is the acknowledgment that reads `text`.
    pub open spec fn is_ack(&self, text: Seq<char>) -> bool {
        self matches WebsocketResponseData::Ack(s) && s@ == text
    }

    /// The acknowledgment that reads `text`.
    pub fn ack(text: &str) -> (event: Self)
        ensures
            event.is_ack(text@),
    {
        WebsocketResponseData::Ack(String::from_str(text))
    }

    /// The bare acknowledgment of a request that is accepted and not acted on.
    pub fn received() -> (event: Self)
        ensures
            event.is_ack("Ack"@),
    {
        Self::ack("Ack")
    }

    /// The notice that goes out when a connection is registered.
    pub fn joined() -> (event: Self)
        ensures
            event.is_ack("Someone has joined"@),
    {
        Self::ack("Someone has joined")
    }

    /// The notice that goes out when a connection is removed.
    pub fn left() -> (event: Self)
        ensures
            event.is_ack("User Removed"@),
    {
        Self::ack("User Removed")
    }
}

} // verus!
