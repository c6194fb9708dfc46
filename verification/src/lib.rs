//! The core of a chat server.
//!
//! Clients hold a connection open and talk over it; what one of them says
//! is saved and sent to all of them. Two parts carry this. The [`broker`]
//! owns the registry of live connections and hands every event to each of
//! them. A [`session`] runs the protocol of one connection: it checks in,
//! answers heartbeats, passes requests on, and leaves when the client
//! does, falls silent or breaks the protocol. What holds of the two over
//! whole runs is stated and proved in [`laws`].
//!
//! Around them stand the records that travel ([`models`], [`protocol`]),
//! the rows of the store and what its answers mean ([`records`],
//! [`repositories`], [`persistence`]), who may pass ([`auth`],
//! [`passwords`]), the names of stored files ([`files`]) and the answers of
//! the endpoints ([`endpoints`]).
//!
//! Nothing here reads, writes or waits. A host does that: it feeds each
//! part what happened and carries out what the part answers.

pub mod auth;
pub mod broker;
pub mod endpoints;
pub mod files;
pub mod laws;
pub mod models;
pub mod passwords;
pub mod persistence;
pub mod protocol;
pub mod records;
pub mod repositories;
pub mod session;
