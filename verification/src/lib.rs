//! Core of a federated Matrix homeserver: the decisions of the membership
//! engine, the outbound federation sender, state lowering around state
//! resolution, and schema migrations, each with a machine-checked contract.
//!
//! The functions here never perform I/O. Where the server has to read the
//! database, wait, or talk to a peer, the caller does so and hands the result
//! in as a plain value.

pub mod assoc;
pub mod config;
pub mod error;
pub mod ids;
pub mod json;
pub mod membership;
pub mod migrations;
pub mod pdu;
pub mod room_version;
pub mod sending;
pub mod signing;
pub mod state;
pub mod text;
