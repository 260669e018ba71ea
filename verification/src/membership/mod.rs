//! The membership engine: the decisions behind join, leave, invite, kick,
//! ban, unban and forget.

pub mod content;
pub mod policy;
pub mod servers;
pub mod make_join;
pub mod validate;
pub mod join_event;
pub mod import;
pub mod join;
pub mod remote_join;
pub mod invite;
pub mod leave;
pub mod local_join;
