//! Verified core of a voice-channel mute service: snowflake ids, permission checks, role colours,
//! query and mutation decisions, and the small state machines of the command-line tools.

pub mod ids;
pub mod text;
pub mod model;
pub mod errors;
pub mod cache;
pub mod lookup;
pub mod members;
pub mod permissions;
pub mod colors;
pub mod query;
pub mod auth;
pub mod cli;
pub mod objects;
