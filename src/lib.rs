//! Configuration reconciliation and gateway supervision for a local agent runtime.
//!
//! - `json`: the document value, its mathematical model, and keyed reads and writes.
//! - `secret`: which gateway token a reconciliation pass settles on.
//! - `config`: merging desired settings into the persisted configuration, and
//!   restoring it after the service's installer rewrote it.
//! - `profiles`: the credential document, one profile per provider.
//! - `configure`: both documents and the workspace notes for one configuration.
//! - `gateway`: the install, start and probe state machine.
//! - `pairing`: reading the service's reply to a pairing approval.
//! - `logtail`: the position of a log follower.
//! - `shell`: the text reported for a failed service command.
//! - `text`, `error`: text helpers and the failures reported to callers.

pub mod json;
pub mod secret;
pub mod error;
pub mod config;
pub mod profiles;
pub mod text;
pub mod pairing;
pub mod gateway;
pub mod logtail;
pub mod configure;
pub mod shell;
