//! Core of a repository documentation pipeline: ignore-pattern compilation,
//! filesystem sanitization planning, repository materialization plans, tree
//! rendering commands, a bounded event queue, and the orchestration rules
//! that tie them together.

use vstd::prelude::*;

pub mod auth;
pub mod cli;
pub mod config;
pub mod errors;
pub mod events;
pub mod ignore;
pub mod mailer;
pub mod materialize;
pub mod orchestrator;
pub mod sanitize;
pub mod text;
pub mod token;
pub mod tokens;
pub mod tree;
pub mod users;
pub mod wiki;

verus! {

/// Number of bytes in one megabyte, the unit of the file-size policy.
pub const BYTES_PER_MB: u64 = 1048576;

} // verus!
