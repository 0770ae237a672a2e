//! The trust decisions of a launcher that runs a command under another
//! identity: who the caller is, whether a recent session or a fresh
//! authentication vouches for them, and which program they may run.

use vstd::prelude::*;

pub mod auth;
pub mod osutils;
pub mod session;
pub mod settings;
pub mod text;

verus! {

/// Where the administrator keeps the configuration.
pub const CONFIG_PATH: &'static str = "/etc/rudo.json";

/// The prompt of a configuration that names none.
pub const DEFAULT_PROMPT: &'static str = "Password: ";

/// The directory under which session records are kept, one subdirectory per user.
pub const SESSION_PATH: &'static str = "/var/run/rudo";

/// How long a session lasts, in seconds, in a configuration that says nothing else.
pub const DEFAULT_SESSION_TIMEOUT: i64 = 900;

/// How many tries the caller gets with a framework that sets no ceiling of its own.
pub const MAX_TRIES: i32 = 3;

} // verus!
