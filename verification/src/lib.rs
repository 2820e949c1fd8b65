//! Verified core of a multi-call Erlang/OTP toolchain manager.
//!
//! The crate models the decisions the tool makes — registry lookups and
//! edits, build-pipeline sequencing and its install gate, shim-farm
//! contents, and multi-call dispatch — as verified functions over plain
//! values.  Process spawning, the INI file on disk, and symlink creation
//! are performed by a thin unverified shell around this library.

pub mod pipeline;
pub mod config;
pub mod dispatch;
pub mod erl;
pub mod links;
pub mod text;
pub mod words;
