//! Determines a branch name and a commit timestamp for a working copy that was
//! checked out from one of several version-control systems, so that an uploaded
//! analysis artifact can be tagged with a `branch:timestamp` token.
//!
//! The crate holds the resolution logic only: probes over captured command
//! output, environment-variable fallbacks, and the remote changeset client's
//! request construction and response classification.  Running programs and
//! performing network requests is left to the surrounding binary, which hands
//! the captured results in as plain values.

pub mod app;
pub mod decimal;
pub mod env_reader;
pub mod git;
pub mod logger;
pub mod rfc3339;
pub mod strings;
pub mod svn;
pub mod tfs;
