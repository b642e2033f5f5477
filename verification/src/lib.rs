//! Configuration accessors for a desktop proxy application.
//!
//! Two independent flows, with no interaction between them:
//!
//! - a structured configuration record held in an in-memory slot and
//!   mirrored to disk on every save ([`store`]);
//! - a raw YAML text blob kept only on disk, at a fixed path under the
//!   platform's per-user configuration directory ([`paths`], [`yaml`]).
//!
//! File and lock plumbing lives outside this crate; the logic here works on
//! plain values and carries contracts for all of it.

pub mod paths;
pub mod store;
pub mod yaml;
