//! Session manager for an on-device assistant workspace.
//!
//! A session pairs one working directory with one remote assistant and at most
//! one active conversation. This crate holds the rules of that pairing: how a
//! session descriptor is validated, how source files are bundled, when a bundle
//! is uploaded again, which stale artifacts may be deleted, and which events are
//! published on the session's bus. Disk and network access are left to the
//! caller, who hands the library what was read and performs what it plans.

pub mod bundle;
pub mod chunks;
pub mod config;
pub mod error;
pub mod event;
pub mod gate;
pub mod laws;
pub mod model;
pub mod paths;
pub mod scribe;
pub mod text;
