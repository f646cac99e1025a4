//! Provisioning of an Alpine Linux root filesystem: which release to fetch,
//! where to put it, and what to tell the user.
//!
//! This library decides; it touches neither the disk nor the network. Its
//! callers read the environment, perform each action that the library asks
//! for, and report back what happened.

pub mod apk;
pub mod cli;
pub mod config;
pub mod dirs;
pub mod error;
pub mod extract;
pub mod fetch;
pub mod index;
pub mod mirror;
pub mod number;
pub mod pattern;
pub mod provision;
pub mod settings;
pub mod setup;
pub mod table;
pub mod text;
pub mod utils;
pub mod version;
