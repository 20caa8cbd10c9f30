//! Runner for the pre-defined scripts of a package.
//!
//! The crate discovers the scripts that a project offers, resolves the name a
//! user asked for against them, and plans the host-shell invocation that
//! starts the matching script. Every decision is a verified function from
//! plain values to plain values; reading the directory, printing and starting
//! the process are left to the caller.

pub mod command;
pub mod console;
pub mod dispatcher;
pub mod paint;
pub mod registry;
pub mod resolver;
pub mod text;
