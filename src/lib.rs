//! The command-invocation bridge of a desktop application: a registry of
//! named commands, a dispatcher that turns an invocation into exactly one
//! reply, the built-in `greet` command, and the bootstrap state machine that
//! installs capability modules before the application starts serving.

pub mod greet;
pub mod value;
pub mod error;
pub mod registry;
pub mod bridge;
pub mod bootstrap;
