//! The verified core of a line-oriented JSON-RPC plugin that runs `gws` commands.

pub mod arguments;
pub mod command;
pub mod credentials;
pub mod invoke;
pub mod json;
pub mod manifest;
pub mod protocol;
pub mod request;
pub mod session;
pub mod text;
pub mod tool;
pub mod transport;
