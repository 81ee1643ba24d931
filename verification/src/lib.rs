//! Remote control of a broadcast application over its control socket:
//! the connection address, the command vocabulary, and the sequence of
//! remote calls and printed lines that each command amounts to.

pub mod address;
pub mod command;
pub mod laws;
pub mod protocol;
pub mod session;
pub mod text;
pub mod verb;
