//! The protocol engine of a small FTP server: path resolution confined to a
//! root directory, reply texts, and the per-connection command state machine.
//! The engine decides; sockets, transfers and changes on disk are left to the
//! caller, who reports their outcome.

pub mod address;
pub mod command;
pub mod listing;
pub mod message;
pub mod path;
pub mod session;
pub mod text;
