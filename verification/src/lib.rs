//! Verified core of a file backup service: the sender announces an archive
//! name, the receiver validates it and answers, and the archive is then pumped
//! over the channel in flushed chunks. All input and output is left to the
//! caller; this crate holds the decisions and proves what they guarantee.

pub mod error;
pub mod text;
pub mod copier;
pub mod pipe;
pub mod naming;
pub mod announce;
pub mod archive;
pub mod metrics;
pub mod connection;
pub mod common;
pub mod receiver;
pub mod sender;
pub mod handshake;
pub mod dispatcher;
