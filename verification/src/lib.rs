//! A bridge from a small JSON command protocol, spoken by peers over
//! message-oriented connections, to named application events.
//!
//! The crate holds the decisions of such a bridge and none of its sockets:
//! whoever drives it reports what the transport did, and is told what to do
//! next.
//!
//! - [`command`]: the command, and why a payload may be none.
//! - [`decode`]: the schema, from the text of a payload to a command.
//! - [`frame`]: the messages of a connection and the text that they carry.
//! - [`connection`]: the handler of one connection, as a state machine.
//! - [`listener`]: the listener of a server, as a state machine.
//! - [`system`]: a model of many connections at once, and the proof that
//!   each handler runs for itself.
//! - [`json`]: the calls into `serde_json`, with the contracts that are
//!   taken on trust.

pub mod command;
pub mod connection;
pub mod decode;
pub mod frame;
pub mod json;
pub mod listener;
pub mod system;
