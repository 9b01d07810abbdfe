//! Interactive stash of named text blobs ("environments").
//!
//! The crate holds the decision logic of the tool: the grammar that turns one
//! line of input into a command, the encoding of content into the stored file
//! text, the mapping from a command and a store outcome to the message shown
//! to the user, and the policy of the read-eval loop. The surrounding binary
//! performs the file, console and clipboard work and hands the results back
//! as plain values.

pub mod command;
pub mod dispatch;
pub mod laws;
pub mod parser;
pub mod session;
pub mod store;
pub mod text;
