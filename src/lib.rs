//! The conversation-turn engine of a terminal chat client: file context,
//! prompt assembly, reply extraction, failure classification and the
//! session state machine. Reading files, talking to the network and the
//! terminal are left to the caller.

pub mod prompt;
pub mod context;
pub mod turn;
pub mod session;
