//! Decision logic of a chat bot that turns "spend" messages of a Matrix room
//! into withdrawals on a Firefly III ledger.
//!
//! The crate holds what the bot decides: how a command is read, what is sent
//! to the ledger and what its reply means, which reaction a message gets,
//! and how the bot resumes its session or logs in. The transport (Matrix
//! sync, HTTP, the session file) lives with the caller, which performs the
//! actions that the state machines of [`bot`] and [`login`] hand out and
//! reports back what happened.
//!
//! The logic is verified with Verus. The few calls into other crates stand
//! behind small wrappers whose contracts are stated and not proved.

pub mod amount;
pub mod bot;
pub mod config;
pub mod date;
pub mod login;
pub mod session;
pub mod text;
pub mod transaction;
