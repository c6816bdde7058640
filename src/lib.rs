//! Verified core of an expense-tracking chat bot: the per-session
//! conversation state machine, the session store, amount parsing and
//! rounding, and the decisions of the ledger commit workflow.

pub mod text;
pub mod utils;
pub mod amount;
pub mod ledger;
pub mod conversation;
pub mod store;
pub mod laws;
