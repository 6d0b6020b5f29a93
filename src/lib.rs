//! A two-party token escrow: the instruction wire format, the fixed-layout
//! escrow record, and the state machine that initializes and settles a trade.
pub mod authority;
pub mod bytes;
pub mod error;
pub mod instruction;
pub mod processor;
pub mod state;
pub mod token;
