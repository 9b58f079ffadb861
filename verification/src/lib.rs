//! An on-chain program with a single instruction, `initialize`, which greets
//! the caller with the identifier of the program that is running.

pub mod context;
pub mod instructions;
pub mod program_id;

pub use context::{Context, Initialize};
pub use instructions::{greeting, greeting_line, initialize, occurs_in, GREETING_PREFIX};
pub use program_id::{check_id, debug_text, id, ID};
