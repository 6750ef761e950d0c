//! A minimal account-based counter program.
//!
//! Instructions arrive as an opaque byte buffer together with an ordered
//! list of account handles supplied by a host virtual machine. The buffer
//! decodes to one of two operations: initialize a counter account with a
//! starting value, or increment the stored counter by one. The counter is
//! persisted as exactly eight little-endian bytes in the target account's
//! byte region, and only the owning program may mutate it.

pub mod account;
pub mod errors;
pub mod instruction;
pub mod processor;
pub mod resolver;
pub mod state;

pub use instruction::CounterInstruction;
pub use processor::{process_increment_counter, process_initialize_counter, process_instruction};
pub use state::CounterAccount;
