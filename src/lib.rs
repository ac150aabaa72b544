//! A custodial vault program: each user owns one vault account whose address
//! is derived from the user's key and the program's key. Requests are decoded
//! from bytes and then checked and applied by a small state machine.

mod address;
mod error;
mod instruction;
pub mod lemmas;
mod processor;

pub use address::{find_vault_address, same_address, Address};
pub use error::VaultError;
pub use instruction::{le_u64, SolanaInstruction};
pub use processor::{apply_instruction, process_instruction, Account, Action};
