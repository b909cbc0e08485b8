//! A per-user counter kept in a four-byte account.
//!
//! The crate holds both halves of the protocol as plain functions on plain
//! values: the transactions a client submits and the account it creates, and
//! the program that applies an instruction to the stored counter.

pub mod client;
pub mod codec;
pub mod instruction;
pub mod processor;
pub mod pubkey;
pub mod states;
pub mod system_instruction;

pub use client::get_or_create_account;
pub use instruction::CustomInstruction;
pub use processor::process_instruction;
pub use states::account_state::AccountState;
