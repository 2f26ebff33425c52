//! Talking to a node: building transactions, judging what the node said
//! of them, and waiting for finality.

pub mod client;
pub mod poll;
pub mod tool;

pub use client::{Action, BroadcastEvent, Client, Transaction, TransactionRequest};
pub use poll::{PollAction, PollEvent, PollPolicy, PollState, StatusReport};
