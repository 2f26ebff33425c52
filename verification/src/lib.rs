//! Client-side model of a blockchain test workspace: network backends,
//! transaction submission with finality polling, and the lifecycle of a
//! locally spawned sandbox node.
//!
//! Everything here is pure decision logic. Whatever touches the outside
//! world (sockets, child processes, clocks) is performed by the caller, who
//! feeds the observed events back into the state machines of this crate.

pub mod error;
pub mod network;
pub mod rpc;
pub mod text;
pub mod types;
pub mod worker;

pub use error::Error;
pub use network::{Account, Contract, Network, Sandbox, Testnet};
pub use types::{AccountId, InMemorySigner, PublicKey, SecretKey};
pub use worker::{sandbox, testnet, Worker};
