//! Network backends and the values they hand out.

pub mod account;
pub mod deploy;
pub mod info;
pub mod result;
pub mod sandbox;
pub mod server;
pub mod testnet;

use crate::rpc::client::Client;
use vstd::prelude::*;

pub use account::{Account, Contract};
pub use deploy::{CreationError, CreationStep, DeployPlan};
pub use info::Info;
pub use sandbox::Sandbox;
pub use result::{CallExecution, CallExecutionDetails, ExecutionOutcome, FinalExecutionStatus};
pub use testnet::Testnet;

verus! {

/// A backend that gives access to the client bound to its endpoint.
pub trait NetworkClient {
    /// The client of the backend.
    spec fn client_view(&self) -> Client;

    fn client(&self) -> (client: &Client)
        ensures
            *client == self.client_view(),
    ;
}

/// A backend that describes its network.
pub trait NetworkInfo {
    /// The description of the backend.
    spec fn info_view(&self) -> Info;

    fn info(&self) -> (info: &Info)
        ensures
            *info == self.info_view(),
    ;
}

/// A backend on which anybody may create top-level accounts under names
/// of their own choosing.
pub trait AllowDevAccountCreation {

}

/// Everything a worker asks of its backend.
pub trait Network: NetworkClient + NetworkInfo {

}

impl<T> Network for T where T: NetworkClient + NetworkInfo {

}

} // verus!
