//! The handle that applications hold on a network.

use crate::network::info::Info;
use crate::network::sandbox::Sandbox;
use crate::network::server::{local_rpc_addr, SandboxServer};
use crate::network::testnet::{Testnet, RPC_URL};
use crate::network::{AllowDevAccountCreation, Network, NetworkClient, NetworkInfo};
use crate::rpc::client::Client;
use crate::rpc::tool::{dev_account_id, dev_account_name};
use crate::types::{AccountId, SecretKey};
use std::sync::Arc;
use vstd::prelude::*;

verus! {

/// The owner of one network backend, which it shares with every copy of
/// itself and never changes.
pub struct Worker<T> {
    workspace: Arc<T>,
}

impl<T> Worker<T> where T: Network {
    /// The backend that the worker owns.
    pub closed spec fn network(&self) -> T {
        *self.workspace
    }

    /// A worker for `network`.
    pub fn new(network: T) -> (worker: Worker<T>)
        ensures
            worker.network() == network,
    {
        Worker { workspace: Arc::new(network) }
    }

    /// The backend, for the operations that are particular to it.
    pub fn workspace(&self) -> (network: &T)
        ensures
            *network == self.network(),
    {
        &*self.workspace
    }

    /// The client of the backend.
    pub fn client(&self) -> (client: &Client)
        ensures
            *client == self.network().client_view(),
    {
        self.workspace().client()
    }

    /// The description of the backend.
    pub fn info(&self) -> (info: &Info)
        ensures
            *info == self.network().info_view(),
    {
        self.workspace().info()
    }

    /// Another handle on the same backend.
    pub fn share(&self) -> (worker: Worker<T>)
        ensures
            worker.network() == self.network(),
    {
        Worker { workspace: self.workspace.clone() }
    }
}

impl<T> Worker<T> where T: Network + AllowDevAccountCreation {
    /// The identifier of a throw-away top-level account, named after a time
    /// stamp and a salt that the caller draws. Only backends on which
    /// anybody may create top-level accounts offer this.
    pub fn dev_generate(&self, stamp: u64, salt: u64) -> (id: AccountId)
        ensures
            id@ == dev_account_name(stamp, salt),
    {
        dev_account_id(stamp, salt)
    }
}

/// A worker on a sandbox node that is live, whose root account is signed
/// for with `root_key`.
pub fn sandbox(server: SandboxServer, root_key: SecretKey) -> (worker: Worker<Sandbox>)
    requires
        server.phase is Live,
    ensures
        worker.network().spec_server() == server,
        worker.network().spec_root_key() == root_key,
        worker.network().spec_info().name@ == "sandbox"@,
        worker.network().spec_info().root_id@ == "test.near"@,
        worker.network().spec_info().keystore_path@ == ".near-credentials/sandbox/"@,
        worker.network().spec_info().rpc_url@ == local_rpc_addr(server.config.port),
        worker.network().spec_client() == Client::new_spec(worker.network().spec_info().rpc_url),
{
    Worker::new(Sandbox::new(server, root_key))
}

/// A worker on the public test network.
pub fn testnet() -> (worker: Worker<Testnet>)
    ensures
        worker.network().spec_info().name@ == "testnet"@,
        worker.network().spec_info().root_id@ == "testnet"@,
        worker.network().spec_info().keystore_path@ == ".near-credentials/testnet/"@,
        worker.network().spec_info().rpc_url@ == RPC_URL@,
        worker.network().spec_client() == Client::new_spec(worker.network().spec_info().rpc_url),
{
    Worker::new(Testnet::new())
}

} // verus!
