//! The backend for a sandbox node that runs on this machine.
//!
//! The node comes with a root account that holds funds, and whoever starts
//! the node holds the key of that account. A new top-level account is
//! therefore created and funded by a transaction that the root account
//! signs.

use crate::error::Error;
use crate::network::account::{account_creation, creation_actions, Account};
use crate::network::deploy::{deploys, CreationError, CreationStep, DeployPlan};
use crate::network::info::Info;
use crate::network::result::{CallExecution, CallExecutionDetails, ExecutionOutcome};
use crate::network::server::{local_rpc_addr, Phase, SandboxServer};
use crate::network::{AllowDevAccountCreation, NetworkClient, NetworkInfo};
use crate::rpc::client::{Client, TransactionRequest};
use crate::types::{AccountId, InMemorySigner, SecretKey};
use vstd::prelude::*;
use vstd::string::*;

verus! {

/// What the root account gives a new top-level account to start with, in
/// the smallest unit of the currency.
pub const DEFAULT_DEPOSIT: u128 = 100_000_000_000_000_000_000_000_000;

pub struct Sandbox {
    server: SandboxServer,
    client: Client,
    info: Info,
    root_key: SecretKey,
}

impl Sandbox {
    /// The node that the backend stands on.
    pub closed spec fn spec_server(&self) -> SandboxServer {
        self.server
    }

    /// The client of the backend.
    pub closed spec fn spec_client(&self) -> Client {
        self.client
    }

    /// The description of the backend.
    pub closed spec fn spec_info(&self) -> Info {
        self.info
    }

    /// The key of the root account.
    pub closed spec fn spec_root_key(&self) -> SecretKey {
        self.root_key
    }

    /// The backend on a node that is live. Its endpoint is the local
    /// address of the node's port, and its root account is signed for with
    /// `root_key`.
    pub fn new(server: SandboxServer, root_key: SecretKey) -> (sandbox: Sandbox)
        requires
            server.phase is Live,
        ensures
            sandbox.spec_server() == server,
            sandbox.spec_root_key() == root_key,
            sandbox.spec_info().name@ == "sandbox"@,
            sandbox.spec_info().root_id@ == "test.near"@,
            sandbox.spec_info().keystore_path@ == ".near-credentials/sandbox/"@,
            sandbox.spec_info().rpc_url@ == local_rpc_addr(server.config.port),
            sandbox.spec_client() == Client::new_spec(sandbox.spec_info().rpc_url),
    {
        proof {
            reveal_strlit("test.near");
        }
        let rpc_url = server.rpc_addr();
        Sandbox {
            server,
            client: Client::new(rpc_url.clone()),
            info: Info {
                name: String::from_str("sandbox"),
                root_id: AccountId::from_str("test.near").unwrap(),
                keystore_path: String::from_str(".near-credentials/sandbox/"),
                rpc_url,
            },
            root_key,
        }
    }

    /// The node that the backend stands on, for whoever has to stop it.
    pub fn server(&self) -> (server: SandboxServer)
        ensures
            server == self.spec_server(),
    {
        self.server
    }

    /// The signer of the root account.
    pub fn root_signer(&self) -> (signer: InMemorySigner)
        ensures
            signer.account_id@ == self.spec_info().root_id@,
            signer.secret_key.secret_view() == self.spec_root_key().secret_view(),
            signer.secret_key.public_view() == self.spec_root_key().public_view(),
    {
        InMemorySigner::from_secret_key(self.info.root_id.clone(), self.root_key.clone())
    }

    /// The transaction that brings the top-level account `id` about: the
    /// root account signs, and the actions create the account, let the
    /// public half of `secret_key` act for it, and fund it with the
    /// default deposit, which is not zero.
    pub fn creation_request(&self, id: &AccountId, secret_key: &SecretKey) -> (request:
        TransactionRequest)
        ensures
            request.receiver_id@ == id@,
            request.signer.account_id@ == self.spec_info().root_id@,
            request.signer.secret_key.secret_view() == self.spec_root_key().secret_view(),
            request.signer.secret_key.public_view() == self.spec_root_key().public_view(),
            creation_actions(secret_key.public_view(), DEFAULT_DEPOSIT, request.actions@),
            DEFAULT_DEPOSIT > 0,
    {
        TransactionRequest {
            signer: self.root_signer(),
            receiver_id: id.clone(),
            actions: account_creation(secret_key, DEFAULT_DEPOSIT),
        }
    }

    /// The top-level account `id` once its creation has been submitted.
    ///
    /// A creation that the node finalized gives the account, signed for
    /// with `secret_key`, with the details of the execution; one that did
    /// not get that far gives the error of the submission unchanged.
    pub fn create_tla(
        &self,
        id: AccountId,
        secret_key: SecretKey,
        outcome: Result<CallExecutionDetails, Error>,
    ) -> (r: Result<CallExecution<Account>, Error>)
        ensures
            match outcome {
                Ok(details) => {
                    &&& r matches Ok(execution)
                    &&& execution.details == details
                    &&& execution.result.id@ == id@
                    &&& execution.result.signer.account_id@ == id@
                    &&& execution.result.signer.secret_key == secret_key
                },
                Err(error) => r == Err::<CallExecution<Account>, Error>(error),
            },
    {
        Account::created(id, secret_key, outcome)
    }

    /// The first half of creating the account `id` and deploying `code` to
    /// it: the account once its creation has been submitted, and the
    /// deployment to submit next, which the account signs for itself.
    ///
    /// Where the creation failed, the error names the first step, carries
    /// no account, and holds the error of the submission, or the chain's
    /// reason as an `ExecutionFailure`.
    pub fn create_tla_and_deploy(
        &self,
        id: AccountId,
        secret_key: SecretKey,
        code: Vec<u8>,
        outcome: Result<CallExecutionDetails, Error>,
    ) -> (r: Result<DeployPlan, CreationError>)
        ensures
            match outcome {
                Ok(details) => match details.status {
                    ExecutionOutcome::Failure(reason) => r == Err::<DeployPlan, CreationError>(
                        CreationError {
                            step: CreationStep::CreateAccount,
                            account: None,
                            cause: Error::ExecutionFailure(reason),
                        },
                    ),
                    _ => {
                        &&& r matches Ok(plan)
                        &&& plan.account.id@ == id@
                        &&& plan.account.signer.account_id@ == id@
                        &&& plan.account.signer.secret_key == secret_key
                        &&& deploys(plan.account, code@, plan.request)
                    },
                },
                Err(error) => r == Err::<DeployPlan, CreationError>(
                    CreationError { step: CreationStep::CreateAccount, account: None, cause: error },
                ),
            },
    {
        let created = self.create_tla(id, secret_key, outcome);
        DeployPlan::after_creation(created, code)
    }
}

impl AllowDevAccountCreation for Sandbox {

}

impl NetworkClient for Sandbox {
    open spec fn client_view(&self) -> Client {
        self.spec_client()
    }

    fn client(&self) -> (client: &Client) {
        &self.client
    }
}

impl NetworkInfo for Sandbox {
    open spec fn info_view(&self) -> Info {
        self.spec_info()
    }

    fn info(&self) -> (info: &Info) {
        &self.info
    }
}

} // verus!
