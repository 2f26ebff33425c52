//! The backend for the public test network.
//!
//! Nobody here holds a key for the network's root account, so a new
//! top-level account is created and funded by a helper service, and the
//! backend takes over once the service reports that the account exists.

use crate::error::Error;
use crate::network::account::Account;
use crate::network::deploy::{CreationError, CreationStep, DeployPlan};
use crate::network::info::Info;
use crate::network::result::{CallExecution, CallExecutionDetails, ExecutionOutcome};
use crate::network::{AllowDevAccountCreation, NetworkClient, NetworkInfo};
use crate::rpc::client::Client;
use crate::rpc::tool::{bad_endpoint_text, helper_endpoint, parsed_url};
use crate::types::{AccountId, InMemorySigner, PublicKey, SecretKey};
use vstd::prelude::*;
use vstd::string::*;

verus! {

/// Endpoint of the test network.
pub const RPC_URL: &'static str = "https://rpc.testnet.near.org";

/// Address of the service that creates and funds new top-level accounts.
pub const HELPER_URL: &'static str = "https://helper.testnet.near.org";

/// What the helper service is asked to do: create `account_id`, with
/// `public_key` as its key, and fund it.
#[derive(Clone, Debug, PartialEq, Eq)]
pub struct HelperRequest {
    /// Where the service is reached.
    pub endpoint: String,
    pub account_id: AccountId,
    pub public_key: PublicKey,
}

pub struct Testnet {
    client: Client,
    info: Info,
}

impl Testnet {
    /// The client of the backend.
    pub closed spec fn spec_client(&self) -> Client {
        self.client
    }

    /// The description of the backend.
    pub closed spec fn spec_info(&self) -> Info {
        self.info
    }

    /// Binds to the fixed endpoint of the test network.
    pub fn new() -> (testnet: Testnet)
        ensures
            testnet.spec_info().name@ == "testnet"@,
            testnet.spec_info().root_id@ == "testnet"@,
            testnet.spec_info().keystore_path@ == ".near-credentials/testnet/"@,
            testnet.spec_info().rpc_url@ == RPC_URL@,
            testnet.spec_client() == Client::new_spec(testnet.spec_info().rpc_url),
    {
        proof {
            reveal_strlit("testnet");
        }
        let rpc_url = String::from_str(RPC_URL);
        Testnet {
            client: Client::new(rpc_url.clone()),
            info: Info {
                name: String::from_str("testnet"),
                root_id: AccountId::from_str("testnet").unwrap(),
                keystore_path: String::from_str(".near-credentials/testnet/"),
                rpc_url,
            },
        }
    }

    /// What to ask of the helper service so that the account `id` comes to
    /// exist with the public half of `secret_key` as its key.
    pub fn helper_request(&self, id: &AccountId, secret_key: &SecretKey) -> (r: Result<
        HelperRequest,
        Error,
    >)
        ensures
            match parsed_url(HELPER_URL@) {
                Some(endpoint) => {
                    &&& r matches Ok(request)
                    &&& request.endpoint@ == endpoint
                    &&& request.account_id@ == id@
                    &&& request.public_key@ == secret_key.public_view()
                },
                None => r matches Err(Error::HelperServiceError(reason)) && reason@
                    == bad_endpoint_text(),
            },
    {
        match helper_endpoint(HELPER_URL) {
            Ok(endpoint) => Ok(
                HelperRequest {
                    endpoint,
                    account_id: id.clone(),
                    public_key: secret_key.public_key(),
                },
            ),
            Err(error) => Err(error),
        }
    }

    /// The top-level account `id` once the helper service has answered.
    ///
    /// Where the service created the account, the result is the account,
    /// signed for with `secret_key`, and details that show a success
    /// without a value and no gas burnt: the service paid. Where it did
    /// not, the result is a helper-service error with the service's reason.
    pub fn create_tla(&self, id: AccountId, secret_key: SecretKey, funded: Result<(), String>) -> (r:
        Result<CallExecution<Account>, Error>)
        ensures
            match funded {
                Ok(_) => {
                    &&& r matches Ok(execution)
                    &&& execution.details == (CallExecutionDetails {
                        total_gas_burnt: 0,
                        status: ExecutionOutcome::SuccessEmpty,
                    })
                    &&& execution.result.id@ == id@
                    &&& execution.result.signer.account_id@ == id@
                    &&& execution.result.signer.secret_key == secret_key
                },
                Err(reason) => r == Err::<CallExecution<Account>, Error>(
                    Error::HelperServiceError(reason),
                ),
            },
    {
        match funded {
            Ok(_) => Account::created(
                id,
                secret_key,
                Ok(
                    CallExecutionDetails {
                        total_gas_burnt: 0,
                        status: ExecutionOutcome::SuccessEmpty,
                    },
                ),
            ),
            Err(reason) => Err(Error::HelperServiceError(reason)),
        }
    }

    /// The first half of creating the account `id` and deploying `code` to
    /// it: the account once the helper service has answered, and the
    /// deployment to submit next, which the account signs for itself.
    ///
    /// Where the service did not create the account, the error names the
    /// first step and carries no account.
    pub fn create_tla_and_deploy(
        &self,
        id: AccountId,
        secret_key: SecretKey,
        code: Vec<u8>,
        funded: Result<(), String>,
    ) -> (r: Result<DeployPlan, CreationError>)
        ensures
            match funded {
                Ok(_) => {
                    &&& r matches Ok(plan)
                    &&& plan.account.id@ == id@
                    &&& plan.account.signer.account_id@ == id@
                    &&& plan.account.signer.secret_key == secret_key
                    &&& crate::network::deploy::deploys(plan.account, code@, plan.request)
                },
                Err(reason) => r == Err::<DeployPlan, CreationError>(
                    CreationError {
                        step: CreationStep::CreateAccount,
                        account: None,
                        cause: Error::HelperServiceError(reason),
                    },
                ),
            },
    {
        let created = self.create_tla(id, secret_key, funded);
        DeployPlan::after_creation(created, code)
    }
}

impl AllowDevAccountCreation for Testnet {

}

impl NetworkClient for Testnet {
    open spec fn client_view(&self) -> Client {
        self.spec_client()
    }

    fn client(&self) -> (client: &Client) {
        &self.client
    }
}

impl NetworkInfo for Testnet {
    open spec fn info_view(&self) -> Info {
        self.spec_info()
    }

    fn info(&self) -> (info: &Info) {
        &self.info
    }
}

} // verus!
