//! Creating an account and deploying a module to it: two transactions, and
//! no rolling back of the first when the second fails.

use crate::error::Error;
use crate::network::account::{Account, Contract};
use crate::network::result::{CallExecution, CallExecutionDetails};
use crate::rpc::client::{Action, TransactionRequest};
use vstd::prelude::*;

verus! {

/// The step of a creation at which something went wrong.
#[derive(Clone, Copy, Debug, PartialEq, Eq)]
pub enum CreationStep {
    /// Creating and funding the account.
    CreateAccount,
    /// Deploying the module to the account.
    Deploy,
}

/// Why a creation with deployment did not go through, and what it left
/// behind.
#[derive(Debug, PartialEq, Eq)]
pub struct CreationError {
    /// The step that failed.
    pub step: CreationStep,
    /// The account that exists all the same, where the failure came after
    /// its creation.
    pub account: Option<Account>,
    /// What went wrong.
    pub cause: Error,
}

/// An account that has been created and the transaction that deploys a
/// module to it.
#[derive(Debug, PartialEq, Eq)]
pub struct DeployPlan {
    /// The account that now exists.
    pub account: Account,
    /// The transaction to submit next.
    pub request: TransactionRequest,
}

/// The request that deploys `code` to `account`, signed by the account
/// itself: a single deploy action.
pub open spec fn deploys(account: Account, code: Seq<u8>, request: TransactionRequest) -> bool {
    &&& request.receiver_id@ == account.id@
    &&& request.signer.account_id@ == account.signer.account_id@
    &&& request.signer.secret_key.secret_view() == account.signer.secret_key.secret_view()
    &&& request.signer.secret_key.public_view() == account.signer.secret_key.public_view()
    &&& request.actions@.len() == 1
    &&& request.actions@[0] matches Action::DeployContract { code: deployed }
    &&& deployed@ == code
}

impl DeployPlan {
    /// Decides what follows the creation of an account that is to carry a
    /// module.
    ///
    /// Where the creation went through and succeeded, the deployment is
    /// planned. Where it did not, the error names the first step, carries
    /// no account, and holds the cause: the error of the creation, or the
    /// chain's reason as an `ExecutionFailure`.
    pub fn after_creation(created: Result<CallExecution<Account>, Error>, code: Vec<u8>) -> (r:
        Result<DeployPlan, CreationError>)
        ensures
            match created {
                Ok(execution) => match execution.details.status {
                    crate::network::result::ExecutionOutcome::Failure(reason) => r == Err::<
                        DeployPlan,
                        CreationError,
                    >(
                        CreationError {
                            step: CreationStep::CreateAccount,
                            account: None,
                            cause: Error::ExecutionFailure(reason),
                        },
                    ),
                    _ => {
                        &&& r matches Ok(plan)
                        &&& plan.account == execution.result
                        &&& deploys(plan.account, code@, plan.request)
                    },
                },
                Err(error) => r == Err::<DeployPlan, CreationError>(
                    CreationError { step: CreationStep::CreateAccount, account: None, cause: error },
                ),
            },
    {
        let execution = match created {
            Ok(execution) => execution,
            Err(error) => {
                return Err(
                    CreationError { step: CreationStep::CreateAccount, account: None, cause: error },
                );
            },
        };
        match execution.into_result() {
            Ok(account) => {
                let mut actions: Vec<Action> = Vec::new();
                actions.push(Action::DeployContract { code });
                let request = TransactionRequest {
                    signer: account.signer.clone(),
                    receiver_id: account.id.clone(),
                    actions,
                };
                Ok(DeployPlan { account, request })
            },
            Err(error) => Err(
                CreationError { step: CreationStep::CreateAccount, account: None, cause: error },
            ),
        }
    }

    /// Closes the plan with what the deployment came to.
    ///
    /// A finalized deployment gives the contract with the details of the
    /// deployment. A failed one gives an error that names the deploy step
    /// and carries the account, which stays created.
    pub fn finish(self, outcome: Result<CallExecutionDetails, Error>) -> (r: Result<
        CallExecution<Contract>,
        CreationError,
    >)
        ensures
            match outcome {
                Ok(details) => r == Ok::<CallExecution<Contract>, CreationError>(
                    CallExecution { result: Contract { account: self.account }, details },
                ),
                Err(error) => r == Err::<CallExecution<Contract>, CreationError>(
                    CreationError {
                        step: CreationStep::Deploy,
                        account: Some(self.account),
                        cause: error,
                    },
                ),
            },
    {
        match outcome {
            Ok(details) => Ok(CallExecution { result: Contract::account(self.account), details }),
            Err(error) => Err(
                CreationError {
                    step: CreationStep::Deploy,
                    account: Some(self.account),
                    cause: error,
                },
            ),
        }
    }
}

} // verus!
