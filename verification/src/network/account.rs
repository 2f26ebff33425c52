//! Accounts, contracts, and the transactions that create them.

use crate::error::Error;
use crate::network::result::{CallExecution, CallExecutionDetails};
use crate::rpc::client::{Action, TransactionRequest};
use crate::types::{subaccount_name, valid_account_id, AccountId, InMemorySigner, SecretKey};
use vstd::prelude::*;

verus! {

/// An account together with the signer that acts for it.
#[derive(Clone, Debug, PartialEq, Eq)]
pub struct Account {
    pub id: AccountId,
    pub signer: InMemorySigner,
}

/// An account under which a module has been deployed.
#[derive(Clone, Debug, PartialEq, Eq)]
pub struct Contract {
    pub account: Account,
}

/// The actions that create an account, let `public_key` act for it, and
/// fund it with `deposit`, in that order.
pub open spec fn creation_actions(public_key: Seq<u8>, deposit: u128, actions: Seq<Action>) -> bool {
    &&& actions.len() == 3
    &&& actions[0] == Action::CreateAccount
    &&& actions[1] matches Action::AddKey { public_key: key }
    &&& key@ == public_key
    &&& actions[2] == (Action::Transfer { deposit })
}

/// Builds the three actions of an account creation.
pub fn account_creation(secret_key: &SecretKey, deposit: u128) -> (actions: Vec<Action>)
    ensures
        creation_actions(secret_key.public_view(), deposit, actions@),
{
    let mut actions: Vec<Action> = Vec::new();
    actions.push(Action::CreateAccount);
    actions.push(Action::AddKey { public_key: secret_key.public_key() });
    actions.push(Action::Transfer { deposit });
    actions
}

impl Account {
    /// The account `id`, for which `signer` signs.
    pub fn new(id: AccountId, signer: InMemorySigner) -> (account: Account)
        ensures
            account.id == id,
            account.signer == signer,
    {
        Account { id, signer }
    }

    pub fn id(&self) -> (id: &AccountId)
        ensures
            *id == self.id,
    {
        &self.id
    }

    pub fn signer(&self) -> (signer: &InMemorySigner)
        ensures
            *signer == self.signer,
    {
        &self.signer
    }

    /// The account that a finished creation transaction brought about.
    ///
    /// A creation that the node finalized gives the account with the
    /// details of its execution, whatever the chain says of its success;
    /// one that did not get that far gives the error unchanged.
    pub fn created(
        id: AccountId,
        secret_key: SecretKey,
        outcome: Result<CallExecutionDetails, Error>,
    ) -> (r: Result<CallExecution<Account>, Error>)
        ensures
            match outcome {
                Ok(details) => {
                    &&& r matches Ok(execution)
                    &&& execution.details == details
                    &&& execution.result.id@ == id@
                    &&& execution.result.signer.account_id@ == id@
                    &&& execution.result.signer.secret_key == secret_key
                },
                Err(error) => r == Err::<CallExecution<Account>, Error>(error),
            },
    {
        match outcome {
            Ok(details) => {
                let signer = InMemorySigner::from_secret_key(id.clone(), secret_key);
                Ok(CallExecution { result: Account::new(id, signer), details })
            },
            Err(error) => Err(error),
        }
    }

    /// The request that creates the account `name` directly under this
    /// one, with `secret_key` as its key and `initial_balance` as its funds.
    ///
    /// The new identifier is `name`, a dot, and this account's identifier.
    /// This account signs and pays. `None` when the new identifier breaks
    /// the naming rules.
    pub fn create_subaccount(
        &self,
        name: &str,
        secret_key: &SecretKey,
        initial_balance: u128,
    ) -> (r: Option<TransactionRequest>)
        ensures
            r is Some <==> valid_account_id(subaccount_name(name@, self.id@)),
            r matches Some(request) ==> {
                &&& request.receiver_id@ == subaccount_name(name@, self.id@)
                &&& request.signer.account_id@ == self.signer.account_id@
                &&& request.signer.secret_key.secret_view() == self.signer.secret_key.secret_view()
                &&& request.signer.secret_key.public_view() == self.signer.secret_key.public_view()
                &&& creation_actions(secret_key.public_view(), initial_balance, request.actions@)
            },
    {
        match self.id.subaccount(name) {
            Some(receiver_id) => Some(
                TransactionRequest {
                    signer: self.signer.clone(),
                    receiver_id,
                    actions: account_creation(secret_key, initial_balance),
                },
            ),
            None => None,
        }
    }
}

impl Contract {
    /// The contract at `id`, for which `signer` signs.
    pub fn new(id: AccountId, signer: InMemorySigner) -> (contract: Contract)
        ensures
            contract.account.id == id,
            contract.account.signer == signer,
    {
        Contract { account: Account::new(id, signer) }
    }

    /// The contract deployed under `account`.
    pub fn account(account: Account) -> (contract: Contract)
        ensures
            contract.account == account,
    {
        Contract { account }
    }

    pub fn id(&self) -> (id: &AccountId)
        ensures
            *id == self.account.id,
    {
        &self.account.id
    }

    pub fn signer(&self) -> (signer: &InMemorySigner)
        ensures
            *signer == self.account.signer,
    {
        &self.account.signer
    }

    pub fn as_account(&self) -> (account: &Account)
        ensures
            *account == self.account,
    {
        &self.account
    }
}

} // verus!
