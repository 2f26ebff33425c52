//! The client of one RPC endpoint: what it signs and sends, and how it
//! judges what the node said of a transaction it was sent.
//!
//! The client keeps no state between two submissions. In particular it
//! keeps no nonce: every transaction is built from the nonce that the
//! caller has just read from the chain.

use crate::error::Error;
use crate::rpc::poll::{PollAction, PollPolicy, PollState};
use crate::types::{AccountId, InMemorySigner, PublicKey};
use vstd::prelude::*;

verus! {

/// Rounds of status queries that a client allows unless told otherwise.
pub const DEFAULT_POLL_ROUNDS: u32 = 10;

/// First wait between two status queries, in milliseconds.
pub const DEFAULT_POLL_DELAY_MS: u64 = 100;

/// Longest wait between two status queries, in milliseconds.
pub const DEFAULT_POLL_MAX_DELAY_MS: u64 = 3200;

/// One step of a transaction.
#[derive(Clone, Debug, PartialEq, Eq)]
pub enum Action {
    CreateAccount,
    Transfer { deposit: u128 },
    DeployContract { code: Vec<u8> },
    FunctionCall { method_name: String, args: Vec<u8>, gas: u64, deposit: u128 },
    AddKey { public_key: PublicKey },
    DeleteKey { public_key: PublicKey },
}

/// What a caller wants submitted: who signs, who receives, and the actions
/// in the order in which they are to run.
#[derive(Clone, Debug, PartialEq, Eq)]
pub struct TransactionRequest {
    pub signer: InMemorySigner,
    pub receiver_id: AccountId,
    pub actions: Vec<Action>,
}

/// The envelope that is signed and sent.
#[derive(Clone, Debug, PartialEq, Eq)]
pub struct Transaction {
    pub signer_id: AccountId,
    pub public_key: PublicKey,
    pub nonce: u64,
    pub receiver_id: AccountId,
    /// The hash of a recent block, which bounds the life of the transaction.
    pub block_hash: Vec<u8>,
    pub actions: Vec<Action>,
}

/// What came of sending a signed transaction to the node.
#[derive(Clone, Debug, PartialEq, Eq)]
pub enum BroadcastEvent {
    /// The node took the transaction into its queue.
    Accepted,
    /// The node refused the transaction, for the given reason.
    Rejected(String),
    /// The node could not be reached, or what it sent could not be read.
    Unreachable(String),
}

/// The nonce of a transaction that is built when the chain holds
/// `access_key_nonce` for the signer's key: the next one.
pub open spec fn next_nonce(access_key_nonce: u64) -> nat {
    (access_key_nonce + 1) as nat
}

/// A transaction never takes a nonce that an earlier one has used: once the
/// chain has taken in a transaction, the nonce it holds for the key is at
/// least that transaction's, and a transaction built on a later reading
/// takes a greater one.
pub proof fn lemma_nonce_is_fresh(earlier_reading: u64, later_reading: u64)
    requires
        later_reading >= next_nonce(earlier_reading),
    ensures
        next_nonce(later_reading) > next_nonce(earlier_reading),
        next_nonce(later_reading) > later_reading,
{
}

/// A client bound to one endpoint.
#[derive(Clone, Debug, PartialEq, Eq)]
pub struct Client {
    pub rpc_addr: String,
    pub policy: PollPolicy,
}

impl Client {
    /// The client for the endpoint at `rpc_addr` with the default polling
    /// policy.
    pub open spec fn new_spec(rpc_addr: String) -> Client {
        Client {
            rpc_addr,
            policy: PollPolicy {
                max_rounds: DEFAULT_POLL_ROUNDS,
                initial_delay_ms: DEFAULT_POLL_DELAY_MS,
                max_delay_ms: DEFAULT_POLL_MAX_DELAY_MS,
            },
        }
    }

    /// A client for the endpoint at `rpc_addr` with the default polling
    /// policy.
    pub fn new(rpc_addr: String) -> (client: Client)
        ensures
            client == Client::new_spec(rpc_addr),
    {
        Client {
            rpc_addr,
            policy: PollPolicy {
                max_rounds: DEFAULT_POLL_ROUNDS,
                initial_delay_ms: DEFAULT_POLL_DELAY_MS,
                max_delay_ms: DEFAULT_POLL_MAX_DELAY_MS,
            },
        }
    }

    /// The same client with another polling policy.
    pub fn with_policy(self, policy: PollPolicy) -> (client: Client)
        ensures
            client.rpc_addr == self.rpc_addr,
            client.policy == policy,
    {
        Client { rpc_addr: self.rpc_addr, policy }
    }

    /// Builds the envelope for a request.
    ///
    /// `access_key_nonce` is the nonce that the chain holds for the signer's
    /// key at this moment; the transaction takes the next one, so it is
    /// never sent with a nonce that the chain has already seen.
    pub fn build_transaction(
        &self,
        request: TransactionRequest,
        access_key_nonce: u64,
        block_hash: Vec<u8>,
    ) -> (transaction: Transaction)
        requires
            request.actions@.len() > 0,
            access_key_nonce < u64::MAX,
        ensures
            transaction.signer_id == request.signer.account_id,
            transaction.public_key@ == request.signer.secret_key.public_view(),
            transaction.nonce == next_nonce(access_key_nonce),
            transaction.receiver_id == request.receiver_id,
            transaction.block_hash == block_hash,
            transaction.actions == request.actions,
    {
        let public_key = request.signer.public_key();
        Transaction {
            signer_id: request.signer.account_id,
            public_key,
            nonce: access_key_nonce + 1,
            receiver_id: request.receiver_id,
            block_hash,
            actions: request.actions,
        }
    }

    /// What the submission does once the transaction has been sent: an
    /// accepted transaction starts the poll for finality, a refusal ends
    /// the submission with `ChainRejection`, and an unreachable node with
    /// `TransportError`.
    pub open spec fn on_broadcast(self, event: BroadcastEvent) -> PollAction {
        match event {
            BroadcastEvent::Accepted => if self.policy.max_rounds == 0 {
                PollAction::Finish(Err(Error::PollTimeout))
            } else {
                PollAction::Query { delay_ms: 0 }
            },
            BroadcastEvent::Rejected(reason) => PollAction::Finish(
                Err(Error::ChainRejection(reason)),
            ),
            BroadcastEvent::Unreachable(reason) => PollAction::Finish(
                Err(Error::TransportError(reason)),
            ),
        }
    }

    /// Judges what came of sending a transaction. A transaction that was
    /// refused or could not be sent is not sent again.
    pub fn after_broadcast(&self, event: BroadcastEvent) -> (r: (PollState, PollAction))
        ensures
            r.0 == self.policy.state_after(0),
            r.1 == self.on_broadcast(event),
    {
        let (state, action) = self.policy.start();
        match event {
            BroadcastEvent::Accepted => (state, action),
            BroadcastEvent::Rejected(reason) => (
                state,
                PollAction::Finish(Err(Error::ChainRejection(reason))),
            ),
            BroadcastEvent::Unreachable(reason) => (
                state,
                PollAction::Finish(Err(Error::TransportError(reason))),
            ),
        }
    }
}

} // verus!
