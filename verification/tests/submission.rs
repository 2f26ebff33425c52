use workspaces::error::Error;
use workspaces::network::result::{
    total_gas_burnt, CallExecution, CallExecutionDetails, ExecutionOutcome, FinalExecutionStatus,
};
use workspaces::rpc::client::{Action, BroadcastEvent, Client, Transaction, TransactionRequest};
use workspaces::rpc::poll::{PollAction, PollEvent, PollPolicy, PollState, StatusReport};
use workspaces::types::{AccountId, InMemorySigner, SecretKey};

fn report(status: FinalExecutionStatus) -> PollEvent {
    PollEvent::from_response(status, 10, &vec![20, 30])
}

fn pending() -> PollEvent {
    report(FinalExecutionStatus::Started)
}

fn policy(max_rounds: u32) -> PollPolicy {
    PollPolicy { max_rounds, initial_delay_ms: 100, max_delay_ms: 1000 }
}

fn signer() -> InMemorySigner {
    InMemorySigner::from_secret_key(
        AccountId::from_str("alice").unwrap(),
        SecretKey::from_parts(vec![1; 32], vec![2; 32]),
    )
}

#[test]
fn one_round_budget_times_out() {
    let policy = policy(1);
    let (state, action) = policy.start();
    assert_eq!(action, PollAction::Query { delay_ms: 0 });
    let (state, action) = policy.step(state, pending());
    assert_eq!(state.rounds_done, 1);
    assert_eq!(action, PollAction::Finish(Err(Error::PollTimeout)));
}

#[test]
fn empty_budget_times_out_at_once() {
    let (state, action) = policy(0).start();
    assert_eq!(state.rounds_done, 0);
    assert_eq!(action, PollAction::Finish(Err(Error::PollTimeout)));
    let (after, action) = policy(0).step(state, report(FinalExecutionStatus::SuccessValue(vec![])));
    assert_eq!(after, state);
    assert_eq!(action, PollAction::Finish(Err(Error::PollTimeout)));
}

#[test]
fn never_final_node_spends_the_whole_budget() {
    let policy = policy(6);
    let (mut state, action) = policy.start();
    assert_eq!(action, PollAction::Query { delay_ms: 0 });
    let mut delays = vec![];
    let mut rounds = 0;
    loop {
        let status = if rounds % 2 == 0 {
            FinalExecutionStatus::NotStarted
        } else {
            FinalExecutionStatus::Started
        };
        let (next, action) = policy.step(state, report(status));
        state = next;
        rounds += 1;
        match action {
            PollAction::Query { delay_ms } => delays.push(delay_ms),
            PollAction::Finish(result) => {
                assert_eq!(result, Err(Error::PollTimeout));
                break;
            }
        }
        assert!(rounds < 100);
    }
    assert_eq!(rounds, 6);
    assert_eq!(state.rounds_done, 6);
    assert_eq!(delays, vec![100, 200, 400, 800, 1000]);
}

#[test]
fn backoff_starts_at_the_cap_when_the_initial_delay_is_above_it() {
    let policy = PollPolicy { max_rounds: 3, initial_delay_ms: 5000, max_delay_ms: 1000 };
    let (state, _) = policy.start();
    assert_eq!(state, PollState { rounds_done: 0, delay_ms: 1000 });
    let (state, action) = policy.step(state, pending());
    assert_eq!(action, PollAction::Query { delay_ms: 1000 });
    assert_eq!(state, PollState { rounds_done: 1, delay_ms: 1000 });
}

#[test]
fn backoff_does_not_overflow() {
    let policy = PollPolicy { max_rounds: 3, initial_delay_ms: u64::MAX, max_delay_ms: u64::MAX };
    let (state, _) = policy.start();
    let (state, action) = policy.step(state, pending());
    assert_eq!(action, PollAction::Query { delay_ms: u64::MAX });
    assert_eq!(state.delay_ms, u64::MAX);
}

#[test]
fn final_success_ends_the_poll_with_details() {
    let policy = policy(5);
    let (state, _) = policy.start();
    let (state, action) = policy.step(state, pending());
    assert_eq!(action, PollAction::Query { delay_ms: 100 });
    let (state, action) =
        policy.step(state, report(FinalExecutionStatus::SuccessValue(vec![1, 2, 3])));
    assert_eq!(state.rounds_done, 2);
    assert_eq!(
        action,
        PollAction::Finish(Ok(CallExecutionDetails {
            total_gas_burnt: 60,
            status: ExecutionOutcome::SuccessValue(vec![1, 2, 3]),
        }))
    );
}

#[test]
fn final_success_without_a_value() {
    let policy = policy(1);
    let (state, _) = policy.start();
    let (_, action) = policy.step(state, report(FinalExecutionStatus::SuccessValue(vec![])));
    assert_eq!(
        action,
        PollAction::Finish(Ok(CallExecutionDetails {
            total_gas_burnt: 60,
            status: ExecutionOutcome::SuccessEmpty,
        }))
    );
}

#[test]
fn final_failure_is_an_execution_failure() {
    let policy = policy(5);
    let (state, _) = policy.start();
    let (_, action) =
        policy.step(state, report(FinalExecutionStatus::Failure("gas exhausted".to_string())));
    assert_eq!(
        action,
        PollAction::Finish(Err(Error::ExecutionFailure("gas exhausted".to_string())))
    );
}

#[test]
fn unreachable_node_is_a_transport_error() {
    let policy = policy(5);
    let (state, _) = policy.start();
    let (_, action) = policy.step(state, PollEvent::Unreachable("connection refused".to_string()));
    assert_eq!(
        action,
        PollAction::Finish(Err(Error::TransportError("connection refused".to_string())))
    );
}

#[test]
fn gas_that_does_not_fit_is_a_malformed_response() {
    let policy = policy(5);
    let (state, _) = policy.start();
    let event =
        PollEvent::from_response(FinalExecutionStatus::SuccessValue(vec![]), u64::MAX, &vec![0, 1]);
    assert_eq!(
        event,
        PollEvent::Unreachable("malformed response: total gas out of range".to_string())
    );
    let (_, action) = policy.step(state, event);
    assert_eq!(
        action,
        PollAction::Finish(Err(Error::TransportError(
            "malformed response: total gas out of range".to_string()
        )))
    );
}

#[test]
fn response_carries_the_total_gas() {
    assert_eq!(
        PollEvent::from_response(FinalExecutionStatus::Started, 10, &vec![20, 30]),
        PollEvent::Report(StatusReport { status: FinalExecutionStatus::Started, gas_burnt: 60 })
    );
    assert_eq!(
        PollEvent::from_response(FinalExecutionStatus::NotStarted, u64::MAX, &vec![]),
        PollEvent::Report(StatusReport {
            status: FinalExecutionStatus::NotStarted,
            gas_burnt: u64::MAX
        })
    );
}

#[test]
fn spent_budget_ignores_even_a_final_answer() {
    let policy = policy(2);
    let (state, _) = policy.start();
    let (state, _) = policy.step(state, pending());
    let (state, action) = policy.step(state, pending());
    assert_eq!(action, PollAction::Finish(Err(Error::PollTimeout)));
    let (after, action) = policy.step(state, report(FinalExecutionStatus::SuccessValue(vec![1])));
    assert_eq!(after, state);
    assert_eq!(action, PollAction::Finish(Err(Error::PollTimeout)));
}

#[test]
fn total_gas_is_the_sum() {
    assert_eq!(total_gas_burnt(0, &vec![]), Some(0));
    assert_eq!(total_gas_burnt(5, &vec![]), Some(5));
    assert_eq!(total_gas_burnt(5, &vec![1, 2, 3]), Some(11));
    assert_eq!(total_gas_burnt(u64::MAX - 6, &vec![1, 2, 3]), Some(u64::MAX));
    assert_eq!(total_gas_burnt(u64::MAX - 5, &vec![1, 2, 3]), None);
    assert_eq!(total_gas_burnt(1, &vec![u64::MAX, 0]), None);
}

#[test]
fn replayed_transaction_is_a_chain_rejection() {
    let client = Client::new("http://localhost:3030".to_string());
    let (_, first) = client.after_broadcast(BroadcastEvent::Accepted);
    assert_eq!(first, PollAction::Query { delay_ms: 0 });
    let (_, second) =
        client.after_broadcast(BroadcastEvent::Rejected("InvalidNonce".to_string()));
    assert_eq!(second, PollAction::Finish(Err(Error::ChainRejection("InvalidNonce".to_string()))));
    assert!(!Error::ChainRejection("InvalidNonce".to_string()).is_retryable());
}

#[test]
fn unreachable_node_on_broadcast_is_a_transport_error() {
    let client = Client::new("http://localhost:3030".to_string());
    let (state, action) = client.after_broadcast(BroadcastEvent::Unreachable("reset".to_string()));
    assert_eq!(state, PollState { rounds_done: 0, delay_ms: 100 });
    assert_eq!(action, PollAction::Finish(Err(Error::TransportError("reset".to_string()))));
}

#[test]
fn accepted_transaction_with_an_empty_budget_times_out() {
    let client = Client::new("x".to_string()).with_policy(policy(0));
    assert_eq!(client.rpc_addr, "x");
    let (_, action) = client.after_broadcast(BroadcastEvent::Accepted);
    assert_eq!(action, PollAction::Finish(Err(Error::PollTimeout)));
}

#[test]
fn default_policy() {
    let client = Client::new("x".to_string());
    assert_eq!(
        client.policy,
        PollPolicy { max_rounds: 10, initial_delay_ms: 100, max_delay_ms: 3200 }
    );
}

#[test]
fn transaction_takes_the_next_nonce() {
    let client = Client::new("x".to_string());
    let request = TransactionRequest {
        signer: signer(),
        receiver_id: AccountId::from_str("bob").unwrap(),
        actions: vec![Action::Transfer { deposit: 1 }, Action::CreateAccount],
    };
    let transaction = client.build_transaction(request, 41, vec![7; 32]);
    assert_eq!(
        transaction,
        Transaction {
            signer_id: AccountId::from_str("alice").unwrap(),
            public_key: signer().public_key(),
            nonce: 42,
            receiver_id: AccountId::from_str("bob").unwrap(),
            block_hash: vec![7; 32],
            actions: vec![Action::Transfer { deposit: 1 }, Action::CreateAccount],
        }
    );
}

#[test]
fn retry_is_for_transport_errors_and_timeouts() {
    assert!(Error::TransportError("x".to_string()).is_retryable());
    assert!(Error::PollTimeout.is_retryable());
    assert!(!Error::ChainRejection("x".to_string()).is_retryable());
    assert!(!Error::ExecutionFailure("x".to_string()).is_retryable());
    assert!(!Error::LaunchFailure("x".to_string()).is_retryable());
    assert!(!Error::LivenessTimeout.is_retryable());
    assert!(!Error::HelperServiceError("x".to_string()).is_retryable());
}

#[test]
fn launch_errors_are_fatal_to_the_backend() {
    assert!(Error::LaunchFailure("x".to_string()).is_fatal_to_backend());
    assert!(Error::LivenessTimeout.is_fatal_to_backend());
    assert!(!Error::TransportError("x".to_string()).is_fatal_to_backend());
    assert!(!Error::PollTimeout.is_fatal_to_backend());
    assert!(!Error::HelperServiceError("x".to_string()).is_fatal_to_backend());
}

#[test]
fn error_messages() {
    assert_eq!(Error::TransportError("a".to_string()).message(), "transport error: a");
    assert_eq!(Error::ChainRejection("b".to_string()).message(), "transaction rejected: b");
    assert_eq!(Error::ExecutionFailure("c".to_string()).message(), "execution failed: c");
    assert_eq!(
        Error::PollTimeout.message(),
        "transaction not finalized within the polling budget"
    );
    assert_eq!(Error::LaunchFailure("d".to_string()).message(), "sandbox launch failed: d");
    assert_eq!(Error::LivenessTimeout.message(), "sandbox never became reachable");
    assert_eq!(Error::HelperServiceError("e".to_string()).message(), "helper service error: e");
}

#[test]
fn statuses_and_outcomes() {
    assert!(!FinalExecutionStatus::NotStarted.is_terminal());
    assert!(!FinalExecutionStatus::Started.is_terminal());
    assert!(FinalExecutionStatus::Failure("x".to_string()).is_terminal());
    assert!(FinalExecutionStatus::SuccessValue(vec![]).is_terminal());
    assert_eq!(ExecutionOutcome::from_value(vec![]), ExecutionOutcome::SuccessEmpty);
    assert_eq!(ExecutionOutcome::from_value(vec![0]), ExecutionOutcome::SuccessValue(vec![0]));
    assert!(ExecutionOutcome::SuccessEmpty.is_success());
    assert!(ExecutionOutcome::SuccessValue(vec![1]).is_success());
    assert!(!ExecutionOutcome::Failure("x".to_string()).is_success());
}

#[test]
fn into_result_tells_success_from_failure() {
    let ok = CallExecutionDetails { total_gas_burnt: 1, status: ExecutionOutcome::SuccessEmpty };
    assert_eq!(ok.clone().into_result(), Ok(ok.clone()));
    let failed = CallExecutionDetails {
        total_gas_burnt: 1,
        status: ExecutionOutcome::Failure("panicked".to_string()),
    };
    assert_eq!(
        failed.clone().into_result(),
        Err(Error::ExecutionFailure("panicked".to_string()))
    );
    assert_eq!(CallExecution { result: 5u8, details: ok }.into_result(), Ok(5u8));
    assert_eq!(
        CallExecution { result: 5u8, details: failed }.into_result(),
        Err(Error::ExecutionFailure("panicked".to_string()))
    );
}
