//! Waiting for finality: the decisions of the loop that asks a node for the
//! status of a submitted transaction until the status is final or the
//! budget of rounds is spent.
//!
//! The caller owns the loop. It starts with [`PollPolicy::start`], performs
//! the action it is given (wait, then ask the node), and hands what the node
//! answered to [`PollPolicy::step`], until the action is
//! [`PollAction::Finish`].

use crate::error::Error;
use crate::network::result::{
    total_gas, total_gas_burnt, CallExecutionDetails, ExecutionOutcome, FinalExecutionStatus,
};
use vstd::prelude::*;
use vstd::string::*;

verus! {

/// How long and how often to ask.
#[derive(Clone, Copy, Debug, PartialEq, Eq)]
pub struct PollPolicy {
    /// How many times the node may be asked in all.
    pub max_rounds: u32,
    /// The wait before the second question, in milliseconds.
    pub initial_delay_ms: u64,
    /// The longest wait between two questions, in milliseconds.
    pub max_delay_ms: u64,
}

/// Where the loop stands between two questions.
#[derive(Clone, Copy, Debug, PartialEq, Eq)]
pub struct PollState {
    /// How many answers have been taken in.
    pub rounds_done: u32,
    /// The wait that the next unfinished answer will ask for.
    pub delay_ms: u64,
}

/// What a node answered to one status query.
#[derive(Clone, Debug, PartialEq, Eq)]
pub struct StatusReport {
    pub status: FinalExecutionStatus,
    /// Gas burnt so far by the transaction and its receipts together.
    pub gas_burnt: u64,
}

/// What came of one status query.
#[derive(Clone, Debug, PartialEq, Eq)]
pub enum PollEvent {
    /// The node answered.
    Report(StatusReport),
    /// The node could not be reached, or what it sent could not be read.
    Unreachable(String),
}

/// What the caller of the loop does next.
#[derive(Debug, PartialEq, Eq)]
pub enum PollAction {
    /// Wait this long, then ask the node again.
    Query { delay_ms: u64 },
    /// Stop: this is the outcome of the submission.
    Finish(Result<CallExecutionDetails, Error>),
}

/// The smaller of two numbers.
pub open spec fn min_nat(a: nat, b: nat) -> nat {
    if a <= b {
        a
    } else {
        b
    }
}

/// Two to the power `k`.
pub open spec fn pow2(k: nat) -> nat
    decreases k,
{
    if k == 0 {
        1
    } else {
        2 * pow2((k - 1) as nat)
    }
}

/// The wait after the `k + 1`-th unfinished answer: the initial delay,
/// doubled `k` times, and never above the cap.
pub open spec fn backoff(initial: nat, cap: nat, k: nat) -> nat
    decreases k,
{
    if k == 0 {
        min_nat(initial, cap)
    } else {
        min_nat(2 * backoff(initial, cap, (k - 1) as nat), cap)
    }
}

/// The backoff in closed form: exponential in the round, bounded by the cap.
pub proof fn lemma_backoff_closed_form(initial: nat, cap: nat, k: nat)
    ensures
        backoff(initial, cap, k) == min_nat(initial * pow2(k), cap),
    decreases k,
{
    if k > 0 {
        lemma_backoff_closed_form(initial, cap, (k - 1) as nat);
        assert(initial * pow2(k) == 2 * (initial * pow2((k - 1) as nat))) by (nonlinear_arith)
            requires
                pow2(k) == 2 * pow2((k - 1) as nat),
        ;
    } else {
        assert(initial * pow2(0) == initial) by (nonlinear_arith)
            requires
                pow2(0) == 1,
        ;
    }
}

/// The backoff never shrinks from one round to the next and never exceeds
/// the cap.
pub proof fn lemma_backoff_bounded_monotonic(initial: nat, cap: nat, k: nat)
    ensures
        backoff(initial, cap, k) <= cap,
        backoff(initial, cap, k) <= backoff(initial, cap, k + 1),
    decreases k,
{
    if k > 0 {
        lemma_backoff_bounded_monotonic(initial, cap, (k - 1) as nat);
    }
}

/// The text of the transport error that reports gas figures whose total
/// does not fit in 64 bits.
pub open spec fn gas_overflow_text() -> Seq<char> {
    "malformed response: total gas out of range"@
}

impl PollEvent {
    /// Whether the event leaves the outcome of the transaction open: the
    /// node answered, and the status it gave is not final.
    pub open spec fn pending(self) -> bool {
        self matches PollEvent::Report(report) && !report.status.terminal()
    }

    /// The event that an answer of the node stands for. The gas figures
    /// are added up; an answer whose total does not fit in 64 bits cannot
    /// be read and counts as a node that could not be reached.
    pub fn from_response(
        status: FinalExecutionStatus,
        transaction_gas: u64,
        receipts_gas: &Vec<u64>,
    ) -> (event: PollEvent)
        ensures
            total_gas(transaction_gas, receipts_gas@) <= u64::MAX ==> event == PollEvent::Report(
                StatusReport {
                    status,
                    gas_burnt: total_gas(transaction_gas, receipts_gas@) as u64,
                },
            ),
            total_gas(transaction_gas, receipts_gas@) > u64::MAX ==> (event matches PollEvent::Unreachable(
                reason,
            ) && reason@ == gas_overflow_text()),
    {
        match total_gas_burnt(transaction_gas, receipts_gas) {
            Some(gas_burnt) => PollEvent::Report(StatusReport { status, gas_burnt }),
            None => PollEvent::Unreachable(
                String::from_str("malformed response: total gas out of range"),
            ),
        }
    }
}

impl PollPolicy {
    /// The state after `k` unfinished answers.
    pub open spec fn state_after(self, k: nat) -> PollState {
        PollState {
            rounds_done: k as u32,
            delay_ms: backoff(self.initial_delay_ms as nat, self.max_delay_ms as nat, k) as u64,
        }
    }

    /// Whether the budget was spent before `state`, so that no question is
    /// outstanding.
    pub open spec fn spent(self, state: PollState) -> bool {
        state.rounds_done >= self.max_rounds
    }

    /// The state that follows `state` when one more answer has been taken
    /// in: one more round is done, and the delay has doubled up to the cap.
    pub open spec fn advance(self, state: PollState) -> PollState {
        PollState {
            rounds_done: (state.rounds_done + 1) as u32,
            delay_ms: min_nat(2 * state.delay_ms as nat, self.max_delay_ms as nat) as u64,
        }
    }

    /// What the loop does on an event.
    ///
    /// With the budget already spent the event is not looked at and the
    /// loop ends with a timeout. Otherwise a node that could not be reached
    /// ends the loop with a transport error, a final failure with an
    /// execution failure that carries the chain's reason, and a final
    /// success with the details of the execution. An answer that is not
    /// final asks for another round after the current delay, or ends the
    /// loop with a timeout if it spent the last round.
    pub open spec fn decide(self, state: PollState, event: PollEvent) -> PollAction {
        if self.spent(state) {
            PollAction::Finish(Err(Error::PollTimeout))
        } else {
            match event {
                PollEvent::Unreachable(reason) => PollAction::Finish(
                    Err(Error::TransportError(reason)),
                ),
                PollEvent::Report(report) => match report.status {
                    FinalExecutionStatus::Failure(reason) => PollAction::Finish(
                        Err(Error::ExecutionFailure(reason)),
                    ),
                    FinalExecutionStatus::SuccessValue(value) => PollAction::Finish(
                        Ok(
                            CallExecutionDetails {
                                total_gas_burnt: report.gas_burnt,
                                status: ExecutionOutcome::of_value(value),
                            },
                        ),
                    ),
                    _ => if state.rounds_done + 1 >= self.max_rounds {
                        PollAction::Finish(Err(Error::PollTimeout))
                    } else {
                        PollAction::Query { delay_ms: state.delay_ms }
                    },
                },
            }
        }
    }

    /// The state after an event: unchanged once the budget is spent, and
    /// advanced by one round otherwise.
    pub open spec fn follow(self, state: PollState) -> PollState {
        if self.spent(state) {
            state
        } else {
            self.advance(state)
        }
    }

    /// What a poll that stands at `state` comes to when it is fed `events`
    /// in order: the outcome with which it ends, or `None` while it still
    /// asks for another round after the last of them.
    pub open spec fn run(self, state: PollState, events: Seq<PollEvent>) -> Option<
        Result<CallExecutionDetails, Error>,
    >
        decreases events.len(),
    {
        if events.len() == 0 {
            None
        } else {
            match self.decide(state, events[0]) {
                PollAction::Finish(outcome) => Some(outcome),
                PollAction::Query { .. } => self.run(self.follow(state), events.drop_first()),
            }
        }
    }

    /// Begins a poll: the first question is asked at once, unless the
    /// budget allows none.
    pub fn start(&self) -> (r: (PollState, PollAction))
        ensures
            r.0 == self.state_after(0),
            r.1 == if self.max_rounds == 0 {
                PollAction::Finish(Err(Error::PollTimeout))
            } else {
                PollAction::Query { delay_ms: 0 }
            },
    {
        let delay_ms: u64 = if self.initial_delay_ms <= self.max_delay_ms {
            self.initial_delay_ms
        } else {
            self.max_delay_ms
        };
        let state = PollState { rounds_done: 0, delay_ms };
        if self.max_rounds == 0 {
            (state, PollAction::Finish(Err(Error::PollTimeout)))
        } else {
            (state, PollAction::Query { delay_ms: 0 })
        }
    }

    /// Takes in what one status query came to and decides what is next.
    pub fn step(&self, state: PollState, event: PollEvent) -> (r: (PollState, PollAction))
        ensures
            r.0 == self.follow(state),
            r.1 == self.decide(state, event),
    {
        if state.rounds_done >= self.max_rounds {
            return (state, PollAction::Finish(Err(Error::PollTimeout)));
        }
        let doubled: u64 = if state.delay_ms > u64::MAX / 2 {
            u64::MAX
        } else {
            state.delay_ms * 2
        };
        let delay_ms: u64 = if doubled <= self.max_delay_ms {
            doubled
        } else {
            self.max_delay_ms
        };
        let next = PollState { rounds_done: state.rounds_done + 1, delay_ms };
        let action = match event {
            PollEvent::Unreachable(reason) => PollAction::Finish(Err(Error::TransportError(reason))),
            PollEvent::Report(report) => match report.status {
                FinalExecutionStatus::Failure(reason) => PollAction::Finish(
                    Err(Error::ExecutionFailure(reason)),
                ),
                FinalExecutionStatus::SuccessValue(value) => PollAction::Finish(
                    Ok(
                        CallExecutionDetails {
                            total_gas_burnt: report.gas_burnt,
                            status: ExecutionOutcome::from_value(value),
                        },
                    ),
                ),
                _ => {
                    if next.rounds_done >= self.max_rounds {
                        PollAction::Finish(Err(Error::PollTimeout))
                    } else {
                        PollAction::Query { delay_ms: state.delay_ms }
                    }
                },
            },
        };
        (next, action)
    }
}

/// After `k` unfinished answers, with `k` within the budget, the poll
/// stands at the `k`-th state: `k` rounds are done and the delay is the
/// backoff of that round.
pub proof fn lemma_advance_follows_backoff(policy: PollPolicy, k: nat)
    requires
        k < policy.max_rounds,
    ensures
        policy.follow(policy.state_after(k)) == policy.state_after(k + 1),
{
    lemma_backoff_bounded_monotonic(policy.initial_delay_ms as nat, policy.max_delay_ms as nat, k);
    lemma_backoff_bounded_monotonic(
        policy.initial_delay_ms as nat,
        policy.max_delay_ms as nat,
        k + 1,
    );
}

/// A poll always ends within its budget: whatever the node answers, once
/// as many events as the budget has rounds have been taken in (and at
/// least one), the poll has ended with an outcome.
pub proof fn lemma_poll_ends_within_budget(policy: PollPolicy, k: nat, events: Seq<PollEvent>)
    requires
        k <= policy.max_rounds,
        events.len() >= 1,
        events.len() >= policy.max_rounds - k,
    ensures
        policy.run(policy.state_after(k), events) is Some,
    decreases events.len(),
{
    let state = policy.state_after(k);
    match policy.decide(state, events[0]) {
        PollAction::Finish(_) => {},
        PollAction::Query { .. } => {
            assert(k + 1 < policy.max_rounds);
            lemma_advance_follows_backoff(policy, k);
            lemma_poll_ends_within_budget(policy, k + 1, events.drop_first());
        },
    }
}

/// A poll against a node that never reports a final status ends, and ends
/// with a timeout: while fewer unfinished answers have come in than the
/// budget has rounds the poll still asks, and the answer that spends the
/// last round ends it with `PollTimeout`.
pub proof fn lemma_never_final_times_out(policy: PollPolicy, k: nat, events: Seq<PollEvent>)
    requires
        k < policy.max_rounds,
        forall|i: int| 0 <= i < events.len() ==> (#[trigger] events[i]).pending(),
    ensures
        events.len() < policy.max_rounds - k ==> policy.run(policy.state_after(k), events) is None,
        events.len() >= policy.max_rounds - k ==> policy.run(policy.state_after(k), events) == Some(
            Err::<CallExecutionDetails, Error>(Error::PollTimeout),
        ),
    decreases events.len(),
{
    if events.len() > 0 {
        assert(events[0].pending());
        if k + 1 < policy.max_rounds {
            lemma_advance_follows_backoff(policy, k);
            assert forall|i: int| 0 <= i < events.drop_first().len() implies (
            #[trigger] events.drop_first()[i]).pending() by {
                assert(events.drop_first()[i] == events[i + 1]);
            }
            lemma_never_final_times_out(policy, k + 1, events.drop_first());
        }
    }
}

} // verus!
