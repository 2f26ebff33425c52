//! What a submitted transaction came to.

use crate::error::Error;
use vstd::prelude::*;

verus! {

/// The status of a transaction as a node reports it when asked.
#[derive(Clone, Debug, PartialEq, Eq)]
pub enum FinalExecutionStatus {
    /// The transaction has not been turned into a receipt yet.
    NotStarted,
    /// Execution has begun and is not finished.
    Started,
    /// Execution is final and failed, for the given reason.
    Failure(String),
    /// Execution is final and succeeded with the given value, possibly empty.
    SuccessValue(Vec<u8>),
}

impl FinalExecutionStatus {
    /// A final status will not change any more.
    pub open spec fn terminal(self) -> bool {
        self is Failure || self is SuccessValue
    }

    pub fn is_terminal(&self) -> (r: bool)
        ensures
            r == self.terminal(),
    {
        match self {
            FinalExecutionStatus::Failure(_) => true,
            FinalExecutionStatus::SuccessValue(_) => true,
            _ => false,
        }
    }
}

/// The tagged outcome of a finalized transaction.
#[derive(Clone, Debug, PartialEq, Eq)]
pub enum ExecutionOutcome {
    /// It succeeded and returned these bytes, of which there is at least one.
    SuccessValue(Vec<u8>),
    /// It succeeded and returned nothing.
    SuccessEmpty,
    /// It failed, for the given reason.
    Failure(String),
}

impl ExecutionOutcome {
    pub open spec fn success(self) -> bool {
        !(self is Failure)
    }

    pub fn is_success(&self) -> (r: bool)
        ensures
            r == self.success(),
    {
        match self {
            ExecutionOutcome::Failure(_) => false,
            _ => true,
        }
    }

    /// The outcome that a successful return value stands for: empty bytes
    /// mean that nothing was returned.
    pub open spec fn of_value(value: Vec<u8>) -> ExecutionOutcome {
        if value@.len() == 0 {
            ExecutionOutcome::SuccessEmpty
        } else {
            ExecutionOutcome::SuccessValue(value)
        }
    }

    pub fn from_value(value: Vec<u8>) -> (outcome: ExecutionOutcome)
        ensures
            outcome == ExecutionOutcome::of_value(value),
    {
        if value.len() == 0 {
            ExecutionOutcome::SuccessEmpty
        } else {
            ExecutionOutcome::SuccessValue(value)
        }
    }
}

/// The sum of the gas that each receipt burnt.
pub open spec fn receipts_gas(receipts: Seq<u64>) -> nat
    decreases receipts.len(),
{
    if receipts.len() == 0 {
        0
    } else {
        receipts_gas(receipts.drop_last()) + receipts.last() as nat
    }
}

/// The gas that a transaction consumed in all: what converting it burnt
/// and what each of its receipts burnt.
pub open spec fn total_gas(transaction: u64, receipts: Seq<u64>) -> nat {
    transaction as nat + receipts_gas(receipts)
}

/// A longer prefix of the receipts never burnt less.
pub proof fn lemma_receipts_gas_monotonic(receipts: Seq<u64>, i: int)
    requires
        0 <= i <= receipts.len(),
    ensures
        receipts_gas(receipts.take(i)) <= receipts_gas(receipts),
    decreases receipts.len(),
{
    if i < receipts.len() {
        lemma_receipts_gas_monotonic(receipts.drop_last(), i);
        assert(receipts.drop_last().take(i) =~= receipts.take(i));
    } else {
        assert(receipts.take(i) =~= receipts);
    }
}

/// Adds up the gas of a transaction and of its receipts. `None` when the
/// total does not fit in 64 bits.
pub fn total_gas_burnt(transaction: u64, receipts: &Vec<u64>) -> (total: Option<u64>)
    ensures
        total_gas(transaction, receipts@) <= u64::MAX ==> total == Some(
            total_gas(transaction, receipts@) as u64,
        ),
        total_gas(transaction, receipts@) > u64::MAX ==> total is None,
{
    let mut sum: u64 = transaction;
    let mut i: usize = 0;
    assert(receipts@.take(0) =~= Seq::<u64>::empty());
    while i < receipts.len()
        invariant
            i <= receipts.len(),
            sum == total_gas(transaction, receipts@.take(i as int)),
        decreases receipts.len() - i,
    {
        proof {
            assert(receipts@.take(i + 1).drop_last() =~= receipts@.take(i as int));
            lemma_receipts_gas_monotonic(receipts@, i + 1);
        }
        match sum.checked_add(receipts[i]) {
            Some(next) => {
                sum = next;
            },
            None => {
                return None;
            },
        }
        i = i + 1;
    }
    assert(receipts@.take(receipts.len() as int) =~= receipts@);
    Some(sum)
}

/// The result of a finalized transaction: what it cost and how it ended.
#[derive(Clone, Debug, PartialEq, Eq)]
pub struct CallExecutionDetails {
    /// Total gas consumed by the transaction and its receipts.
    pub total_gas_burnt: u64,
    /// How execution ended.
    pub status: ExecutionOutcome,
}

impl CallExecutionDetails {
    /// `Ok` for a success, and the chain's reason as an `ExecutionFailure`
    /// otherwise.
    pub fn into_result(self) -> (r: Result<CallExecutionDetails, Error>)
        ensures
            self.status.success() ==> r == Ok::<CallExecutionDetails, Error>(self),
            self.status matches ExecutionOutcome::Failure(reason) ==> r == Err::<
                CallExecutionDetails,
                Error,
            >(Error::ExecutionFailure(reason)),
    {
        match self.status {
            ExecutionOutcome::Failure(reason) => Err(Error::ExecutionFailure(reason)),
            status => Ok(CallExecutionDetails { total_gas_burnt: self.total_gas_burnt, status }),
        }
    }
}

/// A typed result together with the details of the transaction that
/// produced it.
#[derive(Clone, Debug, PartialEq, Eq)]
pub struct CallExecution<T> {
    pub result: T,
    pub details: CallExecutionDetails,
}

impl<T> CallExecution<T> {
    /// The typed result if the transaction succeeded, and the chain's
    /// reason as an `ExecutionFailure` otherwise.
    pub fn into_result(self) -> (r: Result<T, Error>)
        ensures
            self.details.status.success() ==> r == Ok::<T, Error>(self.result),
            self.details.status matches ExecutionOutcome::Failure(reason) ==> r == Err::<T, Error>(
                Error::ExecutionFailure(reason),
            ),
    {
        match self.details.status {
            ExecutionOutcome::Failure(reason) => Err(Error::ExecutionFailure(reason)),
            _ => Ok(self.result),
        }
    }
}

} // verus!
