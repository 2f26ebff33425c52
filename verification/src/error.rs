//! The failure taxonomy shared by every operation of the crate.

use vstd::prelude::*;
use vstd::string::*;

verus! {

/// Why an operation did not produce its result.
#[derive(Clone, Debug, PartialEq, Eq)]
pub enum Error {
    /// The endpoint could not be reached or answered with something malformed.
    TransportError(String),
    /// The node refused the transaction outright.
    ChainRejection(String),
    /// The transaction was finalized, and the chain reports that it failed.
    ExecutionFailure(String),
    /// Finality was not observed within the polling budget.
    PollTimeout,
    /// The sandbox node could not be started.
    LaunchFailure(String),
    /// The sandbox node started but never answered a liveness probe.
    LivenessTimeout,
    /// The helper service could not create and fund the account.
    HelperServiceError(String),
}

impl Error {
    /// Whether a caller may try the same operation again with a fresh nonce
    /// and block-hash reference.
    pub open spec fn retryable(self) -> bool {
        self is TransportError || self is PollTimeout
    }

    /// Whether the error makes backend construction impossible.
    pub open spec fn fatal_to_backend(self) -> bool {
        self is LaunchFailure || self is LivenessTimeout
    }

    /// The fixed text that introduces each kind of error in a message.
    pub open spec fn label(self) -> Seq<char> {
        match self {
            Error::TransportError(_) => "transport error: "@,
            Error::ChainRejection(_) => "transaction rejected: "@,
            Error::ExecutionFailure(_) => "execution failed: "@,
            Error::PollTimeout => "transaction not finalized within the polling budget"@,
            Error::LaunchFailure(_) => "sandbox launch failed: "@,
            Error::LivenessTimeout => "sandbox never became reachable"@,
            Error::HelperServiceError(_) => "helper service error: "@,
        }
    }

    /// The reason carried by the error, empty for the kinds that carry none.
    pub open spec fn reason(self) -> Seq<char> {
        match self {
            Error::TransportError(r) => r@,
            Error::ChainRejection(r) => r@,
            Error::ExecutionFailure(r) => r@,
            Error::PollTimeout => Seq::empty(),
            Error::LaunchFailure(r) => r@,
            Error::LivenessTimeout => Seq::empty(),
            Error::HelperServiceError(r) => r@,
        }
    }

    pub fn is_retryable(&self) -> (r: bool)
        ensures
            r == self.retryable(),
    {
        match self {
            Error::TransportError(_) => true,
            Error::PollTimeout => true,
            _ => false,
        }
    }

    pub fn is_fatal_to_backend(&self) -> (r: bool)
        ensures
            r == self.fatal_to_backend(),
    {
        match self {
            Error::LaunchFailure(_) => true,
            Error::LivenessTimeout => true,
            _ => false,
        }
    }

    /// A human-readable rendering: the label of the kind followed by the
    /// reason it carries.
    pub fn message(&self) -> (text: String)
        ensures
            text@ == self.label() + self.reason(),
    {
        match self {
            Error::TransportError(r) => String::from_str("transport error: ").concat(r.as_str()),
            Error::ChainRejection(r) => String::from_str("transaction rejected: ").concat(
                r.as_str(),
            ),
            Error::ExecutionFailure(r) => String::from_str("execution failed: ").concat(
                r.as_str(),
            ),
            Error::PollTimeout => String::from_str(
                "transaction not finalized within the polling budget",
            ),
            Error::LaunchFailure(r) => String::from_str("sandbox launch failed: ").concat(
                r.as_str(),
            ),
            Error::LivenessTimeout => String::from_str("sandbox never became reachable"),
            Error::HelperServiceError(r) => String::from_str("helper service error: ").concat(
                r.as_str(),
            ),
        }
    }
}

} // verus!
