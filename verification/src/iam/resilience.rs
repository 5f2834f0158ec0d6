//! Bounded retries of read-only introspection; token and proof mutations are
//! never retried.

use vstd::prelude::*;

use crate::iam::official::{sdk_error, sdk_error_spec, Operation};
use crate::iam::IamClientError;

verus! {

/// Milliseconds that one introspection may take over all its attempts.
pub const BUDGET_MILLIS: u64 = 9_000;

/// Failure classes of the identity client that decisions tell apart.
#[derive(Clone, Copy, Debug, PartialEq, Eq, Structural)]
pub enum SdkFailure {
    /// The service answered with its error envelope.
    Api {
        /// HTTP status.
        status: u16,
    },
    /// A limit was reached.
    RateLimited {
        /// Milliseconds to wait.
        retry_after_millis: u64,
    },
    /// The request never completed.
    Transport {
        /// It ran out of time.
        timeout: bool,
        /// It never connected.
        connect: bool,
    },
    /// A failure arrived without the error envelope.
    Unstructured {
        /// HTTP status.
        status: u16,
    },
    /// The answer or the request does not meet the contract.
    Other,
}

/// The class of a failure, safe to log.
pub open spec fn failure_class_spec(failure: SdkFailure) -> &'static str {
    match failure {
        SdkFailure::Transport { timeout: true, .. } => "timeout",
        SdkFailure::Transport { connect: true, .. } => "connection",
        SdkFailure::Transport { .. } => "transport",
        SdkFailure::RateLimited { .. } => "rate_limited",
        SdkFailure::Api { status: 429 } => "rate_limited",
        SdkFailure::Api { .. } => "upstream_http",
        SdkFailure::Unstructured { .. } => "unstructured_http",
        SdkFailure::Other => "invalid_response",
    }
}

/// The class of a failure, safe to log.
pub fn failure_class(failure: SdkFailure) -> (class: &'static str)
    ensures
        class == failure_class_spec(failure),
{
    match failure {
        SdkFailure::Transport { timeout, connect } => {
            if timeout {
                "timeout"
            } else if connect {
                "connection"
            } else {
                "transport"
            }
        },
        SdkFailure::RateLimited { .. } => "rate_limited",
        SdkFailure::Api { status } => {
            if status == 429 {
                "rate_limited"
            } else {
                "upstream_http"
            }
        },
        SdkFailure::Unstructured { .. } => "unstructured_http",
        SdkFailure::Other => "invalid_response",
    }
}

/// Whether a status reports a gateway that could not reach the service.
pub open spec fn is_gateway_status(status: u16) -> bool {
    502 <= status <= 504
}

/// Milliseconds to wait before a failed attempt may be repeated. The jitter
/// byte spreads callers apart; a rate limit is waited out in full.
pub open spec fn retry_delay_spec(failure: SdkFailure, jitter_byte: u8) -> Option<u64> {
    let jitter = (200 + jitter_byte) as u64;
    match failure {
        SdkFailure::Transport { timeout, connect } => if timeout || connect {
            Some(jitter)
        } else {
            None
        },
        SdkFailure::Api { status } => if is_gateway_status(status) {
            Some(jitter)
        } else {
            None
        },
        SdkFailure::Unstructured { status } => if is_gateway_status(status) {
            Some(jitter)
        } else {
            None
        },
        SdkFailure::RateLimited { retry_after_millis } => if retry_after_millis > jitter {
            Some(retry_after_millis)
        } else {
            Some(jitter)
        },
        SdkFailure::Other => None,
    }
}

/// Milliseconds to wait before a failed attempt may be repeated.
pub fn retry_delay(failure: SdkFailure, jitter_byte: u8) -> (delay: Option<u64>)
    ensures
        delay == retry_delay_spec(failure, jitter_byte),
{
    let jitter: u64 = 200 + jitter_byte as u64;
    match failure {
        SdkFailure::Transport { timeout, connect } => {
            if timeout || connect {
                Some(jitter)
            } else {
                None
            }
        },
        SdkFailure::Api { status } | SdkFailure::Unstructured { status } => {
            if 502 <= status && status <= 504 {
                Some(jitter)
            } else {
                None
            }
        },
        SdkFailure::RateLimited { retry_after_millis } => {
            if retry_after_millis > jitter {
                Some(retry_after_millis)
            } else {
                Some(jitter)
            }
        },
        SdkFailure::Other => None,
    }
}

/// What ended one attempt.
#[derive(Clone, Copy, Debug, PartialEq, Eq, Structural)]
pub enum AttemptOutcome {
    /// The service answered.
    Answered,
    /// The attempt failed.
    Failed {
        /// How it failed.
        failure: SdkFailure,
        /// Random byte for the delay.
        jitter_byte: u8,
        /// Milliseconds since the first attempt started.
        elapsed_millis: u64,
    },
    /// The budget ran out while the attempt was under way.
    DeadlinePassed,
}

/// What the caller does after one attempt.
#[derive(Clone, Copy, Debug)]
pub enum AttemptDecision {
    /// Hand the answer on.
    Deliver,
    /// Wait, then make the second attempt.
    Retry {
        /// Milliseconds to wait.
        delay_millis: u64,
    },
    /// Give up.
    GiveUp {
        /// What to report.
        error: IamClientError,
    },
}

/// What the caller does after an attempt: only a first attempt is repeated,
/// and only where its delay ends before the budget does.
pub open spec fn after_attempt_spec(
    attempt: u32,
    outcome: AttemptOutcome,
    budget_millis: u64,
) -> AttemptDecision {
    match outcome {
        AttemptOutcome::Answered => AttemptDecision::Deliver,
        AttemptOutcome::DeadlinePassed => AttemptDecision::GiveUp {
            error: IamClientError::Unavailable { reason: "retry_budget_exhausted" },
        },
        AttemptOutcome::Failed { failure, jitter_byte, elapsed_millis } => {
            match retry_delay_spec(failure, jitter_byte) {
                Some(delay) if attempt == 1 && elapsed_millis + delay < budget_millis => {
                    AttemptDecision::Retry { delay_millis: delay }
                },
                _ => AttemptDecision::GiveUp {
                    error: sdk_error_spec(failure, Operation::Service),
                },
            }
        },
    }
}

/// Decides what follows an introspection attempt.
pub fn after_attempt(attempt: u32, outcome: AttemptOutcome, budget_millis: u64) -> (decision:
    AttemptDecision)
    ensures
        decision == after_attempt_spec(attempt, outcome, budget_millis),
{
    match outcome {
        AttemptOutcome::Answered => AttemptDecision::Deliver,
        AttemptOutcome::DeadlinePassed => AttemptDecision::GiveUp {
            error: IamClientError::Unavailable { reason: "retry_budget_exhausted" },
        },
        AttemptOutcome::Failed { failure, jitter_byte, elapsed_millis } => {
            match retry_delay(failure, jitter_byte) {
                Some(delay) => {
                    if attempt == 1 && elapsed_millis < budget_millis && delay < budget_millis
                        - elapsed_millis {
                        AttemptDecision::Retry { delay_millis: delay }
                    } else {
                        AttemptDecision::GiveUp { error: sdk_error(failure, Operation::Service) }
                    }
                },
                None => AttemptDecision::GiveUp { error: sdk_error(failure, Operation::Service) },
            }
        },
    }
}

/// No introspection makes a third attempt.
pub proof fn law_at_most_two_attempts(attempt: u32, outcome: AttemptOutcome, budget_millis: u64)
    requires
        attempt >= 2,
    ensures
        after_attempt_spec(attempt, outcome, budget_millis) !is Retry,
{
}

/// A denial or a malformed success is never repeated.
pub proof fn law_denials_are_final(
    attempt: u32,
    failure: SdkFailure,
    jitter_byte: u8,
    elapsed_millis: u64,
    budget_millis: u64,
)
    requires
        failure is Other || (failure matches SdkFailure::Api { status } && status < 500),
    ensures
        after_attempt_spec(
            attempt,
            AttemptOutcome::Failed { failure, jitter_byte, elapsed_millis },
            budget_millis,
        ) is GiveUp,
{
}

/// A repeated attempt starts before the budget ends.
pub proof fn law_retries_stay_within_budget(
    attempt: u32,
    failure: SdkFailure,
    jitter_byte: u8,
    elapsed_millis: u64,
    budget_millis: u64,
)
    ensures
        after_attempt_spec(
            attempt,
            AttemptOutcome::Failed { failure, jitter_byte, elapsed_millis },
            budget_millis,
        ) matches AttemptDecision::Retry { delay_millis } ==> elapsed_millis + delay_millis
            < budget_millis,
{
}

} // verus!
