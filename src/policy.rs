use vstd::prelude::*;
use crate::error::ZinharoError;

verus! {

/// The calls that a worker retries.
#[derive(Debug, Clone, Copy, PartialEq, Eq, Structural)]
pub enum Operation {
    Login,
    Signup,
    Lease,
    Submit,
    Report,
}

/// What a caller does with the outcome of a call.
#[derive(Debug, Clone, Copy, PartialEq, Eq, Structural)]
pub enum Decision {
    /// The call succeeded: use its result.
    Proceed,
    /// Sleep this many seconds, then make the same call again.
    RetryAfter(u64),
    /// Stop retrying this call.
    GiveUp,
}

/// Cooldown after a rate limit on login.
pub const LOGIN_COOLDOWN: u64 = 30;
/// Cooldown after a rate limit on signup, which the coordinator limits hard.
pub const SIGNUP_COOLDOWN: u64 = 3600;
/// Cooldown after a rate limit on leasing.
pub const LEASE_COOLDOWN: u64 = 60;
/// Cooldown before polling again when no job is queued.
pub const IDLE_COOLDOWN: u64 = 120;
/// Cooldown after a rate limit on submit or report.
pub const RESULT_COOLDOWN: u64 = 30;
/// Cooldown after a transport failure during login, signup or leasing.
pub const CONNECT_COOLDOWN: u64 = 30;
/// Cooldown after a transport failure during submit or report.
pub const RESEND_COOLDOWN: u64 = 10;

/// The outcomes after which a call is made again.
pub open spec fn retryable(op: Operation, e: ZinharoError) -> bool {
    ||| e is Ratelimited
    ||| e is ReqwestError
    ||| (e is NoJobsAvailable && op == Operation::Lease)
}

pub open spec fn retry_delay(op: Operation, e: ZinharoError) -> u64 {
    if e is NoJobsAvailable {
        IDLE_COOLDOWN
    } else if e is Ratelimited {
        match op {
            Operation::Login => LOGIN_COOLDOWN,
            Operation::Signup => SIGNUP_COOLDOWN,
            Operation::Lease => LEASE_COOLDOWN,
            _ => RESULT_COOLDOWN,
        }
    } else {
        match op {
            Operation::Submit | Operation::Report => RESEND_COOLDOWN,
            _ => CONNECT_COOLDOWN,
        }
    }
}

/// The decision table shared by every retrying caller.
pub open spec fn decision(op: Operation, outcome: Result<(), ZinharoError>) -> Decision {
    match outcome {
        Ok(()) => Decision::Proceed,
        Err(e) => if retryable(op, e) {
            Decision::RetryAfter(retry_delay(op, e))
        } else {
            Decision::GiveUp
        },
    }
}

/// Decides what the caller of `op` does with `outcome`.
pub fn decide(op: Operation, outcome: &Result<(), ZinharoError>) -> (r: Decision)
    ensures
        r == decision(op, *outcome),
{
    match outcome {
        Ok(()) => Decision::Proceed,
        Err(ZinharoError::NoJobsAvailable) => {
            if op == Operation::Lease {
                Decision::RetryAfter(IDLE_COOLDOWN)
            } else {
                Decision::GiveUp
            }
        },
        Err(ZinharoError::Ratelimited) => Decision::RetryAfter(
            match op {
                Operation::Login => LOGIN_COOLDOWN,
                Operation::Signup => SIGNUP_COOLDOWN,
                Operation::Lease => LEASE_COOLDOWN,
                _ => RESULT_COOLDOWN,
            },
        ),
        Err(ZinharoError::ReqwestError(_)) => Decision::RetryAfter(
            match op {
                Operation::Submit | Operation::Report => RESEND_COOLDOWN,
                _ => CONNECT_COOLDOWN,
            },
        ),
        Err(_) => Decision::GiveUp,
    }
}

/// Transient outcomes (rate limit, transport failure, and on a lease an empty
/// queue) send the caller back to the same call after a positive cooldown;
/// every other failure ends the retries; success is used as it is.
pub proof fn lemma_retry_table(op: Operation, outcome: Result<(), ZinharoError>)
    ensures
        outcome is Ok ==> decision(op, outcome) == Decision::Proceed,
        outcome is Err && retryable(op, outcome->Err_0) ==> decision(op, outcome) is RetryAfter
            && decision(op, outcome)->RetryAfter_0 > 0,
        outcome is Err && !retryable(op, outcome->Err_0) ==> decision(op, outcome)
            == Decision::GiveUp,
        outcome matches Err(ZinharoError::NoJobsAvailable) && op == Operation::Lease ==> decision(
            op,
            outcome,
        ) == Decision::RetryAfter(IDLE_COOLDOWN),
{
}

} // verus!
