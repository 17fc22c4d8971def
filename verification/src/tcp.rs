//! Errors of the TCP client, and its retry policy.

use vstd::prelude::*;
use crate::protocol::ProtocolError;

verus! {

#[verifier::external_type_specification]
#[verifier::external_body]
pub struct ExJoinError(tokio::task::JoinError);

/// Why a call to the game mod failed.
#[derive(Debug)]
pub enum TcpClientError {
    Connection(String),
    AddressResolution(String),
    NotConnected,
    Io(std::io::Error),
    Protocol(ProtocolError),
    AsyncTask(tokio::task::JoinError),
}

/// The failures worth reconnecting for: connection, address, not-connected and
/// I/O errors. Protocol and task errors are final.
pub open spec fn retryable(e: TcpClientError) -> bool {
    e is Connection || e is AddressResolution || e is NotConnected || e is Io
}

impl TcpClientError {
    /// Whether reconnecting and retrying could help (see `retryable`).
    pub fn is_retryable_connection(&self) -> (r: bool)
        ensures
            r == retryable(*self),
    {
        match self {
            TcpClientError::Connection(_) => true,
            TcpClientError::AddressResolution(_) => true,
            TcpClientError::NotConnected => true,
            TcpClientError::Io(_) => true,
            TcpClientError::Protocol(_) => false,
            TcpClientError::AsyncTask(_) => false,
        }
    }
}

/// How many attempts a call with `max_retries` makes: at least one.
pub open spec fn attempts_for(max_retries: nat) -> nat {
    if max_retries == 0 { 1 } else { max_retries }
}

/// How many attempts a call with `max_retries` makes (see `attempts_for`).
pub fn call_attempts(max_retries: usize) -> (r: usize)
    ensures
        r == attempts_for(max_retries as nat),
{
    if max_retries == 0 { 1 } else { max_retries }
}

/// What a call does after attempt number `attempt` (counted from 0) of
/// `attempts` failed.
#[derive(Debug, Clone, Copy, PartialEq, Eq, Structural)]
pub enum RetryStep {
    /// The error is final: return it.
    Fail,
    /// Wait the reconnect delay, reconnect and try again.
    Reconnect,
    /// That was the last attempt: return the last retryable error.
    GiveUp,
}

/// The step after attempt `attempt` of `attempts` failed: a final error is
/// returned at once; a retryable one leads to a reconnect while attempts remain.
pub open spec fn retry_step(attempt: int, attempts: int, error_is_retryable: bool) -> RetryStep {
    if !error_is_retryable {
        RetryStep::Fail
    } else if attempt + 1 < attempts {
        RetryStep::Reconnect
    } else {
        RetryStep::GiveUp
    }
}

/// After a failed attempt (see `retry_step`).
pub fn after_failed_attempt(attempt: usize, attempts: usize, error_is_retryable: bool) -> (r: RetryStep)
    requires
        attempt < attempts,
    ensures
        r == retry_step(attempt as int, attempts as int, error_is_retryable),
{
    if !error_is_retryable {
        RetryStep::Fail
    } else if attempt + 1 < attempts {
        RetryStep::Reconnect
    } else {
        RetryStep::GiveUp
    }
}

/// A call with retries stays within its attempts and returns the right error:
/// when the failures of attempts `0..n` each led to a reconnect, attempt `n` is
/// still one of the `attempts_for(max_retries)` attempts (so no more calls than
/// that are made); after it fails, a final error is returned at once, and the
/// call gives up, returning that retryable error, exactly when `n` is the last
/// attempt.
pub proof fn lemma_retries_stay_within_attempts(max_retries: nat, retryable: Seq<bool>, n: int)
    requires
        0 <= n < retryable.len(),
        forall|i: int| 0 <= i < n ==> #[trigger] retry_step(i, attempts_for(max_retries) as int, retryable[i])
            == RetryStep::Reconnect,
    ensures
        n < attempts_for(max_retries),
        (retry_step(n, attempts_for(max_retries) as int, retryable[n]) == RetryStep::Fail) == !retryable[n],
        (retry_step(n, attempts_for(max_retries) as int, retryable[n]) == RetryStep::GiveUp)
            == (retryable[n] && n == attempts_for(max_retries) - 1),
{
    if n > 0 {
        assert(retry_step(n - 1, attempts_for(max_retries) as int, retryable[n - 1]) == RetryStep::Reconnect);
    }
}

} // verus!
