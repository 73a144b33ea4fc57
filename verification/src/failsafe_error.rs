use vstd::prelude::*;

verus! {

/// The failure kinds a run can surface, generic over the operation's own
/// error payload.
///
/// - `RunnableError` carries an operation failure that no policy caught.
/// - `RetryError` reports an exhausted retry budget.
/// - `TimeoutError` reports a guarded attempt that exceeded its bound.
/// - `CircuitBreakerOpen` reports a call rejected by an open breaker.
/// - `UsedFallback` reports that a fallback value was substituted: the
///   operation is in a valid state, but the nominal attempt failed.
/// - `UnknownError` is reserved and never produced by the engine.
#[derive(Debug)]
pub enum FailsafeError<E> {
    TimeoutError,
    RetryError,
    RunnableError(E),
    UsedFallback,
    UnknownError,
    CircuitBreakerOpen,
}

impl<E> FailsafeError<E> {
    /// True when the two errors carry the same failure kind, payloads aside.
    pub open spec fn same_kind(self, other: Self) -> bool {
        ||| (self is TimeoutError && other is TimeoutError)
        ||| (self is RetryError && other is RetryError)
        ||| (self is RunnableError && other is RunnableError)
        ||| (self is UsedFallback && other is UsedFallback)
        ||| (self is UnknownError && other is UnknownError)
        ||| (self is CircuitBreakerOpen && other is CircuitBreakerOpen)
    }

    /// A short description of the failure kind.
    pub fn message(&self) -> (s: String)
        ensures
            self is TimeoutError ==> s@ == "Timeout error"@,
            self is RetryError ==> s@ == "Retry error"@,
            self is RunnableError ==> s@ == "Runnable Error"@,
            self is UsedFallback ==> s@ == "Used Fallback"@,
            self is UnknownError ==> s@ == "Unknown Error"@,
            self is CircuitBreakerOpen ==> s@ == "Circuit Breaker Open"@,
    {
        match self {
            FailsafeError::TimeoutError => String::from_str("Timeout error"),
            FailsafeError::RetryError => String::from_str("Retry error"),
            FailsafeError::RunnableError(_) => String::from_str("Runnable Error"),
            FailsafeError::UsedFallback => String::from_str("Used Fallback"),
            FailsafeError::UnknownError => String::from_str("Unknown Error"),
            FailsafeError::CircuitBreakerOpen => String::from_str("Circuit Breaker Open"),
        }
    }
}

impl<E: Clone> FailsafeError<E> {
    /// A copy of the error for the diagnostic log: a payload-free error is
    /// copied exactly, a `RunnableError` keeps its kind with the payload
    /// cloned.
    pub fn duplicate(&self) -> (r: Self)
        ensures
            r.same_kind(*self),
            !(self is RunnableError) ==> r == *self,
    {
        match self {
            FailsafeError::TimeoutError => FailsafeError::TimeoutError,
            FailsafeError::RetryError => FailsafeError::RetryError,
            FailsafeError::RunnableError(p) => FailsafeError::RunnableError(p.clone()),
            FailsafeError::UsedFallback => FailsafeError::UsedFallback,
            FailsafeError::UnknownError => FailsafeError::UnknownError,
            FailsafeError::CircuitBreakerOpen => FailsafeError::CircuitBreakerOpen,
        }
    }
}

} // verus!
