use vstd::prelude::*;

verus! {

/// Coarse classification of how a run ended, for callers that only care
/// about the class of outcome.
#[derive(Clone, Copy, Debug, PartialEq, Eq, Structural)]
pub enum RunState {
    Success,
    TimeoutError,
    CircuitBreakerError,
}

/// Signal from a policy to its own driver loop after an inner failure.
///
/// `Success` accepts the outcome, `Retry` asks the loop to run the inner
/// layer again, and `UsingFallback` reports that a fallback value was
/// substituted. `TimeoutError` and `CircuitBreakerError` are used as the
/// action state a guarded attempt leaves behind for `policy_action` to read;
/// they never direct the loop themselves.
#[derive(Clone, Copy, Debug, PartialEq, Eq, Structural)]
pub enum PolicyActionState {
    Success,
    Retry,
    UsingFallback,
    TimeoutError,
    CircuitBreakerError,
}

} // verus!
