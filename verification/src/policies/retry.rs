use vstd::prelude::*;

use crate::failsafe_error::FailsafeError;
use crate::run_state::PolicyActionState;
use crate::Runnable;

verus! {

/// Bounded re-invocation with a fixed delay.
///
/// The policy allows up to `retries` total attempts. After a failed attempt,
/// `policy_action` counts it; once the budget is spent the count is zeroed
/// and `RetryError` is surfaced, otherwise the operation is asked to wait
/// `delay` milliseconds and the driver loop runs the inner layer again.
pub struct RetryPolicy {
    /// Total attempts allowed, at least one.
    pub retries: u64,
    /// Milliseconds to wait between attempts.
    pub delay: u64,
    /// Failed attempts counted so far in the current run.
    pub tries: u64,
}

impl RetryPolicy {
    /// The counter stays strictly below the budget.
    pub open spec fn wf(self) -> bool {
        1 <= self.retries && self.tries < self.retries
    }

    /// A fresh policy allowing `retries` total attempts with `delay`
    /// milliseconds between them.
    pub fn new(retries: u64, delay: u64) -> (p: Self)
        requires
            1 <= retries,
        ensures
            p.wf(),
            p.retries == retries,
            p.delay == delay,
            p.tries == 0,
    {
        RetryPolicy { retries, delay, tries: 0 }
    }

    /// Count a failed attempt: surface `RetryError` with the counter zeroed
    /// once the budget is spent, otherwise wait out the delay and ask for
    /// another attempt.
    pub fn policy_action<T: Runnable>(
        &mut self,
        op: &mut T,
        _error: FailsafeError<T::Error>,
    ) -> (r: Result<PolicyActionState, FailsafeError<T::Error>>)
        requires
            old(self).wf(),
        ensures
            final(self).wf(),
            final(self).retries == old(self).retries,
            final(self).delay == old(self).delay,
            old(self).tries + 1 >= old(self).retries ==> r == Err::<
                PolicyActionState,
                FailsafeError<T::Error>,
            >(FailsafeError::RetryError) && final(self).tries == 0,
            old(self).tries + 1 < old(self).retries ==> r == Ok::<
                PolicyActionState,
                FailsafeError<T::Error>,
            >(PolicyActionState::Retry) && final(self).tries == old(self).tries + 1,
            final(op).attempts() == old(op).attempts(),
            final(op).failures() == old(op).failures(),
            final(op).substitutions() == old(op).substitutions(),
    {
        self.tries = self.tries + 1;
        if self.tries >= self.retries {
            self.tries = 0;
            Err(FailsafeError::RetryError)
        } else {
            op.wait(self.delay);
            Ok(PolicyActionState::Retry)
        }
    }

    /// Zero the attempt counter.
    pub fn reset(&mut self)
        ensures
            final(self).tries == 0,
            final(self).retries == old(self).retries,
            final(self).delay == old(self).delay,
    {
        self.tries = 0;
    }
}

} // verus!
