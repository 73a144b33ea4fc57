use vstd::prelude::*;

use crate::failsafe_error::FailsafeError;
use crate::run_state::PolicyActionState;
use crate::Runnable;

verus! {

/// A wall-clock bound on a guarded attempt.
///
/// The attempt is invoked synchronously and the elapsed time measured after
/// it returns; nothing is cancelled in flight. When the attempt took longer
/// than `timeout` milliseconds, `TimeoutError` is surfaced regardless of the
/// attempt's own outcome; otherwise the outcome is forwarded, an operation
/// error wrapped as `RunnableError`.
pub struct TimeoutPolicy {
    /// The bound in milliseconds, positive.
    pub timeout: u64,
    /// How long the most recent guarded attempt took, in milliseconds.
    pub time_taken: Option<u64>,
}

impl TimeoutPolicy {
    pub open spec fn wf(self) -> bool {
        1 <= self.timeout
    }

    /// A fresh policy with the given bound in milliseconds.
    pub fn new(timeout: u64) -> (p: Self)
        requires
            1 <= timeout,
        ensures
            p.wf(),
            p.timeout == timeout,
            p.time_taken is None,
    {
        TimeoutPolicy { timeout, time_taken: None }
    }

    /// Run one attempt under the clock.
    ///
    /// Returns the mapped outcome together with the action state the driver
    /// hands to `policy_action` afterwards. Exactly one attempt is made; the
    /// elapsed time is measured against the wall clock, a backwards clock
    /// reading counting as zero.
    pub fn run_guarded<T: Runnable>(&mut self, op: &mut T) -> (res: (
        Result<(), FailsafeError<T::Error>>,
        PolicyActionState,
    ))
        requires
            old(self).wf(),
        ensures
            final(self).wf(),
            final(self).timeout == old(self).timeout,
            final(op).attempts() == old(op).attempts().push(
                final(op).attempts().last(),
            ),
            final(op).substitutions() == old(op).substitutions(),
            final(op).attempts().last() ==> final(op).failures() == old(op).failures(),
            !final(op).attempts().last() ==> final(op).failures() == old(op).failures().push(
                final(op).failures().last(),
            ),
            final(self).time_taken is Some,
            res.0 is Ok ==> final(op).attempts().last() == true && res.1
                == PolicyActionState::Success && final(self).time_taken->0 <= old(self).timeout,
            res.0 matches Err(e) ==> (e is RunnableError || e is TimeoutError),
            (res.0 matches Err(e) && e is RunnableError) ==> final(op).attempts().last() == false
                && res.1 == PolicyActionState::Success && final(self).time_taken->0 <= old(self).timeout
                && res.0->Err_0->RunnableError_0 == final(op).failures().last(),
            (res.0 matches Err(e) && e is TimeoutError) ==> res.1
                == PolicyActionState::TimeoutError && final(self).time_taken->0 > old(self).timeout,
    {
        let start = crate::clock::now_millis();
        let r = op.execute();
        let end = crate::clock::now_millis();
        let elapsed: u64 = if end >= start {
            end - start
        } else {
            0
        };
        self.time_taken = Some(elapsed);
        if elapsed > self.timeout {
            (Err(FailsafeError::TimeoutError), PolicyActionState::TimeoutError)
        } else {
            match r {
                Ok(()) => (Ok(()), PolicyActionState::Success),
                Err(e) => (Err(FailsafeError::RunnableError(e)), PolicyActionState::Success),
            }
        }
    }

    /// Decide after a failure: a deadline violation of this level is
    /// terminal; any other failure is propagated unchanged.
    pub fn policy_action<E>(&self, state: PolicyActionState, error: FailsafeError<E>) -> (r:
        Result<PolicyActionState, FailsafeError<E>>)
        ensures
            state == PolicyActionState::TimeoutError ==> r == Err::<
                PolicyActionState,
                FailsafeError<E>,
            >(FailsafeError::TimeoutError),
            state != PolicyActionState::TimeoutError ==> r == Err::<
                PolicyActionState,
                FailsafeError<E>,
            >(error),
    {
        match state {
            PolicyActionState::TimeoutError => Err(FailsafeError::TimeoutError),
            _ => Err(error),
        }
    }

    /// Clear the elapsed-time record.
    pub fn reset(&mut self)
        ensures
            final(self).time_taken is None,
            final(self).timeout == old(self).timeout,
    {
        self.time_taken = None;
    }
}

} // verus!
