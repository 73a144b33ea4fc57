use vstd::prelude::*;

use crate::failsafe_error::FailsafeError;
use crate::run_state::PolicyActionState;
use crate::Runnable;

verus! {

/// The three states of the failure gate.
#[derive(Clone, Copy, Debug, PartialEq, Eq, Structural)]
pub enum CircuitBreakerState {
    Closed,
    Open,
    HalfOpen,
}

/// A three-state failure gate with a cool-down.
///
/// In `Closed`, failures are counted; reaching `failure_threshold` opens the
/// breaker. In `Open`, calls are rejected until more than `delay`
/// milliseconds have passed since the last attempt, after which the next
/// call half-opens the breaker and is let through. In `HalfOpen`, successes
/// are counted, `success_threshold` of them closing the breaker and zeroing
/// all counts, while any failure reopens it.
pub struct CircuitBreakerPolicy {
    pub circuit_breaker_state: CircuitBreakerState,
    /// Failures in `Closed` that open the breaker, at least one.
    pub failure_threshold: u64,
    /// Successes in `HalfOpen` that close the breaker, at least one.
    pub success_threshold: u64,
    /// Cool-down in milliseconds, positive.
    pub delay: u64,
    /// When the breaker last admitted a call, milliseconds on the wall clock.
    pub last_attempt: Option<u64>,
    pub failure_count: u64,
    pub success_count: u64,
}

impl CircuitBreakerPolicy {
    pub open spec fn wf(self) -> bool {
        &&& 1 <= self.failure_threshold
        &&& 1 <= self.success_threshold
        &&& 1 <= self.delay
        &&& self.failure_count <= self.failure_threshold
        &&& self.success_count < self.success_threshold
        &&& (self.circuit_breaker_state is Open ==> self.last_attempt is Some)
        &&& (self.circuit_breaker_state is Closed ==> self.failure_count
            < self.failure_threshold)
    }

    /// The breaker as `reset` leaves it: closed, counts zero, no attempt
    /// recorded.
    pub open spec fn cleared(self) -> Self {
        CircuitBreakerPolicy {
            circuit_breaker_state: CircuitBreakerState::Closed,
            last_attempt: None,
            failure_count: 0,
            success_count: 0,
            ..self
        }
    }

    /// Admission's effect on the state alone: an open breaker that lets a
    /// call through half-opens, any other state stays.
    pub open spec fn half_opened(self) -> Self {
        if self.circuit_breaker_state is Open {
            CircuitBreakerPolicy { circuit_breaker_state: CircuitBreakerState::HalfOpen, ..self }
        } else {
            self
        }
    }

    /// The transition a counted failure applies: in `Closed` the failure
    /// count grows and opens the breaker at the threshold; in `HalfOpen` any
    /// failure reopens the breaker, the count growing until it sticks at the
    /// threshold; in `Open` nothing changes.
    pub open spec fn failure_step(self) -> Self {
        match self.circuit_breaker_state {
            CircuitBreakerState::Closed => {
                if self.failure_count + 1 >= self.failure_threshold {
                    CircuitBreakerPolicy {
                        circuit_breaker_state: CircuitBreakerState::Open,
                        failure_count: (self.failure_count + 1) as u64,
                        ..self
                    }
                } else {
                    CircuitBreakerPolicy {
                        failure_count: (self.failure_count + 1) as u64,
                        ..self
                    }
                }
            },
            CircuitBreakerState::HalfOpen => CircuitBreakerPolicy {
                circuit_breaker_state: CircuitBreakerState::Open,
                failure_count: if self.failure_count < self.failure_threshold {
                    (self.failure_count + 1) as u64
                } else {
                    self.failure_count
                },
                ..self
            },
            CircuitBreakerState::Open => self,
        }
    }

    /// The transition a successful attempt applies: in `Closed` everything
    /// is cleared; in `HalfOpen` the success count grows, clearing the
    /// breaker at the threshold; `Open` never reaches an attempt.
    pub open spec fn success_step(self) -> Self {
        match self.circuit_breaker_state {
            CircuitBreakerState::Closed => self.cleared(),
            CircuitBreakerState::HalfOpen => {
                if self.success_count + 1 >= self.success_threshold {
                    self.cleared()
                } else {
                    CircuitBreakerPolicy { success_count: (self.success_count + 1) as u64, ..self }
                }
            },
            CircuitBreakerState::Open => self,
        }
    }

    /// Equality of everything but the admission timestamp.
    pub open spec fn same_but_last_attempt(self, other: Self) -> bool {
        &&& self.circuit_breaker_state == other.circuit_breaker_state
        &&& self.failure_threshold == other.failure_threshold
        &&& self.success_threshold == other.success_threshold
        &&& self.delay == other.delay
        &&& self.failure_count == other.failure_count
        &&& self.success_count == other.success_count
    }

    /// The static configuration of the two breakers agrees.
    pub open spec fn same_config(self, other: Self) -> bool {
        &&& self.failure_threshold == other.failure_threshold
        &&& self.success_threshold == other.success_threshold
        &&& self.delay == other.delay
    }

    /// A fresh, closed breaker.
    pub fn new(failure_threshold: u64, delay: u64, success_threshold: u64) -> (p: Self)
        requires
            1 <= failure_threshold,
            1 <= delay,
            1 <= success_threshold,
        ensures
            p.wf(),
            p.failure_threshold == failure_threshold,
            p.success_threshold == success_threshold,
            p.delay == delay,
            p == p.cleared(),
    {
        CircuitBreakerPolicy {
            circuit_breaker_state: CircuitBreakerState::Closed,
            failure_threshold,
            success_threshold,
            delay,
            last_attempt: None,
            failure_count: 0,
            success_count: 0,
        }
    }

    pub fn circuit_breaker_state(&self) -> (s: CircuitBreakerState)
        ensures
            s == self.circuit_breaker_state,
    {
        self.circuit_breaker_state
    }

    pub fn failure_threshold(&self) -> (v: u64)
        ensures
            v == self.failure_threshold,
    {
        self.failure_threshold
    }

    pub fn success_threshold(&self) -> (v: u64)
        ensures
            v == self.success_threshold,
    {
        self.success_threshold
    }

    pub fn delay(&self) -> (v: u64)
        ensures
            v == self.delay,
    {
        self.delay
    }

    pub fn last_attempt(&self) -> (v: Option<u64>)
        ensures
            v == self.last_attempt,
    {
        self.last_attempt
    }

    pub fn failure_count(&self) -> (v: u64)
        ensures
            v == self.failure_count,
    {
        self.failure_count
    }

    pub fn success_count(&self) -> (v: u64)
        ensures
            v == self.success_count,
    {
        self.success_count
    }

    /// Decide whether a call arriving at `now` may proceed, and record it.
    ///
    /// A closed or half-open breaker admits every call. An open breaker
    /// rejects the call unless more than `delay` milliseconds have passed
    /// since the last attempt, in which case it half-opens and admits; a
    /// clock reading at or before the last attempt counts as not elapsed.
    /// Every admitted call stamps `last_attempt` with `now`; a rejected call
    /// changes nothing.
    pub fn admission(&mut self, now: u64) -> (admitted: bool)
        requires
            old(self).wf(),
        ensures
            final(self).wf(),
            admitted ==> final(self).same_but_last_attempt(old(self).half_opened()) && final(self).last_attempt == Some(now),
            !admitted ==> *final(self) == *old(self) && old(self).circuit_breaker_state is Open,
            old(self).circuit_breaker_state !is Open ==> admitted,
            (old(self).circuit_breaker_state is Open && (old(self).last_attempt matches Some(last)
                && now > last && now - last > old(self).delay)) ==> admitted,
            (old(self).circuit_breaker_state is Open && (old(self).last_attempt matches Some(last)
                && !(now > last && now - last > old(self).delay))) ==> !admitted,
    {
        if self.circuit_breaker_state == CircuitBreakerState::Open {
            match self.last_attempt {
                Some(last) => {
                    if now > last && now - last > self.delay {
                        self.circuit_breaker_state = CircuitBreakerState::HalfOpen;
                    } else {
                        return false;
                    }
                },
                None => {
                    return false;
                },
            }
        }
        self.last_attempt = Some(now);
        true
    }

    /// Apply the success transition after an admitted attempt succeeded.
    fn note_success(&mut self)
        requires
            old(self).wf(),
            old(self).circuit_breaker_state !is Open,
        ensures
            final(self).wf(),
            *final(self) == old(self).success_step(),
    {
        match self.circuit_breaker_state {
            CircuitBreakerState::Closed => {
                self.reset();
            },
            CircuitBreakerState::HalfOpen => {
                self.success_count = self.success_count + 1;
                if self.success_count >= self.success_threshold {
                    self.reset();
                }
            },
            CircuitBreakerState::Open => {
            },
        }
    }

    /// Run one attempt under the admission control.
    ///
    /// Either the call is rejected — `CircuitBreakerOpen`, the breaker and
    /// the operation untouched — or exactly one attempt is made: on success
    /// the success transition is applied; on failure the breaker is left for
    /// `policy_action` to count, signalled through the returned action state.
    pub fn run_guarded<T: Runnable>(&mut self, op: &mut T) -> (res: (
        Result<(), FailsafeError<T::Error>>,
        PolicyActionState,
    ))
        requires
            old(self).wf(),
        ensures
            final(self).wf(),
            final(self).same_config(*old(self)),
            final(op).substitutions() == old(op).substitutions(),
            res.0 matches Err(e) ==> (e is RunnableError || e is CircuitBreakerOpen),
            (res.0 matches Err(e) && e is CircuitBreakerOpen) ==> *final(self) == *old(self) && old(self).circuit_breaker_state is Open && final(op).attempts() == old(op).attempts()
                && final(op).failures() == old(op).failures() && res.1
                == PolicyActionState::Success,
            res.0 is Ok ==> final(op).attempts() == old(op).attempts().push(true) && final(op).failures() == old(op).failures() && final(self).same_but_last_attempt(old(self).half_opened().success_step()) && res.1
                == PolicyActionState::Success,
            (res.0 matches Err(e) && e is RunnableError) ==> final(op).attempts() == old(op).attempts().push(false) && final(op).failures() == old(op).failures().push(
                res.0->Err_0->RunnableError_0,
            ) && final(self).same_but_last_attempt(old(self).half_opened())
                && final(self).last_attempt is Some && res.1
                == PolicyActionState::CircuitBreakerError,
            res.0 is Ok && final(self).circuit_breaker_state is Closed ==> final(self).last_attempt is None,
    {
        let now = crate::clock::now_millis();
        let admitted = self.admission(now);
        if !admitted {
            return (Err(FailsafeError::CircuitBreakerOpen), PolicyActionState::Success);
        }
        match op.execute() {
            Ok(()) => {
                self.note_success();
                (Ok(()), PolicyActionState::Success)
            },
            Err(e) => {
                (Err(FailsafeError::RunnableError(e)), PolicyActionState::CircuitBreakerError)
            },
        }
    }

    /// Decide after a failure: when the guarded attempt itself failed (the
    /// action state says so), count it — possibly opening the breaker — and
    /// propagate the error unchanged; any other failure is propagated
    /// unchanged with the breaker untouched.
    pub fn policy_action<E>(&mut self, state: PolicyActionState, error: FailsafeError<E>) -> (r:
        Result<PolicyActionState, FailsafeError<E>>)
        requires
            old(self).wf(),
            state == PolicyActionState::CircuitBreakerError ==> old(self).last_attempt is Some,
        ensures
            final(self).wf(),
            r == Err::<PolicyActionState, FailsafeError<E>>(error),
            state == PolicyActionState::CircuitBreakerError ==> *final(self) == old(self).failure_step(),
            state != PolicyActionState::CircuitBreakerError ==> *final(self) == *old(self),
    {
        match state {
            PolicyActionState::CircuitBreakerError => {
                match self.circuit_breaker_state {
                    CircuitBreakerState::Closed => {
                        self.failure_count = self.failure_count + 1;
                        if self.failure_count >= self.failure_threshold {
                            self.circuit_breaker_state = CircuitBreakerState::Open;
                        }
                    },
                    CircuitBreakerState::HalfOpen => {
                        if self.failure_count < self.failure_threshold {
                            self.failure_count = self.failure_count + 1;
                        }
                        self.circuit_breaker_state = CircuitBreakerState::Open;
                    },
                    CircuitBreakerState::Open => {
                    },
                }
                Err(error)
            },
            _ => Err(error),
        }
    }

    /// Close the breaker and zero every transient count.
    pub fn reset(&mut self)
        ensures
            *final(self) == old(self).cleared(),
    {
        self.last_attempt = None;
        self.failure_count = 0;
        self.success_count = 0;
        self.circuit_breaker_state = CircuitBreakerState::Closed;
    }

    /// The breaker after `k` counted failures.
    pub open spec fn after_failures(self, k: nat) -> Self
        decreases k,
    {
        if k == 0 {
            self
        } else {
            self.after_failures((k - 1) as nat).failure_step()
        }
    }

    /// The breaker after `k` successful admitted attempts.
    pub open spec fn after_successes(self, k: nat) -> Self
        decreases k,
    {
        if k == 0 {
            self
        } else {
            self.after_successes((k - 1) as nat).success_step()
        }
    }

    /// Starting closed with a clean count, consecutive failures keep the
    /// breaker closed, the count tracking them exactly, until the
    /// `failure_threshold`-th failure — which, and every failure after it,
    /// leaves the breaker open.
    pub proof fn lemma_failures_open_breaker(self, k: nat)
        requires
            self.wf(),
            self.circuit_breaker_state is Closed,
            self.failure_count == 0,
        ensures
            self.after_failures(k).same_config(self),
            k < self.failure_threshold ==> self.after_failures(
                k,
            ).circuit_breaker_state is Closed && self.after_failures(k).failure_count == k,
            k >= self.failure_threshold ==> self.after_failures(
                k,
            ).circuit_breaker_state is Open,
        decreases k,
    {
        if k > 0 {
            self.lemma_failures_open_breaker((k - 1) as nat);
        }
    }

    /// One success while the breaker is closed zeroes the failure count: an
    /// intervening success resets the tally of consecutive failures.
    pub proof fn lemma_success_resets_count(self)
        requires
            self.circuit_breaker_state is Closed,
        ensures
            self.success_step().failure_count == 0,
            self.success_step().circuit_breaker_state is Closed,
    {
    }

    /// From half-open, consecutive successes keep the breaker half-open with
    /// the count tracking them, until enough arrive to reach
    /// `success_threshold` — which closes the breaker and zeroes both counts.
    pub proof fn lemma_successes_close_breaker(self, k: nat)
        requires
            self.wf(),
            self.circuit_breaker_state is HalfOpen,
        ensures
            self.after_successes(k).same_config(self),
            self.success_count + k < self.success_threshold ==> self.after_successes(
                k,
            ).circuit_breaker_state is HalfOpen && self.after_successes(k).success_count
                == self.success_count + k,
            self.success_count + k >= self.success_threshold ==> self.after_successes(k)
                == self.cleared(),
        decreases k,
    {
        if k > 0 {
            self.lemma_successes_close_breaker((k - 1) as nat);
        }
    }

    /// From half-open, any single failure reopens the breaker.
    pub proof fn lemma_half_open_failure_reopens(self)
        requires
            self.circuit_breaker_state is HalfOpen,
        ensures
            self.failure_step().circuit_breaker_state is Open,
    {
    }
}

} // verus!
