use vstd::prelude::*;

use crate::failsafe_error::FailsafeError;
use crate::run_state::PolicyActionState;
use crate::Runnable;

verus! {

/// How permits become available.
#[derive(Clone, Copy, Debug, PartialEq, Eq, Structural)]
pub enum LimiterType {
    /// Permits are released one at a time, evenly spaced over `duration`.
    Smooth,
    /// All `max_execution` permits are available at the start of each
    /// `duration` window.
    Burst,
}

/// Admission control over the guarded attempts.
///
/// At most `max_execution` attempts are admitted per `duration` milliseconds,
/// paced as the limiter type says. A call arriving before its permit is
/// available blocks until the permit is due — the wait is requested from the
/// operation — and then proceeds; no call is ever rejected. The alternative
/// of failing such a call at once instead of waiting was considered and not
/// adopted: the error taxonomy has no kind for it, and blocking keeps every
/// admitted call's outcome meaningful.
pub struct RateLimiter {
    pub limiter_type: LimiterType,
    /// Permits per window, at least one.
    pub max_execution: u64,
    /// Window length in milliseconds, positive.
    pub duration: u64,
    /// Burst bookkeeping: when the current window began.
    pub window_start: Option<u64>,
    /// Burst bookkeeping: permits consumed in the current window.
    pub used: u64,
    /// Smooth bookkeeping: the earliest time the next call may proceed.
    pub next_permit: Option<u64>,
}

/// `a + b`, stuck at `u64::MAX` when the sum does not fit.
pub open spec fn sat_add(a: u64, b: u64) -> u64 {
    if a + b > u64::MAX {
        u64::MAX
    } else {
        (a + b) as u64
    }
}

impl RateLimiter {
    pub open spec fn wf(self) -> bool {
        &&& 1 <= self.max_execution
        &&& 1 <= self.duration
        &&& 1 <= self.used <= self.max_execution || self.window_start is None
    }

    pub open spec fn same_config(self, other: Self) -> bool {
        &&& self.limiter_type == other.limiter_type
        &&& self.max_execution == other.max_execution
        &&& self.duration == other.duration
    }

    /// A fresh limiter with an untouched bucket.
    pub fn new(limiter_type: LimiterType, max_execution: u64, duration: u64) -> (p: Self)
        requires
            1 <= max_execution,
            1 <= duration,
        ensures
            p.wf(),
            p.limiter_type == limiter_type,
            p.max_execution == max_execution,
            p.duration == duration,
            p.window_start is None,
            p.used == 0,
            p.next_permit is None,
    {
        RateLimiter {
            limiter_type,
            max_execution,
            duration,
            window_start: None,
            used: 0,
            next_permit: None,
        }
    }

    pub fn limiter_type(&self) -> (t: LimiterType)
        ensures
            t == self.limiter_type,
    {
        self.limiter_type
    }

    pub fn max_execution(&self) -> (v: u64)
        ensures
            v == self.max_execution,
    {
        self.max_execution
    }

    pub fn duration(&self) -> (v: u64)
        ensures
            v == self.duration,
    {
        self.duration
    }

    /// Account for one call arriving at `now` and say how long it must wait
    /// before proceeding; zero means it proceeds at once.
    ///
    /// Smooth pacing releases one permit every `duration / max_execution`
    /// milliseconds: a call due no earlier than `next_permit` proceeds and
    /// schedules the next permit one interval after itself; an early call
    /// waits out the difference and the next permit moves one interval past
    /// the one just consumed. Burst pacing gives each window of `duration`
    /// milliseconds `max_execution` permits: a call past the window's end
    /// opens a fresh window; a call in a window with permits left consumes
    /// one; a call in an exhausted window waits for the window's end, which
    /// starts the next window with this call as its first. Times saturate at
    /// `u64::MAX`.
    pub fn admission(&mut self, now: u64) -> (wait: u64)
        requires
            old(self).wf(),
        ensures
            final(self).wf(),
            final(self).same_config(*old(self)),
            old(self).limiter_type is Smooth ==> {
                let interval = old(self).duration / old(self).max_execution;
                &&& final(self).window_start == old(self).window_start
                &&& final(self).used == old(self).used
                &&& match old(self).next_permit {
                    None => wait == 0 && final(self).next_permit == Some(sat_add(now, interval)),
                    Some(np) => {
                        if now >= np {
                            wait == 0 && final(self).next_permit == Some(sat_add(now, interval))
                        } else {
                            wait == np - now && final(self).next_permit == Some(
                                sat_add(np, interval),
                            )
                        }
                    },
                }
            },
            old(self).limiter_type is Burst ==> {
                &&& final(self).next_permit == old(self).next_permit
                &&& match old(self).window_start {
                    None => wait == 0 && final(self).window_start == Some(now) && final(self).used
                        == 1,
                    Some(ws) => {
                        let end = sat_add(ws, old(self).duration);
                        if now >= end {
                            wait == 0 && final(self).window_start == Some(now) && final(self).used
                                == 1
                        } else if old(self).used < old(self).max_execution {
                            wait == 0 && final(self).window_start == Some(ws) && final(self).used
                                == old(self).used + 1
                        } else {
                            wait == end - now && final(self).window_start == Some(end)
                                && final(self).used == 1
                        }
                    },
                }
            },
    {
        match self.limiter_type {
            LimiterType::Smooth => {
                let interval = self.duration / self.max_execution;
                match self.next_permit {
                    None => {
                        self.next_permit = Some(saturating_add(now, interval));
                        0
                    },
                    Some(np) => {
                        if now >= np {
                            self.next_permit = Some(saturating_add(now, interval));
                            0
                        } else {
                            self.next_permit = Some(saturating_add(np, interval));
                            np - now
                        }
                    },
                }
            },
            LimiterType::Burst => {
                match self.window_start {
                    None => {
                        self.window_start = Some(now);
                        self.used = 1;
                        0
                    },
                    Some(ws) => {
                        let end = saturating_add(ws, self.duration);
                        if now >= end {
                            self.window_start = Some(now);
                            self.used = 1;
                            0
                        } else if self.used < self.max_execution {
                            self.used = self.used + 1;
                            0
                        } else {
                            self.window_start = Some(end);
                            self.used = 1;
                            end - now
                        }
                    },
                }
            },
        }
    }

    /// Wait for this call's permit, then make exactly one attempt and map
    /// its outcome.
    pub fn run_guarded<T: Runnable>(&mut self, op: &mut T) -> (res: (
        Result<(), FailsafeError<T::Error>>,
        PolicyActionState,
    ))
        requires
            old(self).wf(),
        ensures
            final(self).wf(),
            final(self).same_config(*old(self)),
            final(op).attempts() == old(op).attempts().push(final(op).attempts().last()),
            final(op).substitutions() == old(op).substitutions(),
            res.1 == PolicyActionState::Success,
            res.0 is Ok ==> final(op).attempts().last() == true && final(op).failures() == old(
                op,
            ).failures(),
            res.0 matches Err(e) ==> e is RunnableError && final(op).attempts().last() == false
                && final(op).failures() == old(op).failures().push(res.0->Err_0->RunnableError_0),
    {
        let now = crate::clock::now_millis();
        let wait = self.admission(now);
        if wait > 0 {
            op.wait(wait);
        }
        match op.execute() {
            Ok(()) => (Ok(()), PolicyActionState::Success),
            Err(e) => (Err(FailsafeError::RunnableError(e)), PolicyActionState::Success),
        }
    }

    /// The limiter only gates admission; any failure is propagated
    /// unchanged, and the bucket keeps its state across runs.
    pub fn policy_action<E>(&self, error: FailsafeError<E>) -> (r: Result<
        PolicyActionState,
        FailsafeError<E>,
    >)
        ensures
            r == Err::<PolicyActionState, FailsafeError<E>>(error),
    {
        Err(error)
    }
}

/// `a + b`, stuck at `u64::MAX` when the sum does not fit.
fn saturating_add(a: u64, b: u64) -> (r: u64)
    ensures
        r == sat_add(a, b),
{
    if a <= u64::MAX - b {
        a + b
    } else {
        u64::MAX
    }
}

} // verus!
