//! A resilience policy composition engine.
//!
//! The engine wraps a caller-supplied fallible operation in a stack of
//! failure-handling policies — retry, timeout, circuit breaker, fallback and
//! rate limiter — and executes the operation with coordinated recovery across
//! all layers. Policies form a chain, outermost first: each policy delegates
//! to its inner policy, observes the outcome, and either accepts success,
//! turns a failure into another attempt, substitutes a fallback value, or
//! surfaces a terminal error.
//!
//! The engine itself performs no I/O and never blocks on its own: waiting
//! (the retry delay, rate-limiter pacing) is requested from the operation
//! through [`Runnable::wait`], and the wall clock is read once per guarded
//! attempt.

use vstd::prelude::*;

pub mod clock;
pub mod failsafe;
pub mod failsafe_error;
pub mod policies;
pub mod run_state;

verus! {

/// A fallible operation protected by the engine.
///
/// The ghost histories let contracts speak about what happened to the
/// operation during a run: `attempts()` records the outcome of every call to
/// `execute` (`true` for success), `failures()` the payload of every failed
/// attempt, and `substitutions()` every value handed to `substitute`. An
/// implementation maintains them as ghost state; they impose no constraint
/// on what the operation may do, only that the histories reflect it.
pub trait Runnable {
    /// The opaque error payload produced by a failing attempt.
    type Error;

    /// The value a fallback policy substitutes into the operation.
    type Fallback;

    /// Outcomes of the attempts made so far, in order (`true` = success).
    spec fn attempts(&self) -> Seq<bool>;

    /// Error payloads of the failed attempts, in order.
    spec fn failures(&self) -> Seq<Self::Error>;

    /// Values substituted into the operation so far, in order.
    spec fn substitutions(&self) -> Seq<Self::Fallback>;

    /// Perform one attempt of the protected work.
    fn execute(&mut self) -> (r: Result<(), Self::Error>)
        ensures
            final(self).attempts() == old(self).attempts().push(r is Ok),
            r is Ok ==> final(self).failures() == old(self).failures(),
            (r matches Err(e) ==> final(self).failures() == old(self).failures().push(e)),
            final(self).substitutions() == old(self).substitutions(),
    ;

    /// Re-initialize the operation's observable state from a fallback value.
    fn substitute(&mut self, value: &Self::Fallback)
        ensures
            final(self).substitutions() == old(self).substitutions().push(*value),
            final(self).attempts() == old(self).attempts(),
            final(self).failures() == old(self).failures(),
    ;

    /// Block for roughly the given number of milliseconds.
    ///
    /// The engine performs no blocking of its own; it asks the operation for
    /// the ambient sleep whenever a policy calls for a pause (the delay
    /// between retry attempts, rate-limiter pacing). An implementation may
    /// sleep, spin, or return at once; no history may change.
    fn wait(&mut self, millis: u64)
        ensures
            final(self).attempts() == old(self).attempts(),
            final(self).failures() == old(self).failures(),
            final(self).substitutions() == old(self).substitutions(),
    ;
}

/// An operation whose attempt outcomes follow a fixed script, cycling once
/// the script is exhausted; an empty script always succeeds.
///
/// This is a ready-made [`Runnable`] for exercising a policy stack without
/// real work behind it. `substitute` stores the substituted value, so a
/// fallback policy's effect is observable through [`ScriptOperation::value`].
pub struct ScriptOperation<V> {
    /// Planned outcomes of successive attempts (`true` = succeed).
    pub script: Vec<bool>,
    /// Position of the next attempt within the script.
    pub at: usize,
    /// The value most recently substituted, if any.
    pub value: Option<V>,
    /// Ghost history of attempt outcomes.
    pub attempt_log: Ghost<Seq<bool>>,
    /// Ghost history of failure payloads.
    pub failure_log: Ghost<Seq<u64>>,
    /// Ghost history of substituted values.
    pub substitution_log: Ghost<Seq<V>>,
}

impl<V: Clone> ScriptOperation<V> {
    /// Where in the script the next attempt reads: the stored position, or
    /// the start once it has run off the end.
    pub open spec fn cursor(self) -> int {
        if self.at < self.script@.len() {
            self.at as int
        } else {
            0
        }
    }

    /// What the next attempt will do: follow the script, or succeed when
    /// there is none.
    pub open spec fn next_outcome(self) -> bool {
        self.script@.len() == 0 || self.script@[self.cursor()]
    }

    /// A fresh operation following the given script.
    pub fn new(script: Vec<bool>) -> (op: Self)
        ensures
            op.script == script,
            op.at == 0usize,
            op.value is None,
            op.attempts() == Seq::<bool>::empty(),
            op.failures() == Seq::<u64>::empty(),
            op.substitutions() == Seq::<V>::empty(),
    {
        ScriptOperation {
            script,
            at: 0,
            value: None,
            attempt_log: Ghost(Seq::empty()),
            failure_log: Ghost(Seq::empty()),
            substitution_log: Ghost(Seq::empty()),
        }
    }
}

impl<V: Clone> Runnable for ScriptOperation<V> {
    type Error = u64;

    type Fallback = V;

    open spec fn attempts(&self) -> Seq<bool> {
        self.attempt_log@
    }

    open spec fn failures(&self) -> Seq<u64> {
        self.failure_log@
    }

    open spec fn substitutions(&self) -> Seq<V> {
        self.substitution_log@
    }

    /// Follow the script: the attempt succeeds exactly when the script says
    /// so at the cursor, and the cursor advances one step, wrapping to the
    /// start after the last entry. On failure the payload is the script
    /// position that failed.
    fn execute(&mut self) -> (r: Result<(), u64>)
        ensures
            r is Ok <==> old(self).next_outcome(),
            final(self).script == old(self).script,
            final(self).at == (if old(self).cursor() + 1 >= old(self).script@.len() {
                0int
            } else {
                old(self).cursor() + 1
            }),
            final(self).value == old(self).value,
            (r matches Err(p) ==> p == old(self).cursor()),
            final(self).attempts() == old(self).attempts().push(r is Ok),
            r is Ok ==> final(self).failures() == old(self).failures(),
            (r matches Err(e) ==> final(self).failures() == old(self).failures().push(e)),
            final(self).substitutions() == old(self).substitutions(),
    {
        let outcome: bool;
        let position: usize;
        if self.script.len() == 0 {
            outcome = true;
            position = 0;
            self.at = 0;
        } else {
            let i: usize = if self.at < self.script.len() {
                self.at
            } else {
                0
            };
            outcome = self.script[i];
            position = i;
            self.at = if i + 1 >= self.script.len() {
                0
            } else {
                i + 1
            };
        }
        self.attempt_log = Ghost(self.attempt_log@.push(outcome));
        if outcome {
            Ok(())
        } else {
            let code = position as u64;
            self.failure_log = Ghost(self.failure_log@.push(code));
            Err(code)
        }
    }

    fn substitute(&mut self, value: &V)
        ensures
            final(self).substitutions() == old(self).substitutions().push(*value),
            final(self).attempts() == old(self).attempts(),
            final(self).failures() == old(self).failures(),
    {
        self.substitution_log = Ghost(self.substitution_log@.push(*value));
        self.value = Some(value.clone());
    }

    /// The script has no notion of time; waiting returns at once.
    fn wait(&mut self, _millis: u64)
        ensures
            final(self).attempts() == old(self).attempts(),
            final(self).failures() == old(self).failures(),
            final(self).substitutions() == old(self).substitutions(),
    {
    }
}

} // verus!
