use vstd::prelude::*;

pub mod circuit_breaker;
pub mod fallback;
pub mod rate_limiter;
pub mod retry;
pub mod timeout;

use crate::failsafe_error::FailsafeError;
use crate::run_state::PolicyActionState;
use crate::Runnable;
use circuit_breaker::CircuitBreakerPolicy;
use fallback::{FallbackFactory, FallbackPolicy};
use rate_limiter::{LimiterType, RateLimiter};
use retry::RetryPolicy;
use timeout::TimeoutPolicy;

verus! {

/// `post` agrees with `pre` on `pre`'s whole length: the history only grew.
pub open spec fn extends<A>(post: Seq<A>, pre: Seq<A>) -> bool {
    &&& pre.len() <= post.len()
    &&& forall|i: int| 0 <= i < pre.len() ==> post[i] == pre[i]
}

/// `n` failed attempts in a row.
pub open spec fn falses(n: nat) -> Seq<bool> {
    Seq::new(n, |i: int| false)
}

proof fn lemma_falses_push(d: nat)
    ensures
        falses(d).push(false) == falses(d + 1),
{
    assert(falses(d).push(false) =~= falses(d + 1));
}

proof fn lemma_append_push<A>(a: Seq<A>, b: Seq<A>, x: A)
    ensures
        (a + b).push(x) == a + b.push(x),
{
    assert((a + b).push(x) =~= a + b.push(x));
}

proof fn lemma_skip_push<A>(s: Seq<A>, k: int, x: A)
    requires
        0 <= k <= s.len(),
    ensures
        s.push(x).skip(k) == s.skip(k).push(x),
{
    assert(s.push(x).skip(k) =~= s.skip(k).push(x));
}

proof fn lemma_append_empty_skip<A>(a: Seq<A>, b: Seq<A>)
    ensures
        a == a + b.skip(b.len() as int),
{
    assert(a =~= a + b.skip(b.len() as int));
}

/// One of the five policies, with its own state.
pub enum PolicyKind<F> {
    Retry(RetryPolicy),
    Timeout(TimeoutPolicy),
    CircuitBreaker(CircuitBreakerPolicy),
    Fallback(FallbackPolicy<F>),
    RateLimiter(RateLimiter),
}

/// What every link of the chain carries besides the policy itself: the
/// action state left behind by the latest guarded attempt, and the next
/// inner layer.
pub struct PolicyData<F> {
    pub state: PolicyActionState,
    pub inner: Option<Box<PolicyNode<F>>>,
}

/// One link of the policy chain: a policy together with the chain below it.
pub struct PolicyNode<F> {
    pub data: PolicyData<F>,
    pub kind: PolicyKind<F>,
}

impl<F> Default for PolicyData<F> {
    /// A link at rest with nothing below it.
    fn default() -> (d: Self)
        ensures
            d.state is Success,
            d.inner is None,
    {
        PolicyData { state: PolicyActionState::Success, inner: None }
    }
}

impl<F> PolicyKind<F> {
    /// The policy's own well-formedness.
    pub open spec fn wf(self) -> bool {
        match self {
            PolicyKind::Retry(p) => p.wf(),
            PolicyKind::Timeout(p) => p.wf(),
            PolicyKind::CircuitBreaker(p) => p.wf(),
            PolicyKind::Fallback(_) => true,
            PolicyKind::RateLimiter(p) => p.wf(),
        }
    }

    /// Same policy kind with the same static configuration; counters and
    /// other run-to-run state are free to differ.
    pub open spec fn same_shape(self, other: Self) -> bool {
        match (self, other) {
            (PolicyKind::Retry(a), PolicyKind::Retry(b)) => a.retries == b.retries && a.delay
                == b.delay,
            (PolicyKind::Timeout(a), PolicyKind::Timeout(b)) => a.timeout == b.timeout,
            (PolicyKind::CircuitBreaker(a), PolicyKind::CircuitBreaker(b)) => a.same_config(b),
            (PolicyKind::Fallback(_), PolicyKind::Fallback(_)) => true,
            (PolicyKind::RateLimiter(a), PolicyKind::RateLimiter(b)) => a.same_config(b),
            _ => false,
        }
    }
}

impl<F> PolicyNode<F> {
    /// How many links the chain holds, this one included.
    pub open spec fn depth(self) -> nat
        decreases self,
    {
        match self.data.inner {
            None => 1,
            Some(b) => 1 + b.depth(),
        }
    }

    /// Every link is well formed and at rest: its policy invariant holds and
    /// no action state is pending.
    pub open spec fn wf(self) -> bool
        decreases self,
    {
        &&& self.data.state is Success
        &&& self.kind.wf()
        &&& match self.data.inner {
            None => true,
            Some(b) => b.wf(),
        }
    }

    /// The chains run in parallel: link for link the same policy kind with
    /// the same configuration.
    pub open spec fn same_shape(self, other: Self) -> bool
        decreases self,
    {
        &&& self.kind.same_shape(other.kind)
        &&& match (self.data.inner, other.data.inner) {
            (None, None) => true,
            (Some(a), Some(b)) => a.same_shape(*b),
            _ => false,
        }
    }

    /// Every transient counter in the chain is zero: retry counts, breaker
    /// counts and state, breaker timestamps.
    pub open spec fn counters_zero(self) -> bool
        decreases self,
    {
        &&& match self.kind {
            PolicyKind::Retry(p) => p.tries == 0,
            PolicyKind::CircuitBreaker(p) => p == p.cleared(),
            _ => true,
        }
        &&& match self.data.inner {
            None => true,
            Some(b) => b.counters_zero(),
        }
    }

    /// Every circuit breaker in the chain is in `Closed`.
    pub open spec fn breakers_closed(self) -> bool
        decreases self,
    {
        &&& match self.kind {
            PolicyKind::CircuitBreaker(p) => p.circuit_breaker_state is Closed,
            _ => true,
        }
        &&& match self.data.inner {
            None => true,
            Some(b) => b.breakers_closed(),
        }
    }

    /// No fallback policy anywhere in the chain.
    pub open spec fn fallback_free(self) -> bool
        decreases self,
    {
        &&& !(self.kind is Fallback)
        &&& self.inner_fallback_free()
    }

    /// No fallback policy anywhere below this link.
    pub open spec fn inner_fallback_free(self) -> bool
        decreases self, 1nat,
    {
        match self.data.inner {
            None => true,
            Some(b) => b.fallback_free(),
        }
    }

    /// The policies of the chain, outermost first.
    pub open spec fn chain_kinds(self) -> Seq<PolicyKind<F>>
        decreases self,
    {
        match self.data.inner {
            None => seq![self.kind],
            Some(b) => seq![self.kind] + b.chain_kinds(),
        }
    }

    /// How many more times this link's driver loop can ask for a retry.
    pub open spec fn retry_fuel(self) -> nat {
        match self.kind {
            PolicyKind::Retry(p) => (p.retries - p.tries) as nat,
            _ => 0,
        }
    }

    pub open spec fn is_leaf_retry(self) -> bool {
        self.data.inner is None && self.kind is Retry
    }

    pub open spec fn is_leaf_breaker(self) -> bool {
        self.data.inner is None && self.kind is CircuitBreaker
    }

    pub open spec fn is_leaf_timeout(self) -> bool {
        self.data.inner is None && self.kind is Timeout
    }

    pub open spec fn retry(self) -> RetryPolicy {
        self.kind->Retry_0
    }

    pub open spec fn breaker(self) -> CircuitBreakerPolicy {
        self.kind->CircuitBreaker_0
    }

    /// The link directly below this one is a bare retry policy.
    pub open spec fn inner_is_leaf_retry(self) -> bool {
        match self.data.inner {
            Some(b) => b.is_leaf_retry(),
            None => false,
        }
    }

    /// The retry policy of the link directly below this one.
    pub open spec fn inner_retry(self) -> RetryPolicy {
        self.data.inner->0.retry()
    }

    /// A retry link directly over a fallback link with nothing but
    /// fallback-free layers below it: the shape of "fallback engages only
    /// after the inner work fails, once per outer attempt".
    pub open spec fn is_retry_over_fallback(self) -> bool {
        &&& self.kind is Retry
        &&& match self.data.inner {
            Some(b) => b.kind is Fallback && b.inner_fallback_free(),
            None => false,
        }
    }

    /// Two chains of the same shape have the same length, and one is
    /// fallback-free exactly when the other is.
    pub proof fn lemma_same_shape_depth(a: Self, b: Self)
        requires
            a.same_shape(b),
        ensures
            a.depth() == b.depth(),
            a.fallback_free() == b.fallback_free(),
        decreases a,
    {
        match (a.data.inner, b.data.inner) {
            (Some(x), Some(y)) => {
                Self::lemma_same_shape_depth(*x, *y);
            },
            _ => {},
        }
    }

    /// Shape agreement is reflexive.
    pub proof fn lemma_same_shape_refl(a: Self)
        ensures
            a.same_shape(a),
        decreases a,
    {
        match a.data.inner {
            Some(x) => {
                Self::lemma_same_shape_refl(*x);
            },
            None => {},
        }
    }

    /// Shape agreement keeps the retry-over-fallback form of a chain.
    pub proof fn lemma_same_shape_keeps_retry_over_fallback(a: Self, b: Self)
        requires
            a.same_shape(b),
            a.is_retry_over_fallback(),
        ensures
            b.is_retry_over_fallback(),
    {
        let ai = a.data.inner->0;
        let bi = b.data.inner->0;
        assert(ai.same_shape(*bi));
        match (ai.data.inner, bi.data.inner) {
            (Some(x), Some(y)) => {
                Self::lemma_same_shape_depth(*x, *y);
            },
            _ => {},
        }
    }

    /// Shape agreement is transitive.
    pub proof fn lemma_same_shape_trans(a: Self, b: Self, c: Self)
        requires
            a.same_shape(b),
            b.same_shape(c),
        ensures
            a.same_shape(c),
        decreases a,
    {
        match (a.data.inner, b.data.inner, c.data.inner) {
            (Some(x), Some(y), Some(z)) => {
                Self::lemma_same_shape_trans(*x, *y, *z);
            },
            _ => {},
        }
    }
}

impl<F: FallbackFactory> PolicyNode<F> {
    /// The values this link's fallback factory has produced, for contracts
    /// about a fallback link.
    pub open spec fn factory_produced(self) -> Seq<F::Value> {
        self.kind->Fallback_0.factory.produced()
    }

    /// The produced history of the fallback link directly below this one.
    pub open spec fn inner_factory_produced(self) -> Seq<F::Value> {
        self.data.inner->0.factory_produced()
    }

    /// A chain of one link around the given policy.
    pub fn new(kind: PolicyKind<F>) -> (n: Self)
        ensures
            n.kind == kind,
            n.data.inner is None,
            n.data.state is Success,
    {
        PolicyNode { data: PolicyData { state: PolicyActionState::Success, inner: None }, kind }
    }

    /// Wrap the given chain as this link's inner layer.
    pub fn set_inner(&mut self, inner: Self)
        ensures
            final(self).kind == old(self).kind,
            final(self).data.state == old(self).data.state,
            (final(self).data.inner matches Some(b) && *b == inner),
            final(self).chain_kinds() == seq![old(self).kind] + inner.chain_kinds(),
    {
        self.data.inner = Some(Box::new(inner));
    }

    /// The identification string of this link's policy.
    pub fn name(&self) -> (s: String)
        ensures
            self.kind is Retry ==> s@ == "RetryPolicy"@,
            self.kind is Timeout ==> s@ == "TimeoutPolicy"@,
            self.kind is CircuitBreaker ==> s@ == "CircuitBreakerPolicy"@,
            self.kind is Fallback ==> s@ == "FallbackPolicy"@,
            self.kind is RateLimiter ==> s@ == "RateLimiter"@,
    {
        match &self.kind {
            PolicyKind::Retry(_) => String::from_str("RetryPolicy"),
            PolicyKind::Timeout(_) => String::from_str("TimeoutPolicy"),
            PolicyKind::CircuitBreaker(_) => String::from_str("CircuitBreakerPolicy"),
            PolicyKind::Fallback(_) => String::from_str("FallbackPolicy"),
            PolicyKind::RateLimiter(_) => String::from_str("RateLimiter"),
        }
    }

    /// The chain below this link.
    pub fn inner(&self) -> (r: &Option<Box<PolicyNode<F>>>)
        ensures
            r == &self.data.inner,
    {
        &self.data.inner
    }

    /// A throwaway policy to stand in a link while its own is worked on.
    fn kind_placeholder() -> (k: PolicyKind<F>) {
        PolicyKind::RateLimiter(RateLimiter::new(LimiterType::Smooth, 1, 1))
    }

    /// Zero every transient counter in the chain, this link's and all inner
    /// ones, and return every breaker to `Closed`.
    pub fn reset(&mut self)
        requires
            old(self).wf(),
        ensures
            final(self).wf(),
            old(self).same_shape(*final(self)),
            final(self).counters_zero(),
            final(self).depth() == old(self).depth(),
            old(self).kind is Fallback ==> final(self).kind == old(self).kind,
            (old(self).data.inner matches Some(b) && b.kind is Fallback) ==> final(self).data.inner is Some && final(self).inner_factory_produced() == old(self).inner_factory_produced(),
        decreases old(self).depth(),
    {
        let mut k = Self::kind_placeholder();
        core::mem::swap(&mut self.kind, &mut k);
        let k2 = match k {
            PolicyKind::Retry(mut p) => {
                p.reset();
                PolicyKind::Retry(p)
            },
            PolicyKind::Timeout(mut p) => {
                p.reset();
                PolicyKind::Timeout(p)
            },
            PolicyKind::CircuitBreaker(mut p) => {
                p.reset();
                PolicyKind::CircuitBreaker(p)
            },
            PolicyKind::Fallback(p) => PolicyKind::Fallback(p),
            PolicyKind::RateLimiter(p) => PolicyKind::RateLimiter(p),
        };
        self.kind = k2;
        self.data.state = PolicyActionState::Success;
        match self.data.inner.take() {
            Some(mut b) => {
                (&mut *b).reset();
                self.data.inner = Some(b);
            },
            None => {},
        }
    }

    /// Drive this layer of the stack to an outcome.
    ///
    /// The inner layer — or, at the innermost link, a guarded attempt — is
    /// run; success resets this chain and returns. A failure is recorded in
    /// the error log and handed to this link's `policy_action`, which
    /// accepts it, retries, substitutes a fallback, or surfaces a terminal
    /// error.
    ///
    /// The contract states the protocol's laws: histories only grow; the
    /// chain keeps its shape; a successful run ends on a successful attempt,
    /// and — short of a lone breaker carrying half-open progress — leaves
    /// every transient counter zero; a surfaced `RunnableError` carries
    /// exactly the payload of the last failed attempt; every failing run
    /// leaves at least one log entry, a non-looping link logging the very
    /// error it surfaces; a chain with no fallback never substitutes; a bare
    /// retry link makes up to `retries` attempts and answers `RetryError`
    /// exactly when they all failed; a bare breaker or timeout link makes at
    /// most one attempt and maps it through its state machine; a fallback
    /// link answers only `Ok` or `UsedFallback`, substituting exactly the
    /// factory-made values, its engagement count pinned when a retry link
    /// sits directly above it.
    #[verifier::loop_isolation(false)]
    pub fn run<T>(&mut self, op: &mut T, errors: &mut Vec<FailsafeError<T::Error>>) -> (r: Result<
        (),
        FailsafeError<T::Error>,
    >) where T: Runnable<Fallback = F::Value>, T::Error: Clone
        requires
            old(self).wf(),
        ensures
            final(self).wf(),
            old(self).same_shape(*final(self)),
            final(self).depth() == old(self).depth(),
            extends(final(op).attempts(), old(op).attempts()),
            extends(final(op).failures(), old(op).failures()),
            extends(final(op).substitutions(), old(op).substitutions()),
            extends(final(errors)@, old(errors)@),
            r is Ok ==> final(op).attempts().len() > old(op).attempts().len() && final(op).attempts().last() == true,
            (r matches Err(e) && e is RunnableError) ==> final(op).attempts().len() > old(op).attempts().len() && final(op).attempts().last() == false && final(op).failures().len() > old(op).failures().len() && r->Err_0->RunnableError_0 == final(op).failures().last(),
            !(r is Ok) ==> final(errors)@.len() > old(errors)@.len(),
            (!(old(self).kind is Retry) && !(old(self).kind is Fallback) && r is Err) ==> final(errors)@.last().same_kind(r->Err_0) && (!(r->Err_0 is RunnableError) ==> final(errors)@.last() == r->Err_0),
            (r is Ok && !(old(self).is_leaf_breaker() && !(old(self).breaker().circuit_breaker_state is Closed))) ==> final(self).counters_zero(),
            old(self).fallback_free() ==> final(op).substitutions() == old(op).substitutions(),
            old(self).kind is Retry ==> (r is Ok || (r matches Err(e) && e is RetryError))
                && final(self).retry().tries == 0,
            old(self).kind is Fallback ==> (r is Ok || (r matches Err(e) && e is UsedFallback)),
            (old(self).kind is Fallback && old(self).data.inner is None) ==> final(op).attempts().len() == old(op).attempts().len() + 1,
            (old(self).data.inner is None && !(old(self).kind is Retry)) ==> ({
                &&& (r is Ok ==> final(errors)@ == old(errors)@)
                &&& (!(r is Ok) ==> final(errors)@.len() == old(errors)@.len() + 1)
            }),
            old(self).is_leaf_retry() ==> ({
                let pre = old(op).attempts();
                let post = final(op).attempts();
                let t0 = old(self).retry().tries;
                let n = old(self).retry().retries;
                &&& (r is Ok || (r matches Err(e) && e is RetryError))
                &&& final(self).retry().tries == 0
                &&& (r is Ok ==> post.len() > pre.len() && post == pre + falses(
                    (post.len() - pre.len() - 1) as nat,
                ).push(true) && post.len() - pre.len() + t0 <= n)
                &&& (!(r is Ok) ==> post == pre + falses((n - t0) as nat))
                &&& (r is Ok ==> final(errors)@.len() + 1 == old(errors)@.len() + (post.len()
                    - pre.len()))
                &&& (!(r is Ok) ==> final(errors)@.len() == old(errors)@.len() + (n - t0))
                &&& forall|j: int|
                    old(errors)@.len() <= j < final(errors)@.len() ==> (#[trigger] final(errors)@[j]) is RunnableError
            }),
            old(self).is_leaf_breaker() ==> ({
                let pre_b = old(self).breaker();
                let post_b = final(self).breaker();
                &&& (r is Ok || (r matches Err(e) && (e is RunnableError
                    || e is CircuitBreakerOpen)))
                &&& ((r matches Err(e) && e is CircuitBreakerOpen) ==> post_b == pre_b
                    && pre_b.circuit_breaker_state is Open && final(op).attempts() == old(op).attempts())
                &&& (r is Ok ==> final(op).attempts() == old(op).attempts().push(true)
                    && post_b.same_but_last_attempt(pre_b.half_opened().success_step()) && (
                post_b.circuit_breaker_state is Closed ==> post_b.last_attempt is None))
                &&& ((r matches Err(e) && e is RunnableError) ==> final(op).attempts() == old(op).attempts().push(false) && post_b.same_but_last_attempt(
                    pre_b.half_opened().failure_step(),
                ) && post_b.last_attempt is Some)
            }),
            old(self).is_leaf_timeout() ==> ({
                let bound = old(self).kind->Timeout_0.timeout;
                let taken = final(self).kind->Timeout_0.time_taken;
                &&& final(op).attempts().len() == old(op).attempts().len() + 1
                &&& taken is Some
                &&& (r is Ok ==> final(op).attempts().last() && taken->0 <= bound)
                &&& (r matches Err(e) ==> (e is RunnableError || e is TimeoutError))
                &&& ((r matches Err(e) && e is RunnableError) ==> !final(op).attempts().last()
                    && taken->0 <= bound)
                &&& ((r matches Err(e) && e is TimeoutError) ==> taken->0 > bound)
            }),
            (old(self).kind is Fallback && old(self).inner_fallback_free()) ==> ({
                &&& (r is Ok ==> final(op).substitutions() == old(op).substitutions() && final(self).factory_produced() == old(self).factory_produced())
                &&& ((r matches Err(e) && e is UsedFallback) ==> final(self).factory_produced()
                    == old(self).factory_produced().push(final(self).factory_produced().last())
                    && final(op).substitutions() == old(op).substitutions().push(
                    final(self).factory_produced().last(),
                ))
            }),
            (old(self).kind is Fallback && old(self).inner_is_leaf_retry()) ==> ({
                let pre = old(op).attempts();
                let post = final(op).attempts();
                let t0 = old(self).inner_retry().tries;
                let n = old(self).inner_retry().retries;
                &&& (r is Ok ==> post.len() > pre.len() && post == pre + falses(
                    (post.len() - pre.len() - 1) as nat,
                ).push(true) && post.len() - pre.len() + t0 <= n)
                &&& (!(r is Ok) ==> post == pre + falses((n - t0) as nat))
            }),
            old(self).is_retry_over_fallback() ==> ({
                let p0 = old(self).inner_factory_produced();
                let p1 = final(self).inner_factory_produced();
                &&& final(self).is_retry_over_fallback()
                &&& extends(p1, p0)
                &&& final(op).substitutions() == old(op).substitutions() + p1.skip(p0.len() as int)
                &&& (!(r is Ok) ==> p1.len() == p0.len() + (old(self).retry().retries - old(self).retry().tries))
            }),
        decreases old(self).depth(),
    {
        proof {
            Self::lemma_same_shape_refl(*old(self));
            lemma_append_empty_skip(
                old(op).substitutions(),
                old(self).inner_factory_produced(),
            );
        }
        loop
            invariant
                self.wf(),
                old(self).same_shape(*self),
                self.depth() == old(self).depth(),
                self.fallback_free() == old(self).fallback_free(),
                extends(op.attempts(), old(op).attempts()),
                extends(op.failures(), old(op).failures()),
                extends(op.substitutions(), old(op).substitutions()),
                extends(errors@, old(errors)@),
                old(self).fallback_free() ==> op.substitutions() == old(op).substitutions(),
                !(old(self).kind is Retry) ==> *self == *old(self) && op.attempts() == old(op).attempts() && op.failures() == old(op).failures() && op.substitutions() == old(op).substitutions() && errors@ == old(errors)@,
                old(self).is_leaf_retry() ==> self.is_leaf_retry() && self.retry().retries == old(self).retry().retries && self.retry().delay == old(self).retry().delay && old(self).retry().tries <= self.retry().tries && op.attempts() == old(op).attempts()
                    + falses((self.retry().tries - old(self).retry().tries) as nat)
                    && op.substitutions() == old(op).substitutions() && errors@.len() == old(errors)@.len() + (self.retry().tries - old(self).retry().tries),
                old(self).is_leaf_retry() ==> forall|j: int|
                    old(errors)@.len() <= j < errors@.len() ==> (#[trigger] errors@[j]) is RunnableError,
                old(self).is_retry_over_fallback() ==> ({
                    let p0 = old(self).inner_factory_produced();
                    let p1 = self.inner_factory_produced();
                    &&& self.is_retry_over_fallback()
                    &&& self.retry().retries == old(self).retry().retries
                    &&& old(self).retry().tries <= self.retry().tries
                    &&& extends(p1, p0)
                    &&& op.substitutions() == old(op).substitutions() + p1.skip(p0.len() as int)
                    &&& p1.len() - p0.len() == self.retry().tries - old(self).retry().tries
                }),
            decreases self.retry_fuel(),
        {
            let inner_err: FailsafeError<T::Error>;
            let ghost head = *self;
            match self.data.inner.take() {
                Some(mut ib) => {
                    let ghost ib_pre = *ib;
                    let rr = (&mut *ib).run(op, errors);
                    proof {
                        Self::lemma_same_shape_depth(ib_pre, *ib);
                        if ib_pre.data.inner is Some && ib.data.inner is Some {
                            Self::lemma_same_shape_depth(
                                *ib_pre.data.inner->0,
                                *ib.data.inner->0,
                            );
                        }
                    }
                    self.data.inner = Some(ib);
                    proof {
                        Self::lemma_same_shape_trans(*old(self), head, *self);
                        if old(self).is_retry_over_fallback() {
                            let p0 = old(self).inner_factory_produced();
                            let ph = head.inner_factory_produced();
                            let pn = self.inner_factory_produced();
                            if pn != ph {
                                lemma_skip_push(ph, p0.len() as int, pn.last());
                                lemma_append_push(
                                    old(op).substitutions(),
                                    ph.skip(p0.len() as int),
                                    pn.last(),
                                );
                            }
                        }
                    }
                    match rr {
                        Ok(()) => {
                            let ghost before_reset = *self;
                            self.reset();
                            proof {
                                Self::lemma_same_shape_trans(*old(self), before_reset, *self);
                                Self::lemma_same_shape_depth(*old(self), *self);
                                if old(self).is_retry_over_fallback() {
                                    Self::lemma_same_shape_keeps_retry_over_fallback(
                                        *old(self),
                                        *self,
                                    );
                                }
                            }
                            return Ok(());
                        },
                        Err(e) => {
                            inner_err = e;
                        },
                    }
                },
                None => {
                    let mut k = Self::kind_placeholder();
                    core::mem::swap(&mut self.kind, &mut k);
                    let (k2, rr, st): (
                        PolicyKind<F>,
                        Result<(), FailsafeError<T::Error>>,
                        PolicyActionState,
                    ) = match k {
                        PolicyKind::Retry(mut p) => {
                            let g = match op.execute() {
                                Ok(()) => {
                                    p.reset();
                                    Ok(())
                                },
                                Err(e) => Err(FailsafeError::RunnableError(e)),
                            };
                            (PolicyKind::Retry(p), g, PolicyActionState::Success)
                        },
                        PolicyKind::Fallback(p) => {
                            let g = match op.execute() {
                                Ok(()) => Ok(()),
                                Err(e) => Err(FailsafeError::RunnableError(e)),
                            };
                            (PolicyKind::Fallback(p), g, PolicyActionState::Success)
                        },
                        PolicyKind::Timeout(mut p) => {
                            let (g, st) = p.run_guarded(op);
                            (PolicyKind::Timeout(p), g, st)
                        },
                        PolicyKind::CircuitBreaker(mut p) => {
                            let (g, st) = p.run_guarded(op);
                            (PolicyKind::CircuitBreaker(p), g, st)
                        },
                        PolicyKind::RateLimiter(mut p) => {
                            let (g, st) = p.run_guarded(op);
                            (PolicyKind::RateLimiter(p), g, st)
                        },
                    };
                    self.kind = k2;
                    self.data.state = st;
                    match rr {
                        Ok(()) => {
                            proof {
                                if old(self).is_leaf_retry() {
                                    lemma_append_push(
                                        old(op).attempts(),
                                        falses(
                                            (head.retry().tries - old(self).retry().tries) as nat,
                                        ),
                                        true,
                                    );
                                }
                                Self::lemma_same_shape_trans(*old(self), head, *self);
                            }
                            return Ok(());
                        },
                        Err(e) => {
                            inner_err = e;
                        },
                    }
                },
            }
            errors.push(inner_err.duplicate());
            let st = self.data.state;
            self.data.state = PolicyActionState::Success;
            let ghost mid = *self;
            let mut k = Self::kind_placeholder();
            core::mem::swap(&mut self.kind, &mut k);
            let (k2, action): (
                PolicyKind<F>,
                Result<PolicyActionState, FailsafeError<T::Error>>,
            ) = match k {
                PolicyKind::Retry(mut p) => {
                    let a = p.policy_action(op, inner_err);
                    (PolicyKind::Retry(p), a)
                },
                PolicyKind::Timeout(p) => {
                    let a = p.policy_action(st, inner_err);
                    (PolicyKind::Timeout(p), a)
                },
                PolicyKind::CircuitBreaker(mut p) => {
                    let a = p.policy_action(st, inner_err);
                    (PolicyKind::CircuitBreaker(p), a)
                },
                PolicyKind::Fallback(mut p) => {
                    let a = p.policy_action(op, inner_err);
                    (PolicyKind::Fallback(p), a)
                },
                PolicyKind::RateLimiter(p) => {
                    let a = p.policy_action(inner_err);
                    (PolicyKind::RateLimiter(p), a)
                },
            };
            self.kind = k2;
            proof {
                if self.data.inner is Some {
                    Self::lemma_same_shape_refl(*self.data.inner->0);
                }
                Self::lemma_same_shape_trans(*old(self), mid, *self);
                Self::lemma_same_shape_depth(*old(self), *self);
                if old(self).is_leaf_retry() {
                    lemma_append_push(
                        old(op).attempts(),
                        falses((mid.retry().tries - old(self).retry().tries) as nat),
                        false,
                    );
                    lemma_falses_push((mid.retry().tries - old(self).retry().tries) as nat);
                }
                if old(self).is_retry_over_fallback() {
                    Self::lemma_same_shape_keeps_retry_over_fallback(*old(self), *self);
                }
            }
            match action {
                Err(e) => {
                    return Err(e);
                },
                Ok(PolicyActionState::Retry) => {
                },
                Ok(PolicyActionState::UsingFallback) => {
                    return Err(FailsafeError::UsedFallback);
                },
                Ok(_) => {
                    let ghost before_reset = *self;
                    self.reset();
                    proof {
                        Self::lemma_same_shape_trans(*old(self), before_reset, *self);
                        Self::lemma_same_shape_depth(*old(self), *self);
                        if old(self).is_retry_over_fallback() {
                            Self::lemma_same_shape_keeps_retry_over_fallback(*old(self), *self);
                        }
                    }
                    return Ok(());
                },
            }
        }
    }
}

} // verus!
