use vstd::prelude::*;

use crate::failsafe_error::FailsafeError;
use crate::policies::fallback::FallbackFactory;
use crate::policies::{extends, PolicyKind, PolicyNode};
use crate::run_state::PolicyActionState;
use crate::Runnable;

verus! {

/// The engine façade: it owns the outermost policy of the chain and runs a
/// protected operation through it.
pub struct Failsafe<F> {
    pub policy: PolicyNode<F>,
    pub state: PolicyActionState,
}

/// Accumulates policies in push order; `build` links them into a chain,
/// the first pushed outermost.
pub struct FailsafeBuilder<F> {
    pub policies: Vec<PolicyKind<F>>,
}

impl<F: FallbackFactory> Failsafe<F> {
    /// An empty builder.
    pub fn builder() -> (b: FailsafeBuilder<F>)
        ensures
            b.policies@ == Seq::<PolicyKind<F>>::empty(),
    {
        FailsafeBuilder::new()
    }

    /// Run the protected operation under the whole policy stack.
    ///
    /// The inner errors seen along the way are collected for diagnostics and
    /// discarded; the returned value carries the terminal outcome. The
    /// contract restates the chain driver's laws at the engine surface.
    pub fn run<T>(&mut self, protected: &mut T) -> (r: Result<(), FailsafeError<T::Error>>) where
        T: Runnable<Fallback = F::Value>,
        T::Error: Clone,
        requires
            old(self).policy.wf(),
        ensures
            final(self).policy.wf(),
            old(self).policy.same_shape(final(self).policy),
            final(self).state == old(self).state,
            extends(final(protected).attempts(), old(protected).attempts()),
            extends(final(protected).failures(), old(protected).failures()),
            extends(final(protected).substitutions(), old(protected).substitutions()),
            r is Ok ==> final(protected).attempts().len() > old(protected).attempts().len()
                && final(protected).attempts().last() == true,
            (r matches Err(e) && e is RunnableError) ==> final(protected).attempts().len() > old(protected).attempts().len() && final(protected).attempts().last() == false && final(protected).failures().len() > old(protected).failures().len() && r->Err_0->RunnableError_0
                == final(protected).failures().last(),
            (r is Ok && !(old(self).policy.is_leaf_breaker() && !(old(self).policy.breaker().circuit_breaker_state is Closed))) ==> final(self).policy.counters_zero(),
            old(self).policy.fallback_free() ==> final(protected).substitutions() == old(protected).substitutions(),
            old(self).policy.kind is Retry ==> (r is Ok || (r matches Err(e) && e is RetryError))
                && final(self).policy.retry().tries == 0,
            old(self).policy.kind is Fallback ==> (r is Ok || (r matches Err(e)
                && e is UsedFallback)),
            old(self).policy.is_retry_over_fallback() ==> ({
                let p0 = old(self).policy.inner_factory_produced();
                let p1 = final(self).policy.inner_factory_produced();
                &&& final(self).policy.is_retry_over_fallback()
                &&& extends(p1, p0)
                &&& final(protected).substitutions() == old(protected).substitutions() + p1.skip(
                    p0.len() as int,
                )
                &&& (!(r is Ok) ==> p1.len() == p0.len() + (old(self).policy.retry().retries
                    - old(self).policy.retry().tries))
            }),
            (old(self).policy.kind is Fallback && old(self).policy.inner_is_leaf_retry()) ==> ({
                let pre = old(protected).attempts();
                let post = final(protected).attempts();
                let t0 = old(self).policy.inner_retry().tries;
                let n = old(self).policy.inner_retry().retries;
                &&& (r is Ok ==> post.len() > pre.len() && post == pre + crate::policies::falses(
                    (post.len() - pre.len() - 1) as nat,
                ).push(true) && post.len() - pre.len() + t0 <= n)
                &&& (!(r is Ok) ==> post == pre + crate::policies::falses((n - t0) as nat))
            }),
            old(self).policy.is_leaf_retry() ==> ({
                let pre = old(protected).attempts();
                let post = final(protected).attempts();
                let t0 = old(self).policy.retry().tries;
                let n = old(self).policy.retry().retries;
                &&& (r is Ok || (r matches Err(e) && e is RetryError))
                &&& final(self).policy.retry().tries == 0
                &&& (r is Ok ==> post.len() > pre.len() && post == pre
                    + crate::policies::falses((post.len() - pre.len() - 1) as nat).push(true)
                    && post.len() - pre.len() + t0 <= n)
                &&& (!(r is Ok) ==> post == pre + crate::policies::falses((n - t0) as nat))
            }),
            old(self).policy.is_leaf_breaker() ==> ({
                let pre_b = old(self).policy.breaker();
                let post_b = final(self).policy.breaker();
                &&& (r is Ok || (r matches Err(e) && (e is RunnableError
                    || e is CircuitBreakerOpen)))
                &&& ((r matches Err(e) && e is CircuitBreakerOpen) ==> post_b == pre_b
                    && pre_b.circuit_breaker_state is Open && final(protected).attempts() == old(protected).attempts())
                &&& (r is Ok ==> final(protected).attempts() == old(protected).attempts().push(
                    true,
                ) && post_b.same_but_last_attempt(pre_b.half_opened().success_step()))
                &&& ((r matches Err(e) && e is RunnableError) ==> final(protected).attempts()
                    == old(protected).attempts().push(false) && post_b.same_but_last_attempt(
                    pre_b.half_opened().failure_step(),
                ))
            }),
            old(self).policy.is_leaf_timeout() ==> ({
                &&& final(protected).attempts().len() == old(protected).attempts().len() + 1
                &&& (r is Ok ==> final(protected).attempts().last())
                &&& (r matches Err(e) ==> (e is RunnableError || e is TimeoutError))
                &&& ((r matches Err(e) && e is RunnableError) ==> !final(protected).attempts().last())
            }),
            (old(self).policy.kind is Fallback && old(self).policy.inner_fallback_free()) ==> ({
                &&& (r is Ok || (r matches Err(e) && e is UsedFallback))
                &&& (r is Ok ==> final(protected).substitutions() == old(protected).substitutions() && final(self).policy.factory_produced() == old(self).policy.factory_produced())
                &&& ((r matches Err(e) && e is UsedFallback) ==> final(self).policy.factory_produced() == old(self).policy.factory_produced().push(
                    final(self).policy.factory_produced().last(),
                ) && final(protected).substitutions() == old(protected).substitutions().push(
                    final(self).policy.factory_produced().last(),
                ))
            }),
    {
        let mut errors: Vec<FailsafeError<T::Error>> = Vec::new();
        self.policy.run(protected, &mut errors)
    }

    /// The engine's own action state; it stays at rest between runs.
    pub fn state(&self) -> (s: PolicyActionState)
        ensures
            s == PolicyActionState::Success,
    {
        PolicyActionState::Success
    }

    /// The outermost policy of the chain.
    pub fn policy(&self) -> (p: &PolicyNode<F>)
        ensures
            p == &self.policy,
    {
        &self.policy
    }
}

impl<F: FallbackFactory> FailsafeBuilder<F> {
    pub(crate) fn new() -> (b: FailsafeBuilder<F>)
        ensures
            b.policies@ == Seq::<PolicyKind<F>>::empty(),
    {
        FailsafeBuilder { policies: Vec::new() }
    }

    /// Add a policy around everything pushed after it.
    pub fn push(self, policy: PolicyKind<F>) -> (b: Self)
        ensures
            b.policies@ == self.policies@.push(policy),
    {
        let mut policies = self.policies;
        policies.push(policy);
        FailsafeBuilder { policies }
    }

    /// Link the pushed policies into an engine, the first pushed outermost:
    /// pushing `A`, `B`, `C` yields the chain `A → B → C`.
    pub fn build(self) -> (engine: Failsafe<F>)
        requires
            self.policies@.len() >= 1,
            forall|i: int| 0 <= i < self.policies@.len() ==> self.policies@[i].wf(),
        ensures
            engine.policy.wf(),
            engine.policy.chain_kinds() == self.policies@,
            engine.state == PolicyActionState::Success,
    {
        let mut kinds = self.policies;
        let ghost all = kinds@;
        let last = kinds.pop().unwrap();
        let mut node = PolicyNode::new(last);
        proof {
            assert(node.chain_kinds() =~= all.subrange(kinds@.len() as int, all.len() as int));
        }
        while kinds.len() > 0
            invariant
                kinds@.len() < all.len(),
                kinds@ == all.subrange(0, kinds@.len() as int),
                forall|i: int| 0 <= i < all.len() ==> all[i].wf(),
                node.wf(),
                node.chain_kinds() == all.subrange(kinds@.len() as int, all.len() as int),
            decreases kinds@.len(),
        {
            let next = kinds.pop().unwrap();
            let mut outer = PolicyNode::new(next);
            outer.set_inner(node);
            node = outer;
            proof {
                assert(node.chain_kinds() =~= all.subrange(kinds@.len() as int, all.len() as int));
            }
        }
        proof {
            assert(node.chain_kinds() =~= all);
        }
        Failsafe { policy: node, state: PolicyActionState::Success }
    }
}

} // verus!
