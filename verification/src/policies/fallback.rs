use vstd::prelude::*;

use crate::failsafe_error::FailsafeError;
use crate::run_state::PolicyActionState;
use crate::Runnable;

verus! {

/// A caller-supplied source of fallback values.
///
/// The factory may carry mutable state across activations — a counter, a
/// rotating list — and is invoked at most once per fallback activation. The
/// ghost history `produced()` records every value it handed out, so
/// contracts can say which value a fallback policy substituted.
pub trait FallbackFactory {
    /// The kind of value produced.
    type Value;

    /// Values produced so far, in order.
    spec fn produced(&self) -> Seq<Self::Value>;

    /// Produce a fresh fallback value.
    fn produce(&mut self) -> (v: Self::Value)
        ensures
            final(self).produced() == old(self).produced().push(v),
    ;
}

/// Replaces the operation's state from a factory-made value on inner
/// failure.
///
/// When the layer below fails, `policy_action` asks the factory for a value,
/// substitutes it into the operation, and reports `UsingFallback`; the
/// driver then surfaces `UsedFallback` to the caller. The operation is in a
/// valid state afterwards, but the nominal attempt failed.
pub struct FallbackPolicy<F> {
    pub factory: F,
}

impl<F: FallbackFactory> FallbackPolicy<F> {
    /// A fresh policy around the given factory.
    pub fn new(factory: F) -> (p: Self)
        ensures
            p.factory == factory,
    {
        FallbackPolicy { factory }
    }

    /// Engage the fallback: produce one value, substitute it into the
    /// operation, and direct the driver to report it.
    pub fn policy_action<T>(&mut self, op: &mut T, _error: FailsafeError<T::Error>) -> (r: Result<
        PolicyActionState,
        FailsafeError<T::Error>,
    >) where T: Runnable<Fallback = F::Value>
        ensures
            r == Ok::<PolicyActionState, FailsafeError<T::Error>>(
                PolicyActionState::UsingFallback,
            ),
            final(self).factory.produced() == old(self).factory.produced().push(
                final(self).factory.produced().last(),
            ),
            final(op).substitutions() == old(op).substitutions().push(
                final(self).factory.produced().last(),
            ),
            final(op).attempts() == old(op).attempts(),
            final(op).failures() == old(op).failures(),
    {
        let v = self.factory.produce();
        op.substitute(&v);
        Ok(PolicyActionState::UsingFallback)
    }
}

/// A factory that hands out clones of one fixed value.
///
/// This is the simplest useful [`FallbackFactory`]; it also serves to pin
/// the factory type of an engine whose stack has no fallback policy at all.
pub struct FixedFallback<V> {
    /// The value every activation clones.
    pub value: V,
    /// Ghost history of produced values.
    pub produced_log: Ghost<Seq<V>>,
}

impl<V: Clone> FixedFallback<V> {
    /// A factory that will keep producing copies of `value`.
    pub fn new(value: V) -> (f: Self)
        ensures
            f.value == value,
            f.produced() == Seq::<V>::empty(),
    {
        FixedFallback { value, produced_log: Ghost(Seq::empty()) }
    }
}

impl<V: Clone> FallbackFactory for FixedFallback<V> {
    type Value = V;

    open spec fn produced(&self) -> Seq<V> {
        self.produced_log@
    }

    fn produce(&mut self) -> (v: V)
        ensures
            final(self).produced() == old(self).produced().push(v),
    {
        let v = self.value.clone();
        self.produced_log = Ghost(self.produced_log@.push(v));
        v
    }
}

} // verus!
