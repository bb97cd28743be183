//! The pair of disagreeing outputs, and the policies that reconcile it.

use vstd::prelude::*;

verus! {

/// The outputs of both computations of a run that disagreed.
#[derive(Clone, Copy, Debug)]
pub struct Mismatch<T> {
    /// What the control computation produced.
    pub control: T,
    /// What the experimental computation produced.
    pub experimental: T,
}

/// A policy that turns a disagreement into the single output of a run. It is
/// consumed by the call, so it runs at most once.
pub trait MismatchHandler<T>: Sized {
    /// Whether the policy may be called on `mismatch`.
    spec fn accepts(&self, mismatch: Mismatch<T>) -> bool;

    /// Whether `output` is a possible answer of the policy to `mismatch`.
    spec fn resolves(&self, mismatch: Mismatch<T>, output: T) -> bool;

    /// Pick the output of a run whose two computations disagreed.
    fn on_mismatch(self, mismatch: Mismatch<T>) -> (output: T)
        requires
            self.accepts(mismatch),
        ensures
            self.resolves(mismatch, output),
    ;
}

/// The default policy: trust the control computation.
#[derive(Clone, Copy, Debug)]
pub struct AlwaysControl;

impl<T> MismatchHandler<T> for AlwaysControl {
    open spec fn accepts(&self, mismatch: Mismatch<T>) -> bool {
        true
    }

    open spec fn resolves(&self, mismatch: Mismatch<T>, output: T) -> bool {
        output == mismatch.control
    }

    fn on_mismatch(self, mismatch: Mismatch<T>) -> (output: T) {
        mismatch.control
    }
}

/// A policy given as a closure over the mismatch.
pub struct FnTrait<F>(pub F);

impl<T, F: FnOnce(Mismatch<T>) -> T> MismatchHandler<T> for FnTrait<F> {
    open spec fn accepts(&self, mismatch: Mismatch<T>) -> bool {
        call_requires(self.0, (mismatch,))
    }

    open spec fn resolves(&self, mismatch: Mismatch<T>, output: T) -> bool {
        call_ensures(self.0, (mismatch,), output)
    }

    fn on_mismatch(self, mismatch: Mismatch<T>) -> (output: T) {
        (self.0)(mismatch)
    }
}

} // verus!
