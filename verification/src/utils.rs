//! Wrappers that carry a context or an evaluator along with a computation
//! that runs in steps, such as a future.
//!
//! A step is run inside the carried scope, and the scope is left again
//! before the step hands control back: nothing stays installed between steps.

use crate::context::stack::{left, Entered, LocalContextStack};
use crate::context::Context;
use crate::evaluator::{Evaluator, EvaluatorExt, EvaluatorRef, NoEvaluator};
use crate::registry::{given_up, Installed, Registry};
use vstd::prelude::*;

verus! {

/// Extension trait for all types.
pub trait AnyExt {
    /// Carry `context` along with this value.
    fn wrap_context(self, context: Context) -> (r: WrapContext<Self>) where Self: Sized
        ensures
            r.context() == context,
            r.inner() == self,
    {
        WrapContext { context, inner: self }
    }

    /// Carry along the context that is current on `stack`, or the root.
    fn inherit_context(self, stack: &LocalContextStack) -> (r: WrapContext<Self>) where
        Self: Sized,

        ensures
            r.context() == (match stack.spec_current() {
                Some(c) => c,
                None => Context::spec_root(),
            }),
            r.inner() == self,
    {
        WrapContext { context: Context::current_or_root(stack), inner: self }
    }

    /// Carry `evaluator` along with this value. The evaluator is told that
    /// it is installed when the first step is run.
    fn wrap_evaluator(self, evaluator: EvaluatorRef) -> (r: WrapEvaluator<Self>) where
        Self: Sized,

        ensures
            r.evaluator() == evaluator,
            !r.registered(),
            r.inner() == self,
    {
        WrapEvaluator { evaluator, registered: false, inner: self }
    }

    /// Carry along the evaluator that is ambient in `registry`, or one that
    /// always abstains where there is none. The evaluator is not told
    /// again that it is installed.
    fn inherit_evaluator(self, registry: &Registry) -> (r: WrapEvaluator<Self>) where
        Self: Sized,

        ensures
            registry.resolve() is Some ==> registry.resolve() == Some(r.evaluator()),
            registry.resolve() is None ==> forall|
                feature: Seq<char>,
                context: Context,
                answer: Option<bool>,
            | #[trigger]
                r.evaluator().answers(feature, context, answer) <==> answer is None,
            r.registered(),
            r.inner() == self,
    {
        let evaluator = match registry.current() {
            Some(evaluator) => evaluator.clone(),
            None => NoEvaluator.into_ref(),
        };
        WrapEvaluator { evaluator, registered: true, inner: self }
    }
}

impl<T> AnyExt for T {

}

/// A value together with the context in which its steps run.
pub struct WrapContext<T> {
    context: Context,
    inner: T,
}

impl<T> WrapContext<T> {
    /// The context that is carried.
    pub closed spec fn context(&self) -> Context {
        self.context
    }

    /// The value that is wrapped.
    pub closed spec fn inner(&self) -> T {
        self.inner
    }

    /// The context that is carried.
    pub fn carried(&self) -> (r: &Context)
        ensures
            *r == self.context(),
    {
        &self.context
    }

    /// The wrapped value, for running a step on it.
    pub fn inner_mut(&mut self) -> (r: &mut T)
        ensures
            *r == old(self).inner(),
            final(self).inner() == *final(r),
            final(self).context() == old(self).context(),
    {
        &mut self.inner
    }

    /// Run one step `f` on the wrapped value with the carried context
    /// current on `stack`, and make current again what was current before.
    pub fn step<F: FnOnce(&mut LocalContextStack, &mut T) -> R, R>(
        &mut self,
        stack: &mut LocalContextStack,
        f: F,
    ) -> (r: R)
        requires
            forall|scope: &mut LocalContextStack, inner: &mut T|
                scope.spec_current() == Some(old(self).context()) && *inner == old(self).inner()
                    ==> #[trigger] call_requires(f, (scope, inner)),
        ensures
            final(stack).spec_current() == old(stack).spec_current(),
            final(self).context() == old(self).context(),
            exists|scope: &mut LocalContextStack, inner: &mut T|
                scope.spec_current() == Some(old(self).context()) && *inner == old(self).inner()
                    && #[trigger] call_ensures(f, (scope, inner), r) && final(self).inner()
                    == *final(inner),
    {
        let previous = stack.enter(&self.context);
        let mut scope = Entered { stack, previous };
        let result = f(&mut *scope.stack, &mut self.inner);
        let _spent = scope.stack.restore_from(&mut scope.previous);
        left(scope);
        result
    }
}

/// A value together with the evaluator under which its steps run.
pub struct WrapEvaluator<T> {
    evaluator: EvaluatorRef,
    registered: bool,
    inner: T,
}

impl<T> WrapEvaluator<T> {
    /// The evaluator that is carried.
    pub closed spec fn evaluator(&self) -> EvaluatorRef {
        self.evaluator
    }

    /// Whether the evaluator has been told that it is installed.
    pub closed spec fn registered(&self) -> bool {
        self.registered
    }

    /// The value that is wrapped.
    pub closed spec fn inner(&self) -> T {
        self.inner
    }

    /// The evaluator to install for the next step. Before the first step
    /// the evaluator is told that it is installed.
    pub fn prepare(&mut self) -> (r: EvaluatorRef)
        ensures
            r == old(self).evaluator(),
            final(self).evaluator() == old(self).evaluator(),
            final(self).inner() == old(self).inner(),
            final(self).registered(),
    {
        if !self.registered {
            self.evaluator.on_registration();
            self.registered = true;
        }
        self.evaluator.clone()
    }

    /// The wrapped value, for running a step on it.
    pub fn inner_mut(&mut self) -> (r: &mut T)
        ensures
            *r == old(self).inner(),
            final(self).inner() == *final(r),
            final(self).evaluator() == old(self).evaluator(),
            final(self).registered() == old(self).registered(),
    {
        &mut self.inner
    }

    /// Run one step `f` on the wrapped value with the carried evaluator
    /// installed for the innermost scope of `registry`, and put back what
    /// was installed before. Before the first step the evaluator is told
    /// that it is installed.
    pub fn step<F: FnOnce(&mut Registry, &mut T) -> R, R>(
        &mut self,
        registry: &mut Registry,
        f: F,
    ) -> (r: R)
        requires
            forall|scope: &mut Registry, inner: &mut T|
                scope.overrides(*old(registry), old(self).evaluator())
                    && *inner == old(self).inner()
                    ==> #[trigger] call_requires(f, (scope, inner)),
        ensures
            final(registry).task() == old(registry).task(),
            final(self).evaluator() == old(self).evaluator(),
            final(self).registered(),
            exists|scope: &mut Registry, inner: &mut T|
                scope.overrides(*old(registry), old(self).evaluator())
                    && *inner == old(self).inner()
                    && #[trigger] call_ensures(f, (scope, inner), r)
                    && final(self).inner() == *final(inner)
                    && final(registry).keeps_outer_tiers(*final(scope)),
    {
        let evaluator = self.prepare();
        let previous = registry.enter_scope(evaluator);
        let mut scope = Installed { registry, previous };
        let result = f(&mut *scope.registry, &mut self.inner);
        let _spent = scope.registry.put_back(&mut scope.previous);
        given_up(scope);
        result
    }
}

} // verus!
