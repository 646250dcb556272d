//! The three tiers in which the ambient evaluator is looked up.

use crate::evaluator::{acts_as, Evaluator, EvaluatorExt, EvaluatorRef};
use vstd::prelude::*;

verus! {

/// The evaluators that are installed for a thread of execution: one for the
/// whole process, one for the thread, and one for the innermost scope.
///
/// The first two can be set once. The third is set for the extent of a
/// scope and put back at its end.
pub struct Registry {
    global: Option<EvaluatorRef>,
    thread: Option<EvaluatorRef>,
    task: Option<EvaluatorRef>,
}

/// Error returned when the global evaluator is already set.
#[derive(Debug)]
pub struct SetGlobalDefaultError {
    _private: (),
}

/// Error returned when the thread evaluator is already set.
#[derive(Debug)]
pub struct SetThreadDefaultError {
    _private: (),
}

impl SetGlobalDefaultError {
    /// The error in words.
    pub fn message(&self) -> (r: &'static str)
        ensures
            r@ == "global evaluator already set"@,
    {
        "global evaluator already set"
    }
}

impl SetThreadDefaultError {
    /// The error in words.
    pub fn message(&self) -> (r: &'static str)
        ensures
            r@ == "thread evaluator already set"@,
    {
        "thread evaluator already set"
    }
}

impl Registry {
    /// The evaluator of the process.
    pub closed spec fn global(&self) -> Option<EvaluatorRef> {
        self.global
    }

    /// The evaluator of the thread.
    pub closed spec fn thread(&self) -> Option<EvaluatorRef> {
        self.thread
    }

    /// The evaluator of the innermost scope.
    pub closed spec fn task(&self) -> Option<EvaluatorRef> {
        self.task
    }

    /// The ambient evaluator: that of the innermost scope, else that of the
    /// thread, else that of the process.
    pub open spec fn resolve(&self) -> Option<EvaluatorRef> {
        if self.task() is Some {
            self.task()
        } else if self.thread() is Some {
            self.thread()
        } else {
            self.global()
        }
    }

    /// Whether this registry is `outer` with `evaluator` installed for the
    /// innermost scope.
    pub open spec fn overrides(&self, outer: Registry, evaluator: EvaluatorRef) -> bool {
        &&& self.task() == Some(evaluator)
        &&& self.keeps_outer_tiers(outer)
    }

    /// Whether this registry is `outer` with an evaluator installed for the
    /// innermost scope that stands for `evaluator`.
    pub open spec fn overrides_as<E: Evaluator>(&self, outer: Registry, evaluator: E) -> bool {
        &&& self.task() is Some
        &&& acts_as(&self.task().unwrap(), &evaluator)
        &&& self.keeps_outer_tiers(outer)
    }

    /// Whether this registry has the evaluators of the process and of the
    /// thread that `other` has.
    pub open spec fn keeps_outer_tiers(&self, other: Registry) -> bool {
        &&& self.thread() == other.thread()
        &&& self.global() == other.global()
    }

    /// Whether `e` is the ambient evaluator.
    pub open spec fn is_current(&self, e: Option<&EvaluatorRef>) -> bool {
        match e {
            Some(evaluator) => self.resolve() == Some(*evaluator),
            None => self.resolve() is None,
        }
    }

    /// A registry with nothing installed.
    pub fn new() -> (r: Registry)
        ensures
            r.global() is None,
            r.thread() is None,
            r.task() is None,
    {
        Registry { global: None, thread: None, task: None }
    }

    /// A registry with the given evaluators installed.
    pub fn with_tiers(
        global: Option<EvaluatorRef>,
        thread: Option<EvaluatorRef>,
        task: Option<EvaluatorRef>,
    ) -> (r: Registry)
        ensures
            r.global() == global,
            r.thread() == thread,
            r.task() == task,
    {
        Registry { global, thread, task }
    }

    /// The evaluators that are installed: that of the process, that of the
    /// thread, and that of the innermost scope.
    pub fn into_tiers(self) -> (r: (Option<EvaluatorRef>, Option<EvaluatorRef>, Option<EvaluatorRef>))
        ensures
            r.0 == self.global(),
            r.1 == self.thread(),
            r.2 == self.task(),
    {
        (self.global, self.thread, self.task)
    }

    /// The ambient evaluator.
    pub fn current(&self) -> (r: Option<&EvaluatorRef>)
        ensures
            self.is_current(r),
    {
        match &self.task {
            Some(e) => Some(e),
            None => match &self.thread {
                Some(e) => Some(e),
                None => match &self.global {
                    Some(e) => Some(e),
                    None => None,
                },
            },
        }
    }

    /// Install `evaluator` for a scope and hand back what was installed for
    /// the enclosing scope.
    pub fn enter_scope(&mut self, evaluator: EvaluatorRef) -> (previous: Option<EvaluatorRef>)
        ensures
            previous == old(self).task(),
            final(self).task() == Some(evaluator),
            final(self).thread() == old(self).thread(),
            final(self).global() == old(self).global(),
    {
        let mut slot = Some(evaluator);
        std::mem::swap(&mut self.task, &mut slot);
        slot
    }

    /// Leave a scope: install again what `previous` holds, empty
    /// `previous`, and hand back the evaluator that was installed.
    pub(crate) fn put_back(&mut self, previous: &mut Option<EvaluatorRef>) -> (spent: Option<
        EvaluatorRef,
    >)
        ensures
            final(self).task() == *old(previous),
            final(self).thread() == old(self).thread(),
            final(self).global() == old(self).global(),
            *final(previous) is None,
            spent == old(self).task(),
        opens_invariants none
        no_unwind
    {
        std::mem::swap(&mut self.task, previous);
        let mut spent: Option<EvaluatorRef> = None;
        std::mem::swap(previous, &mut spent);
        spent
    }

    /// Leave a scope: install again what `enter_scope` handed back.
    pub fn exit_scope(&mut self, previous: Option<EvaluatorRef>)
        ensures
            final(self).task() == previous,
            final(self).thread() == old(self).thread(),
            final(self).global() == old(self).global(),
    {
        self.task = previous;
    }
}

/// Set the evaluator of the process, which must not be set yet.
pub fn set_global_default<E: Evaluator + 'static>(registry: &mut Registry, evaluator: E)
    requires
        old(registry).global() is None,
    ensures
        final(registry).global() is Some,
        acts_as(&final(registry).global().unwrap(), &evaluator),
        final(registry).thread() == old(registry).thread(),
        final(registry).task() == old(registry).task(),
{
    let _ = try_set_global_default(registry, evaluator);
}

/// Set the evaluator of the process, and tell the evaluator that it is
/// installed. Fails, and changes and tells nothing, if it is already set.
pub fn try_set_global_default<E: Evaluator + 'static>(
    registry: &mut Registry,
    evaluator: E,
) -> (r: Result<(), SetGlobalDefaultError>)
    ensures
        r is Ok <==> old(registry).global() is None,
        r is Ok ==> final(registry).global() is Some && acts_as(
            &final(registry).global().unwrap(),
            &evaluator,
        ),
        r is Err ==> final(registry).global() == old(registry).global(),
        r is Err ==> final(registry).resolve() == old(registry).resolve(),
        final(registry).thread() == old(registry).thread(),
        final(registry).task() == old(registry).task(),
{
    if registry.global.is_some() {
        Err(SetGlobalDefaultError { _private: () })
    } else {
        evaluator.on_registration();
        registry.global = Some(evaluator.into_ref());
        Ok(())
    }
}

/// Set the evaluator of the thread, which must not be set yet.
pub fn set_thread_default<E: Evaluator + 'static>(registry: &mut Registry, evaluator: E)
    requires
        old(registry).thread() is None,
    ensures
        final(registry).thread() is Some,
        acts_as(&final(registry).thread().unwrap(), &evaluator),
        final(registry).global() == old(registry).global(),
        final(registry).task() == old(registry).task(),
{
    let _ = try_set_thread_default(registry, evaluator);
}

/// Set the evaluator of the thread, and tell the evaluator that it is
/// installed. Fails, and changes and tells nothing, if it is already set.
pub fn try_set_thread_default<E: Evaluator + 'static>(
    registry: &mut Registry,
    evaluator: E,
) -> (r: Result<(), SetThreadDefaultError>)
    ensures
        r is Ok <==> old(registry).thread() is None,
        r is Ok ==> final(registry).thread() is Some && acts_as(
            &final(registry).thread().unwrap(),
            &evaluator,
        ),
        r is Err ==> final(registry).thread() == old(registry).thread(),
        r is Err ==> final(registry).resolve() == old(registry).resolve(),
        final(registry).global() == old(registry).global(),
        final(registry).task() == old(registry).task(),
{
    if registry.thread.is_some() {
        Err(SetThreadDefaultError { _private: () })
    } else {
        evaluator.on_registration();
        registry.thread = Some(evaluator.into_ref());
        Ok(())
    }
}

/// An override that is installed for a scope. Dropping it puts back what was
/// installed before, which also happens when the body of the scope unwinds.
pub(crate) struct Installed<'a> {
    pub(crate) registry: &'a mut Registry,
    pub(crate) previous: Option<EvaluatorRef>,
}

impl<'a> Drop for Installed<'a> {
    fn drop(&mut self)
        opens_invariants none
        no_unwind
    {
        let _spent = self.registry.put_back(&mut self.previous);
    }
}

/// Trusted: `std::mem::forget` gives a value up without running its
/// destructor, so the registry that the value borrows stays as it is.
#[verifier::external_body]
pub(crate) fn given_up(scope: Installed<'_>)
    ensures
        *final(scope.registry) == *old(scope.registry),
{
    std::mem::forget(scope)
}

/// Run `f` with `evaluator` installed for the innermost scope, and put back
/// what was installed before, however `f` ends: if it unwinds, the unwinding
/// goes on once that is done.
pub fn with_default_no_registration<F: FnOnce(&mut Registry) -> R, R>(
    registry: &mut Registry,
    evaluator: EvaluatorRef,
    f: F,
) -> (r: R)
    requires
        forall|scope: &mut Registry|
            scope.overrides(*old(registry), evaluator) ==> #[trigger] call_requires(f, (scope,)),
    ensures
        final(registry).task() == old(registry).task(),
        exists|scope: &mut Registry|
            scope.overrides(*old(registry), evaluator) && #[trigger] call_ensures(f, (scope,), r)
                && final(registry).keeps_outer_tiers(*final(scope)),
{
    let previous = registry.enter_scope(evaluator);
    let mut scope = Installed { registry, previous };
    let result = f(&mut *scope.registry);
    let _spent = scope.registry.put_back(&mut scope.previous);
    given_up(scope);
    result
}

/// Run `f` with `evaluator` installed for the innermost scope, after telling
/// the evaluator that it is being installed, and put back what was installed
/// before.
pub fn with_default<E: Evaluator + 'static, F: FnOnce(&mut Registry) -> R, R>(
    registry: &mut Registry,
    evaluator: E,
    f: F,
) -> (r: R)
    requires
        forall|scope: &mut Registry|
            scope.overrides_as(*old(registry), evaluator) ==> #[trigger] call_requires(f, (scope,)),
    ensures
        final(registry).task() == old(registry).task(),
        exists|scope: &mut Registry|
            scope.overrides_as(*old(registry), evaluator) && #[trigger] call_ensures(
                f,
                (scope,),
                r,
            ) && final(registry).keeps_outer_tiers(*final(scope)),
{
    evaluator.on_registration();
    let shared = evaluator.into_ref();
    with_default_no_registration(registry, shared, f)
}

/// Hand the ambient evaluator to `f`: that of the innermost scope, else that
/// of the thread, else that of the process, else nothing.
pub fn get_default<F: FnOnce(Option<&EvaluatorRef>) -> R, R>(registry: &Registry, f: F) -> (r: R)
    requires
        forall|e: Option<&EvaluatorRef>| registry.is_current(e) ==> call_requires(f, (e,)),
    ensures
        exists|e: Option<&EvaluatorRef>|
            registry.is_current(e) && #[trigger] call_ensures(f, (e,), r),
{
    f(registry.current())
}

/// Inside a scope the evaluator installed for it is ambient, and once the
/// scope is left the evaluator that was ambient before is ambient again,
/// provided that the body of the scope set neither of the outer tiers.
pub proof fn lemma_scope_overrides_and_ends(
    before: Registry,
    inside: Registry,
    after: Registry,
    evaluator: EvaluatorRef,
)
    requires
        inside.overrides(before, evaluator),
        after.task() == before.task(),
        after.keeps_outer_tiers(inside),
    ensures
        inside.resolve() == Some(evaluator),
        after.resolve() == before.resolve(),
{
}

/// With all three tiers set, the ambient evaluator is that of the scope;
/// once the scope is left it is that of the thread; with the process tier
/// alone it is that of the process; with nothing set there is none.
pub proof fn lemma_resolution_precedence(registry: Registry)
    ensures
        registry.task() is Some ==> registry.resolve() == registry.task(),
        registry.task() is None && registry.thread() is Some ==> registry.resolve()
            == registry.thread(),
        registry.task() is None && registry.thread() is None ==> registry.resolve()
            == registry.global(),
{
}

} // verus!
