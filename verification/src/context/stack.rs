//! The current context of a thread of execution.
//!
//! [`LocalContextStack`] is the slot of one thread, as a plain value.
//! [`ContextStack`] keeps one such slot for each thread that asks.

use crate::context::Context;
use std::cell::Cell;
use thread_local::ThreadLocal;
use vstd::prelude::*;

verus! {

/// `thread_local::ThreadLocal`, a value for each thread, carried as an
/// opaque value.
#[verifier::external_type_specification]
#[verifier::external_body]
#[verifier::reject_recursive_types(T)]
pub struct ExThreadLocal<T: Send>(ThreadLocal<T>);

/// `std::cell::Cell`, carried as an opaque value.
#[verifier::external_type_specification]
#[verifier::external_body]
#[verifier::reject_recursive_types(T)]
pub struct ExCell<T: ?Sized>(Cell<T>);

/// Trusted: `ThreadLocal::new` makes a store that holds nothing for any
/// thread. Nothing is claimed of it.
#[verifier::external_body]
fn no_threads() -> ThreadLocal<Cell<LocalContextStack>> {
    ThreadLocal::new()
}

/// Trusted: `ThreadLocal::get_or_default` gives the calling thread's value
/// and makes a default one first if the thread has none. Which value that is
/// depends on the thread, so nothing is claimed of it.
#[verifier::external_body]
fn slot_of_thread(threads: &ThreadLocal<Cell<LocalContextStack>>) -> &Cell<LocalContextStack> {
    threads.get_or_default()
}

/// Trusted: `ThreadLocal::get` gives the calling thread's value if the thread
/// has one. Nothing is claimed of it.
#[verifier::external_body]
fn slot_if_any(threads: &ThreadLocal<Cell<LocalContextStack>>) -> Option<
    &Cell<LocalContextStack>,
> {
    threads.get()
}

/// Trusted: `Cell::take` moves the value out and leaves a default one, and
/// does not unwind. The value was put there by an earlier call, so nothing
/// is claimed of it.
#[verifier::external_body]
fn take_slot(slot: &Cell<LocalContextStack>) -> LocalContextStack
    opens_invariants none
    no_unwind
{
    slot.take()
}

/// Trusted: `Cell::set` puts the value in and drops the one that was there,
/// and does not unwind.
#[verifier::external_body]
fn fill_slot(slot: &Cell<LocalContextStack>, value: LocalContextStack)
    opens_invariants none
    no_unwind
{
    slot.set(value)
}

/// A single slot holding the current context. Empty means that the root is
/// current.
pub struct LocalContextStack {
    current: Option<Context>,
}

impl Default for LocalContextStack {
    fn default() -> (r: Self)
        ensures
            r.spec_current() is None,
    {
        LocalContextStack::new()
    }
}

impl LocalContextStack {
    /// The context in the slot.
    pub closed spec fn spec_current(&self) -> Option<Context> {
        self.current
    }

    /// An empty slot.
    pub fn new() -> (r: LocalContextStack)
        ensures
            r.spec_current() is None,
    {
        LocalContextStack { current: None }
    }

    /// The current context, if a scope has been entered.
    pub fn current(&self) -> (r: Option<Context>)
        ensures
            r == self.spec_current(),
    {
        match &self.current {
            Some(c) => Some(c.clone()),
            None => None,
        }
    }

    /// Make `context` current and hand back what was current before.
    pub fn enter(&mut self, context: &Context) -> (previous: Option<Context>)
        ensures
            previous == old(self).spec_current(),
            final(self).spec_current() == Some(*context),
    {
        let mut slot = Some(context.clone());
        std::mem::swap(&mut self.current, &mut slot);
        slot
    }

    /// Leave a scope: make current again what `enter` handed back.
    pub fn restore(&mut self, previous: Option<Context>)
        ensures
            final(self).spec_current() == previous,
    {
        self.current = previous;
    }

    /// Leave a scope: make current again what `previous` holds, empty
    /// `previous`, and hand back the context that was current.
    pub(crate) fn restore_from(&mut self, previous: &mut Option<Context>) -> (spent: Option<
        Context,
    >)
        ensures
            final(self).spec_current() == *old(previous),
            *final(previous) is None,
            spent == old(self).spec_current(),
        opens_invariants none
        no_unwind
    {
        std::mem::swap(&mut self.current, previous);
        let mut spent: Option<Context> = None;
        std::mem::swap(previous, &mut spent);
        spent
    }

    /// Run `f` with `context` as the current context, and make current
    /// again what was current before, however `f` ends: if it unwinds, the
    /// unwinding goes on once that is done.
    pub fn in_scope<F: FnOnce(&mut LocalContextStack) -> R, R>(&mut self, context: &Context, f: F) -> (r:
        R)
        requires
            forall|scope: &mut LocalContextStack|
                scope.spec_current() == Some(*context) ==> #[trigger] call_requires(f, (scope,)),
        ensures
            final(self).spec_current() == old(self).spec_current(),
            exists|scope: &mut LocalContextStack|
                scope.spec_current() == Some(*context) && #[trigger] call_ensures(
                    f,
                    (scope,),
                    r,
                ),
    {
        let previous = self.enter(context);
        let mut scope = Entered { stack: self, previous };
        let result = f(&mut *scope.stack);
        let _spent = scope.stack.restore_from(&mut scope.previous);
        left(scope);
        result
    }
}

/// A scope that has been entered on a slot. Dropping it leaves the scope,
/// which also happens when the body of the scope unwinds.
pub(crate) struct Entered<'a> {
    pub(crate) stack: &'a mut LocalContextStack,
    pub(crate) previous: Option<Context>,
}

impl<'a> Drop for Entered<'a> {
    fn drop(&mut self)
        opens_invariants none
        no_unwind
    {
        let _spent = self.stack.restore_from(&mut self.previous);
    }
}

/// Trusted: `std::mem::forget` gives a value up without running its
/// destructor, so the slot that the value borrows stays as it is.
#[verifier::external_body]
pub(crate) fn left(scope: Entered<'_>)
    ensures
        *final(scope.stack) == *old(scope.stack),
{
    std::mem::forget(scope)
}

/// One current-context slot for each thread.
///
/// A thread sees its own slot only. What a slot holds is not visible in
/// contracts: the functions here move the calling thread's slot out, work on
/// it as a [`LocalContextStack`], and move it back.
pub struct ContextStack {
    thread_state: ThreadLocal<Cell<LocalContextStack>>,
}

impl ContextStack {
    /// A stack on which no thread has entered a scope.
    pub fn new() -> ContextStack {
        ContextStack { thread_state: no_threads() }
    }

    /// A copy of the calling thread's slot; an empty one if the thread has
    /// never entered a scope.
    pub fn local(&self) -> LocalContextStack {
        match slot_if_any(&self.thread_state) {
            Some(slot) => {
                let local = take_slot(slot);
                let mut copy = LocalContextStack::new();
                copy.restore(local.current());
                fill_slot(slot, local);
                copy
            },
            None => LocalContextStack::new(),
        }
    }

    /// The calling thread's current context, if the thread has entered a
    /// scope.
    pub fn current(&self) -> Option<Context> {
        match slot_if_any(&self.thread_state) {
            Some(slot) => {
                let local = take_slot(slot);
                let current = local.current();
                fill_slot(slot, local);
                current
            },
            None => None,
        }
    }

    /// Make `context` current for the calling thread and hand back what was
    /// current before.
    pub fn enter(&self, context: &Context) -> Option<Context> {
        let slot = slot_of_thread(&self.thread_state);
        let mut local = take_slot(slot);
        let previous = local.enter(context);
        fill_slot(slot, local);
        previous
    }

    /// Leave a scope of the calling thread: make current again what `enter`
    /// handed back.
    pub fn restore(&self, previous: Option<Context>) {
        let mut held = previous;
        let _spent = leave_slot(slot_of_thread(&self.thread_state), &mut held);
    }

    /// Run `f` with `context` as the calling thread's current context, and
    /// make current again what was current before, however `f` ends: if it
    /// unwinds, the unwinding goes on once that is done.
    pub fn in_scope<F: FnOnce() -> R, R>(&self, context: &Context, f: F) -> (r: R)
        requires
            call_requires(f, ()),
        ensures
            call_ensures(f, (), r),
    {
        let previous = self.enter(context);
        let mut scope = EnteredThread { slot: slot_of_thread(&self.thread_state), previous };
        let result = f();
        let _spent = leave_slot(scope.slot, &mut scope.previous);
        let_go(scope);
        result
    }
}

/// A scope that a thread has entered. Dropping it leaves the scope, which
/// happens when the body of the scope unwinds; after a body that returns,
/// the scope is left and this value given up.
struct EnteredThread<'a> {
    slot: &'a Cell<LocalContextStack>,
    previous: Option<Context>,
}

impl<'a> Drop for EnteredThread<'a> {
    fn drop(&mut self)
        opens_invariants none
        no_unwind
    {
        let _spent = leave_slot(self.slot, &mut self.previous);
    }
}

/// Leave a scope on a thread's slot: move the slot out, make current again
/// what `previous` holds, move the slot back, and hand back the context that
/// was current.
fn leave_slot(slot: &Cell<LocalContextStack>, previous: &mut Option<Context>) -> (spent: Option<
    Context,
>)
    ensures
        *final(previous) is None,
    opens_invariants none
    no_unwind
{
    let mut local = take_slot(slot);
    let spent = local.restore_from(previous);
    fill_slot(slot, local);
    spent
}

/// Trusted: `std::mem::forget` gives a value up without running its
/// destructor. Nothing is claimed of it.
#[verifier::external_body]
fn let_go(scope: EnteredThread<'_>) {
    std::mem::forget(scope)
}

} // verus!
