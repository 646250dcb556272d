//! Contexts: immutable nodes of a tree, each pinned to the evaluator that was
//! ambient when it was created.

pub mod stack;

use crate::context::stack::LocalContextStack;
use crate::evaluator::{weak_target, Evaluator, EvaluatorRef, WeakEvaluatorRef};
use crate::extensions::{Erased, Extensions};
use crate::fields::Fields;
use crate::registry::Registry;
use std::any::TypeId;
use std::sync::Arc;
use vstd::prelude::*;

verus! {

/// A context for evaluating feature flags.
///
/// The root context carries nothing. Every other context carries a weak
/// handle to its evaluator, an optional parent, and extension data.
pub struct Context {
    data: Option<Arc<Data>>,
}

struct Data {
    evaluator: WeakEvaluatorRef,
    parent: Option<Context>,
    extensions: Extensions,
}

impl Drop for Data {
    /// When the last owner of a context lets go, the evaluator that the
    /// context was created under is told, provided that it is still alive.
    fn drop(&mut self)
        opens_invariants none
        no_unwind
    {
        match self.evaluator.upgrade() {
            Some(evaluator) => {
                let parent: Option<&Context> = match &self.parent {
                    Some(p) => Some(p),
                    None => None,
                };
                evaluator.on_close_context(ContextRef { parent, extensions: &mut self.extensions });
            },
            None => {},
        }
    }
}

impl Clone for Context {
    /// Another owner of the same node.
    fn clone(&self) -> (r: Self)
        ensures
            r == *self,
    {
        match &self.data {
            Some(data) => Context { data: Some(data.clone()) },
            None => Context { data: None },
        }
    }
}

impl Context {
    /// Whether this is the root context.
    pub closed spec fn spec_is_root(&self) -> bool {
        self.data is None
    }

    /// The parent that the context keeps, if it keeps one.
    pub closed spec fn stored_parent(&self) -> Option<Context> {
        match self.data {
            Some(data) => data.parent,
            None => None,
        }
    }

    /// The evaluator that the context was created under, if there was one.
    pub closed spec fn snapshot(&self) -> Option<EvaluatorRef> {
        match self.data {
            Some(data) => weak_target(data.evaluator),
            None => None,
        }
    }

    /// The extension data of the context; the root has none.
    pub closed spec fn spec_extensions(&self) -> Option<Extensions> {
        match self.data {
            Some(data) => Some(data.extensions),
            None => None,
        }
    }

    /// The next context up: nothing above the root, the root above a
    /// context without a parent of its own.
    pub open spec fn spec_parent(&self) -> Option<Context> {
        if self.spec_is_root() {
            None
        } else if self.stored_parent() is Some {
            self.stored_parent()
        } else {
            Some(Context::spec_root())
        }
    }

    /// The root context.
    pub closed spec fn spec_root() -> Context {
        Context { data: None }
    }

    /// The context, then its parent, and so on up to the root.
    pub closed spec fn ancestry(&self) -> Seq<Context>
        decreases self,
    {
        match self.data {
            Some(data) => match data.parent {
                Some(parent) => seq![*self] + parent.ancestry(),
                None => seq![*self, Context { data: None }],
            },
            None => seq![*self],
        }
    }

    /// The root context: no parent, no data, and always evaluated by the
    /// evaluator that is ambient at the time of asking.
    pub fn root() -> (r: Context)
        ensures
            r == Context::spec_root(),
            r.spec_is_root(),
    {
        Context { data: None }
    }

    /// Whether this is the root context.
    pub fn is_root(&self) -> (r: bool)
        ensures
            r == self.spec_is_root(),
    {
        self.data.is_none()
    }

    /// The context that is current on the given stack.
    pub fn current(stack: &LocalContextStack) -> (r: Option<Context>)
        ensures
            r == stack.spec_current(),
    {
        stack.current()
    }

    /// The context that is current on the given stack, or the root.
    pub fn current_or_root(stack: &LocalContextStack) -> (r: Context)
        ensures
            r == (match stack.spec_current() {
                Some(c) => c,
                None => Context::spec_root(),
            }),
    {
        match stack.current() {
            Some(c) => c,
            None => Context::root(),
        }
    }

    /// The parent of this context. Only the root has none.
    pub fn parent(&self) -> (r: Option<Context>)
        ensures
            r == self.spec_parent(),
    {
        match &self.data {
            Some(data) => match &data.parent {
                Some(parent) => Some(parent.clone()),
                None => Some(Context::root()),
            },
            None => None,
        }
    }

    /// The context, then its parent, and so on up to the root.
    pub fn iter(&self) -> (r: Vec<Context>)
        ensures
            r@ == self.ancestry(),
    {
        let mut out: Vec<Context> = Vec::new();
        out.push(self.clone());
        let mut cursor = self.clone();
        proof {
            lemma_ancestry_unfold(cursor);
            assert(self.ancestry() =~= out@.drop_last() + cursor.ancestry());
        }
        loop
            invariant
                out@.len() >= 1,
                out@.last() == cursor,
                self.ancestry() == out@.drop_last() + cursor.ancestry(),
            ensures
                out@ == self.ancestry(),
            decreases cursor.ancestry().len(),
        {
            proof {
                lemma_ancestry_unfold(cursor);
            }
            match cursor.parent() {
                Some(parent) => {
                    proof {
                        lemma_ancestry_unfold(parent);
                    }
                    let ghost before = out@;
                    out.push(parent.clone());
                    assert(self.ancestry() =~= out@.drop_last() + parent.ancestry()) by {
                        assert(out@.drop_last() =~= before);
                        assert(before =~= before.drop_last() + seq![cursor]);
                    }
                    cursor = parent;
                },
                None => {
                    assert(out@ =~= out@.drop_last() + seq![cursor]);
                    break ;
                },
            }
        }
        out
    }

    /// The evaluator that decides for this context: the one that the context
    /// was created under, while some owner keeps it alive; for the root, the
    /// one that is ambient now.
    pub fn evaluator(&self, registry: &Registry) -> (r: Option<EvaluatorRef>)
        ensures
            self.spec_is_root() ==> r == registry.resolve(),
            !self.spec_is_root() && r is Some ==> r == self.snapshot(),
    {
        match &self.data {
            Some(data) => data.evaluator.upgrade(),
            None => match registry.current() {
                Some(evaluator) => Some(evaluator.clone()),
                None => None,
            },
        }
    }

    /// A new context below the one that is current on `stack`, created
    /// under the evaluator that is ambient in `registry`.
    pub fn new(stack: &LocalContextStack, registry: &Registry, fields: Fields<'_>) -> (r: Context)
        ensures
            !r.spec_is_root(),
            r.stored_parent() == Context::kept_parent(stack.spec_current()),
            r.snapshot() == registry.resolve(),
            r.spec_extensions() is Some,
            Context::filled_by(
                registry.resolve(),
                Context::kept_parent(stack.spec_current()),
                fields,
                r.spec_extensions().unwrap(),
            ),
    {
        let current = Context::current(stack);
        Context::new_with_parent(registry, current.as_ref(), fields)
    }

    /// The parent that a new context keeps: the one given, unless that is
    /// the root or none was given.
    pub open spec fn kept_parent(parent: Option<Context>) -> Option<Context> {
        match parent {
            Some(p) => if p.spec_is_root() {
                None
            } else {
                Some(p)
            },
            None => None,
        }
    }

    /// Whether `store` is what a new context holds that was created under
    /// `evaluator` below `parent` and described by `fields`: what the
    /// evaluator, told of the context, made of an empty store; an empty
    /// store where there is no evaluator.
    pub open spec fn filled_by(
        evaluator: Option<EvaluatorRef>,
        parent: Option<Context>,
        fields: Fields<'_>,
        store: Extensions,
    ) -> bool {
        match evaluator {
            Some(e) => exists|fresh: Extensions|
                fresh.entries() == Map::<TypeId, Erased>::empty() && #[trigger] e.fills(
                    parent,
                    fields,
                    fresh,
                    store,
                ),
            None => store.entries() == Map::<TypeId, Erased>::empty(),
        }
    }

    /// A new context below `parent`, created under the evaluator that is
    /// ambient in `registry`. That evaluator is told of the new context and
    /// of `fields` before anyone else sees the context, and may fill its
    /// extension data.
    pub fn new_with_parent(registry: &Registry, parent: Option<&Context>, fields: Fields<'_>) -> (r:
        Context)
        ensures
            !r.spec_is_root(),
            r.stored_parent() == Context::kept_parent(
                match parent {
                    Some(p) => Some(*p),
                    None => None,
                },
            ),
            r.snapshot() == registry.resolve(),
            r.spec_extensions() is Some,
            Context::filled_by(
                registry.resolve(),
                Context::kept_parent(
                    match parent {
                        Some(p) => Some(*p),
                        None => None,
                    },
                ),
                fields,
                r.spec_extensions().unwrap(),
            ),
    {
        let kept: Option<Context> = match parent {
            Some(p) => if p.is_root() {
                None
            } else {
                Some(p.clone())
            },
            None => None,
        };
        let data = match registry.current() {
            Some(evaluator) => {
                let mut data = Data {
                    evaluator: evaluator.downgrade(),
                    parent: kept,
                    extensions: Extensions::new(),
                };
                let ghost fresh = data.extensions;
                evaluator.on_new_context(
                    ContextRef { parent: data.parent.as_ref(), extensions: &mut data.extensions },
                    fields,
                );
                assert(registry.resolve().unwrap().fills(
                    data.parent,
                    fields,
                    fresh,
                    data.extensions,
                ));
                data
            },
            None => Data {
                evaluator: WeakEvaluatorRef::new(),
                parent: kept,
                extensions: Extensions::new(),
            },
        };
        Context { data: Some(Arc::new(data)) }
    }

    /// Run `f` with this context as the current context of `stack`.
    pub fn in_scope<F: FnOnce(&mut LocalContextStack) -> R, R>(
        &self,
        stack: &mut LocalContextStack,
        f: F,
    ) -> (r: R)
        requires
            forall|scope: &mut LocalContextStack|
                scope.spec_current() == Some(*self) ==> #[trigger] call_requires(f, (scope,)),
        ensures
            final(stack).spec_current() == old(stack).spec_current(),
            exists|scope: &mut LocalContextStack|
                scope.spec_current() == Some(*self) && #[trigger] call_ensures(f, (scope,), r),
    {
        stack.in_scope(self, f)
    }

    /// The extension data of this context; the root has none.
    pub fn extensions(&self) -> (r: Option<&Extensions>)
        ensures
            match r {
                Some(e) => self.spec_extensions() == Some(*e),
                None => self.spec_extensions() is None,
            },
            r is None <==> self.spec_is_root(),
    {
        match &self.data {
            Some(data) => Some(&data.extensions),
            None => None,
        }
    }
}

/// The root has no parent, no evaluator of its own and no extension data.
pub proof fn lemma_root_is_bare()
    ensures
        Context::spec_root().spec_is_root(),
        Context::spec_root().spec_parent() is None,
        Context::spec_root().stored_parent() is None,
        Context::spec_root().snapshot() is None,
        Context::spec_root().spec_extensions() is None,
        Context::spec_root().ancestry() == seq![Context::spec_root()],
{
}

/// The ancestry of a context is the context followed by the ancestry of its
/// parent, and the root's ancestry is the root alone.
pub proof fn lemma_ancestry_unfold(c: Context)
    ensures
        c.ancestry() == seq![c] + (match c.spec_parent() {
            Some(p) => p.ancestry(),
            None => Seq::<Context>::empty(),
        }),
        c.ancestry().len() >= 1,
        c.spec_parent() is Some ==> c.spec_parent().unwrap().ancestry().len() < c.ancestry().len(),
{
    match c.data {
        Some(data) => match data.parent {
            Some(parent) => {
                assert(c.ancestry() =~= seq![c] + parent.ancestry());
            },
            None => {
                let root = Context { data: None };
                assert(root.ancestry() =~= seq![root]);
                assert(c.ancestry() =~= seq![c] + root.ancestry());
            },
        },
        None => {
            assert(c.ancestry() =~= seq![c] + Seq::<Context>::empty());
        },
    }
}

/// The ancestry of a context starts with the context, each further element
/// is the parent of the one before it, and it ends with the first context
/// that has no parent, which is the root: the root is the last element and
/// no other.
pub proof fn lemma_ancestry_follows_parents(c: Context, i: int)
    requires
        0 <= i < c.ancestry().len(),
    ensures
        c.ancestry()[0] == c,
        i + 1 < c.ancestry().len() ==> c.ancestry()[i].spec_parent() == Some(
            c.ancestry()[i + 1],
        ),
        i + 1 == c.ancestry().len() ==> c.ancestry()[i].spec_parent() is None,
        c.ancestry()[i].spec_is_root() <==> i + 1 == c.ancestry().len(),
    decreases c.ancestry().len(),
{
    lemma_ancestry_unfold(c);
    if i > 0 {
        let p = c.spec_parent().unwrap();
        lemma_ancestry_unfold(p);
        lemma_ancestry_follows_parents(p, i - 1);
        assert(c.ancestry()[i] == p.ancestry()[i - 1]);
        if i + 1 < c.ancestry().len() {
            assert(c.ancestry()[i + 1] == p.ancestry()[i]);
        }
    } else {
        if c.spec_parent() is Some {
            let p = c.spec_parent().unwrap();
            lemma_ancestry_unfold(p);
            assert(c.ancestry()[1] == p.ancestry()[0]);
            lemma_ancestry_follows_parents(p, 0);
        }
    }
}

/// A context under construction or being closed, as its evaluator sees it:
/// the parent can be read, the extension data can be changed.
pub struct ContextRef<'a> {
    /// The parent that the context keeps, if it keeps one.
    pub parent: Option<&'a Context>,
    /// The extension data of the context.
    pub extensions: &'a mut Extensions,
}

impl<'a> ContextRef<'a> {
    /// The parent that the context was created with, if it has one.
    pub open spec fn spec_parent(&self) -> Option<Context> {
        match self.parent {
            Some(p) => Some(*p),
            None => None,
        }
    }

    /// The parent that the context was created with, if it has one.
    pub fn parent(&self) -> (r: Option<&Context>)
        ensures
            match r {
                Some(p) => self.spec_parent() == Some(*p),
                None => self.spec_parent() is None,
            },
    {
        self.parent
    }

    /// The extension data of the context as it is now.
    pub open spec fn spec_extensions(&self) -> Extensions {
        *self.extensions
    }

    /// The extension data of the context.
    pub fn extensions(&self) -> (r: &Extensions)
        ensures
            *r == self.spec_extensions(),
    {
        &*self.extensions
    }

    /// The extension data of the context, for changing it.
    pub fn extensions_mut(&mut self) -> (r: &mut Extensions)
        ensures
            *r == old(self).spec_extensions(),
            final(self).spec_extensions() == *final(r),
            final(self).spec_parent() == old(self).spec_parent(),
            *final(final(self).extensions) == *final(old(self).extensions),
    {
        &mut *self.extensions
    }

    /// The ancestors of the context, nearest first. The context itself is
    /// not among them: it is not yet, or no longer, shared.
    pub fn iter(&self) -> (r: Vec<Context>)
        ensures
            r@ == (match self.spec_parent() {
                Some(p) => p.ancestry(),
                None => Seq::<Context>::empty(),
            }),
    {
        match self.parent {
            Some(p) => p.iter(),
            None => Vec::new(),
        }
    }

    /// The same view, lent for one call.
    pub fn by_mut(&mut self) -> (r: ContextRef<'_>)
        ensures
            r.spec_parent() == old(self).spec_parent(),
            r.spec_extensions() == old(self).spec_extensions(),
            final(self).spec_parent() == old(self).spec_parent(),
            final(self).spec_extensions() == *final(r.extensions),
            *final(final(self).extensions) == *final(old(self).extensions),
        opens_invariants none
        no_unwind
    {
        ContextRef { parent: self.parent, extensions: &mut *self.extensions }
    }
}

/// Things that can name the parent of a new context: a context, an optional
/// context, or `()` for none.
pub trait AsContextParam {
    /// The context that is named, if any.
    spec fn named(&self) -> Option<Context>;

    /// The context that is named, if any.
    fn as_context_param(&self) -> (r: Option<&Context>)
        ensures
            match r {
                Some(c) => self.named() == Some(*c),
                None => self.named() is None,
            },
    ;
}

impl AsContextParam for Context {
    open spec fn named(&self) -> Option<Context> {
        Some(*self)
    }

    fn as_context_param(&self) -> (r: Option<&Context>) {
        Some(self)
    }
}

impl AsContextParam for Option<Context> {
    open spec fn named(&self) -> Option<Context> {
        *self
    }

    fn as_context_param(&self) -> (r: Option<&Context>) {
        self.as_ref()
    }
}

impl AsContextParam for () {
    open spec fn named(&self) -> Option<Context> {
        None
    }

    fn as_context_param(&self) -> (r: Option<&Context>) {
        None
    }
}

} // verus!
