//! Evaluators of feature flags, shared handles to them, and combinators.

pub use crate::registry::{
    get_default, set_global_default, set_thread_default, try_set_global_default,
    try_set_thread_default, with_default, Registry, SetGlobalDefaultError, SetThreadDefaultError,
};

use crate::context::{Context, ContextRef};
use crate::extensions::Extensions;
use crate::fields::Fields;
use std::any::Any;
use std::sync::{Arc, Weak};
use vstd::prelude::*;

verus! {

/// The component that decides whether a feature is enabled.
///
/// An evaluator is described by a relation, not a function: it may answer
/// the same question differently at different times.
pub trait Evaluator: Send + Sync {
    /// Whether `answer` is one that this evaluator may give for `feature` in
    /// `context`. `None` stands for abstaining. Unless an evaluator says
    /// otherwise, it may give any answer.
    open spec fn answers(&self, feature: Seq<char>, context: Context, answer: Option<bool>) -> bool {
        true
    }

    /// Decide a feature in a context: `Some(true)` enabled, `Some(false)`
    /// disabled, `None` for the feature's own default.
    fn is_enabled(&self, feature: &str, context: &Context) -> (r: Option<bool>)
        ensures
            self.answers(feature@, *context, r),
    ;

    /// Called when the evaluator is installed for a scope. May be called
    /// several times.
    fn on_registration(&self) {
    }

    /// Whether this evaluator, told of a new context below `parent` that is
    /// described by `fields`, may turn the extension data `before` into
    /// `after`. Unless an evaluator says otherwise, it may leave anything.
    open spec fn fills(
        &self,
        parent: Option<Context>,
        fields: Fields<'_>,
        before: Extensions,
        after: Extensions,
    ) -> bool {
        true
    }

    /// Called when a context is created under this evaluator, before the
    /// context is shared. The evaluator may fill the context's extensions;
    /// one that has no use for the call leaves the body empty.
    fn on_new_context(&self, context: ContextRef<'_>, fields: Fields<'_>)
        ensures
            self.fills(
                context.spec_parent(),
                fields,
                *old(context.extensions),
                *final(context.extensions),
            ),
    ;

    /// Called when the last holder of a context created under this evaluator
    /// lets it go. The call is made while the context is being dropped, so
    /// it is declared not to unwind.
    fn on_close_context(&self, context: ContextRef<'_>)
        opens_invariants none
        no_unwind
    {
    }
}

/// Whether two evaluators may fill the extension data of a new context in
/// exactly the same ways.
pub open spec fn same_fills<A: Evaluator + ?Sized, B: Evaluator + ?Sized>(a: &A, b: &B) -> bool {
    forall|parent: Option<Context>, fields: Fields<'_>, before: Extensions, after: Extensions|
        #[trigger] a.fills(parent, fields, before, after) == b.fills(parent, fields, before, after)
}

/// Whether one evaluator stands for another: it may answer, and may fill
/// the extension data of a new context, exactly as the other may.
pub open spec fn acts_as<A: Evaluator + ?Sized, B: Evaluator + ?Sized>(a: &A, b: &B) -> bool {
    same_answers(a, b) && same_fills(a, b)
}

/// Whether two evaluators may give exactly the same answers everywhere.
pub open spec fn same_answers<A: Evaluator + ?Sized, B: Evaluator + ?Sized>(a: &A, b: &B) -> bool {
    forall|feature: Seq<char>, context: Context, answer: Option<bool>|
        #[trigger] a.answers(feature, context, answer) == b.answers(feature, context, answer)
}

impl<E: Evaluator> Evaluator for Arc<E> {
    open spec fn answers(&self, feature: Seq<char>, context: Context, answer: Option<bool>) -> bool {
        (**self).answers(feature, context, answer)
    }

    open spec fn fills(
        &self,
        parent: Option<Context>,
        fields: Fields<'_>,
        before: Extensions,
        after: Extensions,
    ) -> bool {
        (**self).fills(parent, fields, before, after)
    }

    fn is_enabled(&self, feature: &str, context: &Context) -> (r: Option<bool>) {
        (**self).is_enabled(feature, context)
    }

    fn on_registration(&self) {
        (**self).on_registration()
    }

    fn on_new_context(&self, context: ContextRef<'_>, fields: Fields<'_>) {
        (**self).on_new_context(context, fields)
    }

    fn on_close_context(&self, context: ContextRef<'_>) {
        (**self).on_close_context(context)
    }
}

impl Evaluator for Arc<dyn Evaluator> {
    open spec fn answers(&self, feature: Seq<char>, context: Context, answer: Option<bool>) -> bool {
        (**self).answers(feature, context, answer)
    }

    open spec fn fills(
        &self,
        parent: Option<Context>,
        fields: Fields<'_>,
        before: Extensions,
        after: Extensions,
    ) -> bool {
        (**self).fills(parent, fields, before, after)
    }

    fn is_enabled(&self, feature: &str, context: &Context) -> (r: Option<bool>) {
        (**self).is_enabled(feature, context)
    }

    fn on_registration(&self) {
        (**self).on_registration()
    }

    fn on_new_context(&self, context: ContextRef<'_>, fields: Fields<'_>) {
        (**self).on_new_context(context, fields)
    }

    fn on_close_context(&self, context: ContextRef<'_>) {
        (**self).on_close_context(context)
    }
}

/// Evaluator that abstains on every feature.
#[derive(Copy, Clone, Debug, Default)]
pub struct NoEvaluator;

impl Evaluator for NoEvaluator {
    open spec fn answers(&self, feature: Seq<char>, context: Context, answer: Option<bool>) -> bool {
        answer is None
    }

    open spec fn fills(
        &self,
        parent: Option<Context>,
        fields: Fields<'_>,
        before: Extensions,
        after: Extensions,
    ) -> bool {
        after == before
    }

    fn is_enabled(&self, _feature: &str, _context: &Context) -> (r: Option<bool>) {
        None
    }

    fn on_new_context(&self, _context: ContextRef<'_>, _fields: Fields<'_>) {
    }
}

/// A shared, owning handle to an evaluator.
pub struct EvaluatorRef {
    arc: Arc<dyn Evaluator>,
}

/// Trusted: `Arc::new`, followed by the coercion of the `Arc` to one of a
/// trait object, gives a handle whose calls are those of the evaluator
/// inside. The verifier does not take that coercion.
#[verifier::external_body]
fn share<E: Evaluator + 'static>(evaluator: E) -> (r: EvaluatorRef)
    ensures
        acts_as(&r, &evaluator),
{
    EvaluatorRef { arc: Arc::new(evaluator) }
}

/// Trusted: `<dyn Any>::downcast_ref` finds the evaluator to be a handle
/// exactly when a handle is what it is, and the handle found is then the
/// evaluator itself.
#[verifier::external_body]
fn as_handle<E: Evaluator + 'static>(evaluator: &E) -> (r: Option<&EvaluatorRef>)
    ensures
        r is Some ==> acts_as(r.unwrap(), evaluator),
{
    let any: &dyn Any = evaluator;
    any.downcast_ref::<EvaluatorRef>()
}

impl Clone for EvaluatorRef {
    /// Trusted: `Arc::clone` gives another handle to the same evaluator. The
    /// verifier does not take an `Arc` of a trait object as a field's value.
    #[verifier::external_body]
    fn clone(&self) -> (r: Self)
        ensures
            r == *self,
    {
        EvaluatorRef { arc: Arc::clone(&self.arc) }
    }
}

impl EvaluatorRef {
    /// A handle over an evaluator that is already shared.
    ///
    /// Trusted: the handle holds the given `Arc` and nothing else, so it
    /// answers as the evaluator in the `Arc`. The verifier does not take an
    /// `Arc` of a trait object as a field's value.
    #[verifier::external_body]
    pub fn from_arc(arc: Arc<dyn Evaluator>) -> (r: Self)
        ensures
            acts_as(&r, &*arc),
    {
        EvaluatorRef { arc }
    }

    /// A handle that observes the evaluator without keeping it alive.
    ///
    /// Trusted: `Arc::downgrade` gives a weak pointer to the same evaluator.
    #[verifier::external_body]
    pub fn downgrade(&self) -> (w: WeakEvaluatorRef)
        ensures
            weak_target(w) == Some(*self),
    {
        WeakEvaluatorRef { weak: Arc::downgrade(&self.arc) }
    }
}

impl Evaluator for EvaluatorRef {
    closed spec fn answers(&self, feature: Seq<char>, context: Context, answer: Option<bool>) -> bool {
        self.arc.answers(feature, context, answer)
    }

    closed spec fn fills(
        &self,
        parent: Option<Context>,
        fields: Fields<'_>,
        before: Extensions,
        after: Extensions,
    ) -> bool {
        self.arc.fills(parent, fields, before, after)
    }

    fn is_enabled(&self, feature: &str, context: &Context) -> (r: Option<bool>) {
        self.arc.is_enabled(feature, context)
    }

    fn on_registration(&self) {
        self.arc.on_registration()
    }

    fn on_new_context(&self, context: ContextRef<'_>, fields: Fields<'_>) {
        self.arc.on_new_context(context, fields)
    }

    fn on_close_context(&self, context: ContextRef<'_>) {
        self.arc.on_close_context(context)
    }
}

/// A non-owning handle to an evaluator.
///
/// Trusted: the weak pointer to a trait object inside is opaque to the
/// verifier, which has no model of `Weak`.
#[verifier::external_body]
pub struct WeakEvaluatorRef {
    weak: Weak<dyn Evaluator>,
}

/// The evaluator that a weak handle points to; `None` for a detached handle.
/// Whether that evaluator is still alive is not part of this.
pub uninterp spec fn weak_target(w: WeakEvaluatorRef) -> Option<EvaluatorRef>;

impl WeakEvaluatorRef {
    /// A detached handle, which never upgrades.
    ///
    /// Trusted: `Weak::new` points to nothing.
    #[verifier::external_body]
    pub fn new() -> (w: WeakEvaluatorRef)
        ensures
            weak_target(w) is None,
    {
        WeakEvaluatorRef { weak: Weak::<NoEvaluator>::new() }
    }

    /// The owning handle, while some owner still keeps the evaluator alive.
    ///
    /// Trusted: `Weak::upgrade` gives either nothing or a handle to the
    /// evaluator pointed to, and does not unwind. Which of the two it gives
    /// depends on the other owners.
    #[verifier::external_body]
    pub fn upgrade(&self) -> (r: Option<EvaluatorRef>)
        ensures
            r is Some ==> weak_target(*self) == r,
        opens_invariants none
        no_unwind
    {
        match self.weak.upgrade() {
            Some(arc) => Some(EvaluatorRef { arc }),
            None => None,
        }
    }
}

impl Default for WeakEvaluatorRef {
    fn default() -> (w: Self)
        ensures
            weak_target(w) is None,
    {
        WeakEvaluatorRef::new()
    }
}

/// Combinators available on every evaluator.
pub trait EvaluatorExt: Evaluator {
    /// Put the evaluator behind a shared handle that stands for it. An
    /// evaluator that is such a handle already is handed back as it is, so
    /// that it stays the same evaluator to those who hold it weakly.
    fn into_ref(self) -> (r: EvaluatorRef) where Self: Sized + 'static
        ensures
            acts_as(&r, &self),
    {
        let found = match as_handle(&self) {
            Some(handle) => Some(handle.clone()),
            None => None,
        };
        match found {
            Some(handle) => handle,
            None => share(self),
        }
    }

    /// Consult this evaluator only for the features that `filter_fn` accepts,
    /// and abstain on all others.
    fn filter<F>(self, filter_fn: F) -> (r: Filter<Self, F>) where
        Self: Sized,
        F: Fn(&str) -> bool + Send + Sync + 'static,

        requires
            forall|s: &str| call_requires(filter_fn, (s,)),
        ensures
            r.inner() == self,
            r.predicate() == filter_fn,
    {
        Filter { evaluator: self, filter_fn }
    }

    /// Consult this evaluator first and `other` where this one abstains.
    fn chain<U>(self, other: U) -> (r: Chain<Self, U>) where Self: Sized, U: Evaluator
        ensures
            r.first() == self,
            r.second() == other,
    {
        Chain(self, other)
    }
}

impl<E: ?Sized + Evaluator> EvaluatorExt for E {

}

/// An evaluator behind a predicate on feature names.
pub struct Filter<E, F> where E: Evaluator, F: Fn(&str) -> bool + Send + Sync + 'static {
    filter_fn: F,
    evaluator: E,
}

impl<E, F> Filter<E, F> where E: Evaluator, F: Fn(&str) -> bool + Send + Sync + 'static {
    /// The predicate accepts every name as an argument.
    #[verifier::type_invariant]
    closed spec fn predicate_total(&self) -> bool {
        forall|s: &str| call_requires(self.filter_fn, (s,))
    }

    /// The evaluator that is consulted.
    pub closed spec fn inner(&self) -> E {
        self.evaluator
    }

    /// The predicate on feature names.
    pub closed spec fn predicate(&self) -> F {
        self.filter_fn
    }
}

/// What a filter answers, given what its predicate said of the name and what
/// the inner evaluator may answer.
pub open spec fn filtered<E: Evaluator>(
    keep: bool,
    inner: E,
    feature: Seq<char>,
    context: Context,
    answer: Option<bool>,
) -> bool {
    if keep {
        inner.answers(feature, context, answer)
    } else {
        answer is None
    }
}

impl<E, F> Evaluator for Filter<E, F> where
    E: Evaluator,
    F: Fn(&str) -> bool + Send + Sync + 'static,
 {
    open spec fn answers(&self, feature: Seq<char>, context: Context, answer: Option<bool>) -> bool {
        exists|name: &str, keep: bool|
            name@ == feature && #[trigger] call_ensures(self.predicate(), (name,), keep)
                && filtered(keep, self.inner(), feature, context, answer)
    }

    open spec fn fills(
        &self,
        parent: Option<Context>,
        fields: Fields<'_>,
        before: Extensions,
        after: Extensions,
    ) -> bool {
        self.inner().fills(parent, fields, before, after)
    }

    fn is_enabled(&self, feature: &str, context: &Context) -> (r: Option<bool>) {
        proof {
            use_type_invariant(self);
        }
        let keep = (self.filter_fn)(feature);
        let r = if keep {
            self.evaluator.is_enabled(feature, context)
        } else {
            None
        };
        assert(call_ensures(self.predicate(), (feature,), keep) && filtered(
            keep,
            self.inner(),
            feature@,
            *context,
            r,
        ));
        r
    }

    fn on_registration(&self) {
        self.evaluator.on_registration()
    }

    fn on_new_context(&self, context: ContextRef<'_>, fields: Fields<'_>) {
        self.evaluator.on_new_context(context, fields)
    }

    fn on_close_context(&self, context: ContextRef<'_>) {
        self.evaluator.on_close_context(context)
    }
}

/// Two evaluators, the second consulted where the first abstains.
pub struct Chain<T, U>(T, U);

impl<T: Evaluator, U: Evaluator> Chain<T, U> {
    /// The evaluator consulted first.
    pub closed spec fn first(&self) -> T {
        self.0
    }

    /// The evaluator consulted where the first abstains.
    pub closed spec fn second(&self) -> U {
        self.1
    }
}

impl<T: Evaluator, U: Evaluator> Evaluator for Chain<T, U> {
    open spec fn answers(&self, feature: Seq<char>, context: Context, answer: Option<bool>) -> bool {
        ||| answer is Some && self.first().answers(feature, context, answer)
        ||| self.first().answers(feature, context, None) && self.second().answers(
            feature,
            context,
            answer,
        )
    }

    open spec fn fills(
        &self,
        parent: Option<Context>,
        fields: Fields<'_>,
        before: Extensions,
        after: Extensions,
    ) -> bool {
        exists|between: Extensions|
            #[trigger] self.first().fills(parent, fields, before, between) && self.second().fills(
                parent,
                fields,
                between,
                after,
            )
    }

    fn is_enabled(&self, feature: &str, context: &Context) -> (r: Option<bool>) {
        match self.0.is_enabled(feature, context) {
            Some(decision) => Some(decision),
            None => self.1.is_enabled(feature, context),
        }
    }

    fn on_registration(&self) {
        self.0.on_registration();
        self.1.on_registration();
    }

    fn on_new_context(&self, context: ContextRef<'_>, fields: Fields<'_>) {
        let mut context = context;
        let ghost before = context.spec_extensions();
        self.0.on_new_context(context.by_mut(), fields.clone());
        let ghost between = context.spec_extensions();
        self.1.on_new_context(context, fields);
        assert(self.first().fills(context.spec_parent(), fields, before, between));
    }

    fn on_close_context(&self, context: ContextRef<'_>) {
        let mut context = context;
        self.0.on_close_context(context.by_mut());
        self.1.on_close_context(context);
    }
}

/// The first decisive answer wins: where the first evaluator of a chain can
/// only answer `a` and the second only `b`, the chain can only answer `a` if
/// `a` is a decision, and `b` otherwise.
pub proof fn lemma_chain_first_decisive<T: Evaluator, U: Evaluator>(
    chain: Chain<T, U>,
    feature: Seq<char>,
    context: Context,
    a: Option<bool>,
    b: Option<bool>,
    answer: Option<bool>,
)
    requires
        forall|x: Option<bool>| chain.first().answers(feature, context, x) <==> x == a,
        forall|x: Option<bool>| chain.second().answers(feature, context, x) <==> x == b,
    ensures
        chain.answers(feature, context, answer) <==> answer == (if a is Some {
            a
        } else {
            b
        }),
{
}

/// A filter abstains on every name that its predicate rejects, and answers
/// as the inner evaluator does on every name that it accepts.
pub proof fn lemma_filter_gates<E, F>(
    filter: Filter<E, F>,
    name: &str,
    keep: bool,
    context: Context,
    answer: Option<bool>,
) where E: Evaluator, F: Fn(&str) -> bool + Send + Sync + 'static
    requires
        forall|s: &str, k: bool|
            s@ == name@ ==> (#[trigger] call_ensures(filter.predicate(), (s,), k) <==> k == keep),
    ensures
        filter.answers(name@, context, answer) <==> filtered(
            keep,
            filter.inner(),
            name@,
            context,
            answer,
        ),
{
    if filtered(keep, filter.inner(), name@, context, answer) {
        assert(call_ensures(filter.predicate(), (name,), keep));
    }
}

} // verus!
