//! Feature flags: a name and a default.

use crate::context::stack::LocalContextStack;
use crate::context::Context;
use crate::evaluator::{Evaluator, EvaluatorRef};
use crate::fields::str_eq;
use crate::registry::Registry;
use vstd::prelude::*;

verus! {

/// Where the default of a feature comes from.
pub trait DefaultFn {
    /// Whether the default can be asked for.
    spec fn ready(&self) -> bool;

    /// Whether `b` is a default that may come out.
    spec fn yields(&self, b: bool) -> bool;

    /// The default.
    fn call(&self) -> (b: bool)
        requires
            self.ready(),
        ensures
            self.yields(b),
    ;
}

/// A default that is fixed when the feature is declared.
#[derive(Copy, Clone, Debug, PartialEq, Eq, Hash)]
pub struct Constant(pub bool);

impl DefaultFn for Constant {
    open spec fn ready(&self) -> bool {
        true
    }

    open spec fn yields(&self, b: bool) -> bool {
        b == self.0
    }

    fn call(&self) -> (b: bool) {
        self.0
    }
}

impl<F: Fn() -> bool> DefaultFn for F {
    open spec fn ready(&self) -> bool {
        call_requires(*self, ())
    }

    open spec fn yields(&self, b: bool) -> bool {
        call_ensures(*self, (), b)
    }

    fn call(&self) -> (b: bool) {
        self()
    }
}

/// Feature flag definition.
#[derive(Debug, PartialEq, Eq, Hash)]
pub struct Feature<'a, D: DefaultFn = Constant> {
    name: &'a str,
    default_fn: D,
}

/// A feature name recorded for introspection.
pub struct RegisteredFeature(pub &'static str);

/// Whether `name` is one of `names`.
pub open spec fn listed(names: Seq<&'static str>, name: Seq<char>) -> bool {
    exists|j: int| 0 <= j < names.len() && #[trigger] names[j]@ == name
}

/// Whether `name` is the name of one of `registered`.
pub open spec fn recorded(registered: Seq<RegisteredFeature>, name: Seq<char>) -> bool {
    exists|i: int| 0 <= i < registered.len() && #[trigger] registered[i].0@ == name
}

/// Whether no name occurs twice in `names`.
pub open spec fn distinct(names: Seq<&'static str>) -> bool {
    forall|j: int, k: int| 0 <= j < k < names.len() ==> names[j]@ != names[k]@
}

fn is_listed(names: &Vec<&'static str>, name: &str) -> (r: bool)
    ensures
        r == listed(names@, name@),
{
    let mut j: usize = 0;
    while j < names.len()
        invariant
            j <= names@.len(),
            forall|k: int| 0 <= k < j ==> names@[k]@ != name@,
        decreases names@.len() - j,
    {
        if str_eq(names[j], name) {
            return true;
        }
        j = j + 1;
    }
    false
}

/// The names of the recorded features, each once.
pub fn known_features(registered: &[RegisteredFeature]) -> (names: Vec<&'static str>)
    ensures
        distinct(names@),
        forall|name: Seq<char>| listed(names@, name) <==> recorded(registered@, name),
{
    let mut names: Vec<&'static str> = Vec::new();
    let mut i: usize = 0;
    while i < registered.len()
        invariant
            i <= registered@.len(),
            distinct(names@),
            forall|name: Seq<char>|
                listed(names@, name) <==> recorded(registered@.take(i as int), name),
        decreases registered@.len() - i,
    {
        let name: &'static str = registered[i].0;
        let ghost before = names@;
        let ghost seen = registered@.take(i as int);
        let ghost next = registered@.take(i + 1);
        let known = is_listed(&names, name);
        if !known {
            names.push(name);
        }
        proof {
            assert(next =~= seen.push(registered@[i as int]));
            assert(next[i as int].0@ == name@);
            if !known {
                assert(names@[before.len() as int]@ == name@);
                assert forall|j: int, k: int| 0 <= j < k < names@.len() implies names@[j]@
                    != names@[k]@ by {
                    if k == before.len() {
                        assert(before[j] == names@[j]);
                    } else {
                        assert(before[j] == names@[j] && before[k] == names@[k]);
                    }
                }
            }
            assert forall|other: Seq<char>| listed(names@, other) <==> recorded(next, other) by {
                if listed(names@, other) {
                    let j = choose|j: int| 0 <= j < names@.len() && #[trigger] names@[j]@ == other;
                    if j < before.len() {
                        assert(before[j]@ == other);
                        assert(listed(before, other));
                        assert(recorded(seen, other));
                        let w = choose|w: int| 0 <= w < seen.len() && #[trigger] seen[w].0@ == other;
                        assert(next[w].0@ == other);
                    } else {
                        assert(next[i as int].0@ == other);
                    }
                }
                if recorded(next, other) {
                    let w = choose|w: int| 0 <= w < next.len() && #[trigger] next[w].0@ == other;
                    if w < i {
                        assert(seen[w].0@ == other);
                        assert(recorded(seen, other));
                        assert(listed(before, other));
                        let j = choose|j: int| 0 <= j < before.len() && #[trigger] before[j]@ == other;
                        assert(names@[j]@ == other);
                    } else {
                        if known {
                            assert(listed(before, other));
                        } else {
                            assert(names@[before.len() as int]@ == other);
                        }
                    }
                }
            }
        }
        i = i + 1;
    }
    assert(registered@.take(i as int) =~= registered@);
    names
}

/// The context behind an optional reference.
pub open spec fn named(context: Option<&Context>) -> Option<Context> {
    match context {
        Some(c) => Some(*c),
        None => None,
    }
}

/// Whether `state` may be the state of the feature `name` in `context`,
/// where no context stands for the root.
///
/// The root is decided by the evaluator that is ambient in `registry`, and
/// is undecided when there is none. Any other context is decided by the
/// evaluator it was created under, and is undecided when that evaluator
/// is gone.
pub open spec fn may_be_state(
    name: Seq<char>,
    context: Option<Context>,
    registry: Registry,
    state: Option<bool>,
) -> bool {
    let asked = match context {
        Some(c) => c,
        None => Context::spec_root(),
    };
    if context is None || asked.spec_is_root() {
        match registry.resolve() {
            Some(evaluator) => evaluator.answers(name, asked, state),
            None => state is None,
        }
    } else {
        ||| state is None
        ||| asked.snapshot() is Some && asked.snapshot().unwrap().answers(name, asked, state)
    }
}

/// Whether `enabled` follows from `state`: a decision stands, and where
/// there is none the default is asked.
pub open spec fn decided<D: DefaultFn>(state: Option<bool>, default_fn: D, enabled: bool) -> bool {
    match state {
        Some(decision) => enabled == decision,
        None => default_fn.yields(enabled),
    }
}

/// The state of the feature `name` in `context` under the evaluator that
/// decides for the context: its answer, and no decision where there is no
/// evaluator. The evaluator is asked once, with the name and the context as
/// given.
pub fn state_under(evaluator: Option<&EvaluatorRef>, name: &str, context: &Context) -> (r: Option<
    bool,
>)
    ensures
        match evaluator {
            Some(e) => e.answers(name@, *context, r),
            None => r is None,
        },
{
    match evaluator {
        Some(e) => e.is_enabled(name, context),
        None => None,
    }
}

/// The decision in `state`, or the default where there is none. The default
/// is asked only then.
pub fn or_default<D: DefaultFn>(state: Option<bool>, default_fn: &D) -> (enabled: bool)
    requires
        default_fn.ready(),
    ensures
        decided(state, *default_fn, enabled),
{
    match state {
        Some(decision) => decision,
        None => default_fn.call(),
    }
}

impl<'a> Clone for Feature<'a> {
    fn clone(&self) -> (r: Self)
        ensures
            r == *self,
    {
        Feature { name: self.name, default_fn: self.default_fn }
    }
}

impl<'a> Copy for Feature<'a> {

}

impl<'a> Feature<'a> {
    /// A feature with a fixed default, which is used when the evaluator
    /// abstains.
    pub fn new(name: &'a str, default: bool) -> (r: Feature<'a>)
        ensures
            r.spec_name() == name,
            r.default_source() == Constant(default),
    {
        Feature { name, default_fn: Constant(default) }
    }
}

impl<'a, D: DefaultFn> Feature<'a, D> {
    /// The default can be asked for.
    #[verifier::type_invariant]
    closed spec fn default_ready(&self) -> bool {
        self.default_fn.ready()
    }

    /// The name of the feature.
    pub closed spec fn spec_name(&self) -> &'a str {
        self.name
    }

    /// Where the default comes from.
    pub closed spec fn default_source(&self) -> D {
        self.default_fn
    }

    /// A feature whose default is asked for each time the evaluator
    /// abstains.
    pub fn new_with_default_fn(name: &'a str, default_fn: D) -> (r: Feature<'a, D>)
        requires
            default_fn.ready(),
        ensures
            r.spec_name() == name,
            r.default_source() == default_fn,
    {
        Feature { name, default_fn }
    }

    /// The name of the feature.
    pub fn name(&self) -> (r: &'a str)
        ensures
            r == self.spec_name(),
    {
        self.name
    }

    /// The state of the feature in the given context, or in the root when
    /// none is given. The evaluator of that context is asked, not the one
    /// that is ambient, except for the root.
    pub fn get_state_in(&self, context: Option<&Context>, registry: &Registry) -> (r: Option<bool>)
        ensures
            may_be_state(
                self.spec_name()@,
                named(context),
                *registry,
                r,
            ),
    {
        let root = Context::root();
        let context: &Context = match context {
            Some(c) => c,
            None => &root,
        };
        let evaluator = context.evaluator(registry);
        state_under(evaluator.as_ref(), self.name, context)
    }

    /// The state of the feature in the context that is current on `stack`.
    pub fn get_state(&self, stack: &LocalContextStack, registry: &Registry) -> (r: Option<bool>)
        ensures
            may_be_state(self.spec_name()@, stack.spec_current(), *registry, r),
    {
        let current = Context::current(stack);
        self.get_state_in(current.as_ref(), registry)
    }

    /// Whether the feature is enabled in the context that is current on
    /// `stack`; the default of the feature where the evaluator abstains.
    pub fn is_enabled(&self, stack: &LocalContextStack, registry: &Registry) -> (r: bool)
        ensures
            exists|state: Option<bool>| #[trigger]
                may_be_state(self.spec_name()@, stack.spec_current(), *registry, state)
                    && decided(state, self.default_source(), r),
    {
        let current = Context::current(stack);
        let given = current.as_ref();
        let enabled = self.is_enabled_in(given, registry);
        proof {
            let state = choose|state: Option<bool>| #[trigger]
                may_be_state(self.spec_name()@, named(given), *registry, state) && decided(
                    state,
                    self.default_source(),
                    enabled,
                );
            assert(may_be_state(self.spec_name()@, stack.spec_current(), *registry, state));
        }
        enabled
    }

    /// Whether the feature is enabled in the given context; the default of
    /// the feature where the evaluator of the context abstains.
    pub fn is_enabled_in(&self, context: Option<&Context>, registry: &Registry) -> (r: bool)
        ensures
            exists|state: Option<bool>| #[trigger]
                may_be_state(
                    self.spec_name()@,
                    named(context),
                    *registry,
                    state,
                ) && decided(state, self.default_source(), r),
    {
        proof {
            use_type_invariant(self);
        }
        let state = self.get_state_in(context, registry);
        or_default(state, &self.default_fn)
    }
}

} // verus!
