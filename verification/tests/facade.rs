use std::collections::{HashMap, HashSet};
use std::sync::RwLock;

use featureflag::context::stack::LocalContextStack;
use featureflag::context::{Context, ContextRef};
use featureflag::evaluator::{set_thread_default, with_default, Evaluator, Registry};
use featureflag::feature::{known_features, Feature, RegisteredFeature};
use featureflag::fields::Fields;
use featureflag::value::Value;

trait TestFeature: Send + Sync + 'static {
    fn is_enabled(&self, context: &Context) -> Option<bool>;
}

impl<T: TestFeature> TestFeature for Option<T> {
    fn is_enabled(&self, context: &Context) -> Option<bool> {
        self.as_ref()?.is_enabled(context)
    }
}

impl TestFeature for bool {
    fn is_enabled(&self, _context: &Context) -> Option<bool> {
        Some(*self)
    }
}

impl<F, O> TestFeature for F
where
    F: Fn(&Context) -> O + Send + Sync + 'static,
    O: TestFeature,
{
    fn is_enabled(&self, context: &Context) -> Option<bool> {
        self(context).is_enabled(context)
    }
}

struct TestEvaluator {
    features: RwLock<HashMap<String, Box<dyn TestFeature>>>,
}

impl TestEvaluator {
    fn new() -> TestEvaluator {
        TestEvaluator { features: RwLock::new(HashMap::new()) }
    }

    fn set_feature<T: TestFeature>(&self, feature: &str, enabled: T) {
        self.features.write().unwrap().insert(feature.to_string(), Box::new(enabled));
    }
}

impl Evaluator for TestEvaluator {
    fn is_enabled(&self, feature: &str, context: &Context) -> Option<bool> {
        self.features.read().unwrap().get(feature).and_then(|f| f.is_enabled(context))
    }

    fn on_new_context(&self, mut context: ContextRef<'_>, fields: Fields<'_>) {
        context.extensions_mut().insert(TestFields::new(fields));
    }
}

struct TestFields {
    fields: Fields<'static>,
}

impl TestFields {
    fn new(fields: Fields<'_>) -> TestFields {
        let owned: Vec<(&'static str, Value<'static>)> = fields
            .pairs()
            .into_iter()
            .map(|(k, v)| (&*k.to_string().leak(), v.to_static()))
            .collect();
        TestFields { fields: Fields::new(owned.leak()) }
    }
}

fn test_fields(context: &Context) -> Option<&Fields<'static>> {
    context.extensions()?.get::<TestFields>().map(|f| &f.fields)
}

fn foo_of(context: &Context) -> Option<bool> {
    context
        .iter()
        .iter()
        .filter_map(|c| test_fields(c))
        .filter_map(|f| f.get("foo"))
        .filter_map(|v| v.as_bool())
        .next()
}

fn enabled(stack: &LocalContextStack, registry: &Registry, name: &str, default: bool) -> bool {
    Feature::new_with_default_fn(name, move || default).is_enabled(stack, registry)
}

#[test]
fn test_context() {
    let evaluator = TestEvaluator::new();
    evaluator.set_feature("foo", |c: &Context| {
        c.iter()
            .iter()
            .find_map(|c| test_fields(c).and_then(|f| f.get("foo")))
            .and_then(|v| v.as_bool())
    });

    let mut registry = Registry::new();
    let mut stack = LocalContextStack::new();
    with_default(&mut registry, evaluator, |registry| {
        assert!(!enabled(&stack, registry, "foo", false));

        let empty = Context::new(&stack, registry, Fields::new(&[]));
        empty.in_scope(&mut stack, |stack| {
            assert!(!enabled(stack, registry, "foo", false));

            let foo_true = [("foo", Value::Bool(true))];
            let inner = Context::new(stack, registry, Fields::new(&foo_true));
            inner.in_scope(stack, |stack| {
                assert!(enabled(stack, registry, "foo", false));
            });
        });

        let foo_true = [("foo", Value::Bool(true))];
        let outer = Context::new(&stack, registry, Fields::new(&foo_true));
        outer.in_scope(&mut stack, |stack| {
            assert!(enabled(stack, registry, "foo", false));

            let bar_false = [("bar", Value::Bool(false))];
            let bar = Context::new(stack, registry, Fields::new(&bar_false));
            bar.in_scope(stack, |stack| {
                assert!(enabled(stack, registry, "foo", false));
            });

            let foo_false = [("foo", Value::Bool(false))];
            let inner = Context::new(stack, registry, Fields::new(&foo_false));
            inner.in_scope(stack, |stack| {
                assert!(!enabled(stack, registry, "foo", false));
            });
        });
    });
}

#[test]
fn test_is_enabled_macro() {
    let evaluator = TestEvaluator::new();
    evaluator.set_feature("enabled", true);
    evaluator.set_feature("disabled", false);

    let mut registry = Registry::new();
    let stack = LocalContextStack::new();
    with_default(&mut registry, evaluator, |registry| {
        assert!(enabled(&stack, registry, "enabled", false));
        assert!(enabled(&stack, registry, "enabled", true));

        assert!(!enabled(&stack, registry, "disabled", false));
        assert!(!enabled(&stack, registry, "disabled", true));

        assert!(!enabled(&stack, registry, "unknown", false));
        assert!(enabled(&stack, registry, "unknown", true));
    });
}

#[test]
fn test_feature_macro() {
    let evaluator = TestEvaluator::new();
    evaluator.set_feature("enabled", true);
    evaluator.set_feature("disabled", false);

    let mut registry = Registry::new();
    let stack = LocalContextStack::new();
    with_default(&mut registry, evaluator, |registry| {
        let enabled_true = Feature::new("enabled", true);
        let enabled_false = Feature::new("enabled", false);
        let disabled_true = Feature::new("disabled", true);
        let disabled_false = Feature::new("disabled", false);
        let unknown_true = Feature::new("unknown", true);
        let unknown_false = Feature::new("unknown", false);

        assert_eq!(enabled_true.name(), "enabled");
        assert_eq!(enabled_false.name(), "enabled");
        assert_eq!(disabled_true.name(), "disabled");
        assert_eq!(disabled_false.name(), "disabled");
        assert_eq!(unknown_true.name(), "unknown");
        assert_eq!(unknown_false.name(), "unknown");

        assert!(enabled_true.is_enabled(&stack, registry));
        assert!(enabled_false.is_enabled(&stack, registry));
        assert!(!disabled_true.is_enabled(&stack, registry));
        assert!(!disabled_false.is_enabled(&stack, registry));
        assert!(unknown_true.is_enabled(&stack, registry));
        assert!(!unknown_false.is_enabled(&stack, registry));
    });
}

fn check_installed_features(registry: &Registry) {
    let mut stack = LocalContextStack::new();

    assert!(enabled(&stack, registry, "enabled", false));
    assert!(enabled(&stack, registry, "enabled", true));

    assert!(!enabled(&stack, registry, "disabled", false));
    assert!(!enabled(&stack, registry, "disabled", true));

    assert!(enabled(&stack, registry, "implicit", false));
    assert!(enabled(&stack, registry, "implicit", true));

    assert!(!enabled(&stack, registry, "unknown", false));
    assert!(enabled(&stack, registry, "unknown", true));

    assert!(!enabled(&stack, registry, "custom", false));
    assert!(enabled(&stack, registry, "custom", true));

    let foo_true = [("foo", Value::Bool(true))];
    let outer = Context::new(&stack, registry, Fields::new(&foo_true));
    outer.in_scope(&mut stack, |stack| {
        assert!(enabled(stack, registry, "custom", false));
        assert!(enabled(stack, registry, "custom", true));

        let foo_false = [("foo", Value::Bool(false))];
        let inner = Context::new(stack, registry, Fields::new(&foo_false));
        inner.in_scope(stack, |stack| {
            assert!(!enabled(stack, registry, "custom", false));
            assert!(!enabled(stack, registry, "custom", true));
        });
    });
}

#[test]
fn test_macro() {
    let evaluator = TestEvaluator::new();
    evaluator.set_feature("enabled", true);
    evaluator.set_feature("disabled", false);
    evaluator.set_feature("custom", foo_of);
    evaluator.set_feature("implicit", true);
    let mut registry = Registry::new();
    set_thread_default(&mut registry, evaluator);

    check_installed_features(&registry);
}

#[test]
fn test_macro_litstr() {
    let evaluator = TestEvaluator::new();
    let names = [
        String::from("enabled"),
        String::from("disabled"),
        String::from("custom"),
        String::from("implicit"),
    ];
    evaluator.set_feature(&names[0], true);
    evaluator.set_feature(&names[1], false);
    evaluator.set_feature(&names[2], foo_of);
    evaluator.set_feature(&names[3], true);
    let mut registry = Registry::new();
    set_thread_default(&mut registry, evaluator);

    check_installed_features(&registry);
}

#[test]
fn test_known_features() {
    let registry = Registry::new();
    let stack = LocalContextStack::new();
    Feature::new("dynamic2", false).is_enabled(&stack, &registry);

    // these are all of the features that are declared in the same program
    let registered = [
        RegisteredFeature("a"),
        RegisteredFeature("b"),
        RegisteredFeature("c"),
        RegisteredFeature("d"),
    ];
    let expected = ["a", "b", "c", "d"].into_iter().collect::<HashSet<_>>();

    let known = known_features(&registered).into_iter().collect::<HashSet<_>>();
    assert_eq!(known, expected);
}
