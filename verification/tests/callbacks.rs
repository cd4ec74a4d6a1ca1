use pyoxidizer::chain::run_callbacks;
use pyoxidizer::location::ConcreteResourceLocation;
use pyoxidizer::policy::PythonPackagingPolicy;
use pyoxidizer::policy_value::PythonPackagingPolicyValue;
use pyoxidizer::resource::{
    CollectionContext, Origin, ProvenanceClass, Resource, ResourceKind,
};
use pyoxidizer::value::PolicyError;
use std::cell::RefCell;
use std::rc::Rc;

type Callback = Box<dyn Fn(&PythonPackagingPolicy, Resource) -> Result<Resource, String>>;

fn module(name: &str) -> Resource {
    Resource {
        name: name.to_string(),
        kind: ResourceKind::ModuleSource,
        provenance: ProvenanceClass { origin: Origin::NonDistribution, test: false },
        supports_in_memory_loading: false,
        variants: vec![],
        default_variant: "default".to_string(),
        context: None,
    }
}

fn show(resource: &Resource) -> String {
    format!("{:?}", resource)
}

#[test]
fn without_callbacks_the_derived_decision_is_attached() {
    let policy: PythonPackagingPolicyValue<Callback> =
        PythonPackagingPolicyValue::new(PythonPackagingPolicy::new());
    let mut r = module("foo");
    policy.apply_to_resource(&mut r).unwrap();

    let expected = policy.inner.derive_add_collection_context(&module("foo")).unwrap();
    assert_eq!(format!("{:?}", r.context), format!("{:?}", Some(expected)));
    assert!(r.add_collection_context().as_ref().unwrap().included);
}

#[test]
fn application_replaces_the_decision_in_the_slot() {
    let policy: PythonPackagingPolicyValue<Callback> =
        PythonPackagingPolicyValue::new(PythonPackagingPolicy::new());
    let mut r = module("foo");
    r.context = Some(CollectionContext {
        included: false,
        location: ConcreteResourceLocation::RelativePath("old".to_string()),
        location_fallback: None,
        store_source: true,
        optimize_level_zero: false,
        optimize_level_one: true,
        optimize_level_two: true,
        variant: Some("stale".to_string()),
    });
    policy.apply_to_resource(&mut r).unwrap();

    let mut fresh = module("foo");
    policy.apply_to_resource(&mut fresh).unwrap();
    assert_eq!(show(&r), show(&fresh));
}

#[test]
fn a_callback_changes_the_resource_through_its_decision_only() {
    let mut policy: PythonPackagingPolicyValue<Callback> =
        PythonPackagingPolicyValue::new(PythonPackagingPolicy::new());
    policy.starlark_register_resource_callback(Box::new(|_policy, mut working| {
        working.name = "renamed".to_string();
        working.kind = ResourceKind::File;
        working.provenance.test = true;
        working.supports_in_memory_loading = true;
        working.default_variant = "changed".to_string();
        if let Some(context) = working.context.as_mut() {
            context.included = false;
            context.store_source = true;
        }
        Ok(working)
    }));
    let mut r = module("foo");
    policy.apply_to_resource(&mut r).unwrap();

    assert_eq!(r.name, "foo");
    assert_eq!(r.kind, ResourceKind::ModuleSource);
    assert!(!r.provenance.test);
    assert!(!r.supports_in_memory_loading);
    assert_eq!(r.default_variant, "default");
    let context = r.context.as_ref().unwrap();
    assert!(!context.included);
    assert!(context.store_source);
}

#[test]
fn callbacks_run_in_the_order_of_registration() {
    let seen: Rc<RefCell<Vec<Option<String>>>> = Rc::new(RefCell::new(vec![]));
    let mut policy: PythonPackagingPolicyValue<Callback> =
        PythonPackagingPolicyValue::new(PythonPackagingPolicy::new());

    let log = seen.clone();
    policy.starlark_register_resource_callback(Box::new(move |_policy, mut working| {
        log.borrow_mut().push(working.context.as_ref().unwrap().variant.clone());
        working.context.as_mut().unwrap().variant = Some("x".to_string());
        Ok(working)
    }));
    let log = seen.clone();
    policy.starlark_register_resource_callback(Box::new(move |_policy, mut working| {
        log.borrow_mut().push(working.context.as_ref().unwrap().variant.clone());
        working.context.as_mut().unwrap().variant = Some("y".to_string());
        Ok(working)
    }));
    assert_eq!(policy.callback_count(), 2);

    let mut r = module("foo");
    policy.apply_to_resource(&mut r).unwrap();

    assert_eq!(*seen.borrow(), vec![None, Some("x".to_string())]);
    assert_eq!(r.context.as_ref().unwrap().variant.as_deref(), Some("y"));
}

#[test]
fn a_failing_callback_stops_the_chain_and_keeps_earlier_commits() {
    let calls: Rc<RefCell<Vec<u8>>> = Rc::new(RefCell::new(vec![]));
    let mut policy: PythonPackagingPolicyValue<Callback> =
        PythonPackagingPolicyValue::new(PythonPackagingPolicy::new());

    let log = calls.clone();
    policy.starlark_register_resource_callback(Box::new(move |_policy, mut working| {
        log.borrow_mut().push(1);
        working.context.as_mut().unwrap().included = false;
        Ok(working)
    }));
    let log = calls.clone();
    policy.starlark_register_resource_callback(Box::new(move |_policy, mut working| {
        log.borrow_mut().push(2);
        working.context.as_mut().unwrap().store_source = true;
        Err("boom".to_string())
    }));
    let log = calls.clone();
    policy.starlark_register_resource_callback(Box::new(move |_policy, working| {
        log.borrow_mut().push(3);
        Ok(working)
    }));

    let mut r = module("foo");
    match policy.apply_to_resource(&mut r).unwrap_err() {
        PolicyError::Callback { index, message } => {
            assert_eq!(index, 1);
            assert_eq!(message, "boom");
        }
        other => panic!("unexpected error: {:?}", other),
    }
    assert_eq!(*calls.borrow(), vec![1, 2]);
    let context = r.context.as_ref().unwrap();
    assert!(!context.included);
    assert!(!context.store_source);
}

#[test]
fn a_callback_that_hands_back_no_decision_keeps_the_current_one() {
    let mut policy: PythonPackagingPolicyValue<Callback> =
        PythonPackagingPolicyValue::new(PythonPackagingPolicy::new());
    policy.starlark_register_resource_callback(Box::new(|_policy, mut working| {
        working.context = None;
        Ok(working)
    }));
    let mut r = module("foo");
    policy.apply_to_resource(&mut r).unwrap();

    let mut plain = module("foo");
    PythonPackagingPolicyValue::<Callback>::new(PythonPackagingPolicy::new())
        .apply_to_resource(&mut plain)
        .unwrap();
    assert_eq!(show(&r), show(&plain));
}

#[test]
fn a_conflict_leaves_the_resource_alone_and_runs_no_callback() {
    let calls: Rc<RefCell<u32>> = Rc::new(RefCell::new(0));
    let mut policy: PythonPackagingPolicyValue<Callback> =
        PythonPackagingPolicyValue::new(PythonPackagingPolicy::new());
    let count = calls.clone();
    policy.starlark_register_resource_callback(Box::new(move |_policy, working| {
        *count.borrow_mut() += 1;
        Ok(working)
    }));

    let mut r = module("myext");
    r.kind = ResourceKind::ExtensionModule;
    let before = show(&r);
    match policy.apply_to_resource(&mut r).unwrap_err() {
        PolicyError::ConfigurationConflict { resource } => assert_eq!(resource, "myext"),
        other => panic!("unexpected error: {:?}", other),
    }
    assert_eq!(show(&r), before);
    assert_eq!(*calls.borrow(), 0);

    // Another resource is not affected by the conflict.
    let mut other = module("foo");
    policy.apply_to_resource(&mut other).unwrap();
    assert_eq!(*calls.borrow(), 1);
}

#[test]
fn a_callback_sees_the_policy() {
    let mut inner = PythonPackagingPolicy::new();
    inner.set_include_test(true);
    let mut policy: PythonPackagingPolicyValue<Callback> = PythonPackagingPolicyValue::new(inner);
    policy.starlark_register_resource_callback(Box::new(|policy, mut working| {
        working.context.as_mut().unwrap().store_source = policy.include_test();
        Ok(working)
    }));
    let mut r = module("foo");
    policy.apply_to_resource(&mut r).unwrap();
    assert!(r.context.as_ref().unwrap().store_source);
}

#[test]
fn the_chain_runs_on_a_resource_as_it_is() {
    let callbacks: Vec<Callback> = vec![Box::new(|_policy, mut working| {
        working.context = Some(CollectionContext {
            included: true,
            location: ConcreteResourceLocation::InMemory,
            location_fallback: None,
            store_source: false,
            optimize_level_zero: false,
            optimize_level_one: false,
            optimize_level_two: false,
            variant: None,
        });
        Ok(working)
    })];
    let policy = PythonPackagingPolicy::new();
    let mut r = module("foo");
    run_callbacks(&callbacks, &policy, &mut r).unwrap();
    assert!(r.context.as_ref().unwrap().included);
    assert_eq!(r.name, "foo");
}
