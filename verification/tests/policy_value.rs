use pyoxidizer::policy::PythonPackagingPolicy;
use pyoxidizer::policy_value::PythonPackagingPolicyValue;
use pyoxidizer::resource::Resource;
use pyoxidizer::value::{AttributeOperation, PolicyError, Value};

type Callback = Box<dyn Fn(&PythonPackagingPolicy, Resource) -> Result<Resource, String>>;

fn make_policy() -> PythonPackagingPolicyValue<Callback> {
    PythonPackagingPolicyValue::new(PythonPackagingPolicy::new())
}

fn get(policy: &PythonPackagingPolicyValue<Callback>, name: &str) -> Value {
    policy.get_attr(name).unwrap()
}

fn set_get(policy: &mut PythonPackagingPolicyValue<Callback>, name: &str, value: Value) -> Value {
    policy.set_attr(name, value).unwrap();
    policy.get_attr(name).unwrap()
}

fn to_bool(value: &Value) -> bool {
    match value {
        Value::Bool(b) => *b,
        other => panic!("not a bool: {:?}", other),
    }
}

fn to_string(value: &Value) -> String {
    match value {
        Value::Str(s) => s.clone(),
        other => panic!("not a string: {:?}", other),
    }
}

#[test]
fn test_basic() {
    let mut env = make_policy();
    let policy = PythonPackagingPolicy::new();

    // attributes work
    let value = get(&env, "extension_module_filter");
    assert_eq!(value.get_type(), "string");
    assert_eq!(to_string(&value), policy.extension_module_filter().to_text());

    let value = set_get(&mut env, "extension_module_filter", Value::Str("minimal".to_string()));
    assert_eq!(to_string(&value), "minimal");

    let value = get(&env, "file_scanner_classify_files");
    assert_eq!(value.get_type(), "bool");
    assert!(to_bool(&value));

    let value = set_get(&mut env, "file_scanner_classify_files", Value::Bool(false));
    assert_eq!(value.get_type(), "bool");
    assert!(!to_bool(&value));

    let value = get(&env, "file_scanner_emit_files");
    assert_eq!(value.get_type(), "bool");
    assert!(!to_bool(&value));

    let value = set_get(&mut env, "file_scanner_emit_files", Value::Bool(true));
    assert_eq!(value.get_type(), "bool");
    assert!(to_bool(&value));

    let value = get(&env, "include_classified_resources");
    assert_eq!(value.get_type(), "bool");
    assert!(to_bool(&value));

    let value = set_get(&mut env, "include_classified_resources", Value::Bool(false));
    assert_eq!(value.get_type(), "bool");
    assert!(!to_bool(&value));

    let value = get(&env, "include_distribution_sources");
    assert_eq!(value.get_type(), "bool");
    assert_eq!(to_bool(&value), policy.include_distribution_sources());

    let value = set_get(&mut env, "include_distribution_sources", Value::Bool(false));
    assert!(!to_bool(&value));

    let value = set_get(&mut env, "include_distribution_sources", Value::Bool(true));
    assert!(to_bool(&value));

    let value = get(&env, "include_distribution_resources");
    assert_eq!(value.get_type(), "bool");
    assert_eq!(to_bool(&value), policy.include_distribution_resources());

    let value = set_get(&mut env, "include_distribution_resources", Value::Bool(false));
    assert!(!to_bool(&value));

    let value = set_get(&mut env, "include_distribution_resources", Value::Bool(true));
    assert!(to_bool(&value));

    let value = get(&env, "include_file_resources");
    assert_eq!(value.get_type(), "bool");
    assert!(!to_bool(&value));

    let value = set_get(&mut env, "include_file_resources", Value::Bool(true));
    assert_eq!(value.get_type(), "bool");
    assert!(to_bool(&value));

    let value = get(&env, "include_non_distribution_sources");
    assert_eq!(value.get_type(), "bool");
    assert_eq!(to_bool(&value), policy.include_non_distribution_sources());

    let value = set_get(&mut env, "include_non_distribution_sources", Value::Bool(false));
    assert!(!to_bool(&value));

    let value = set_get(&mut env, "include_non_distribution_sources", Value::Bool(true));
    assert!(to_bool(&value));

    let value = get(&env, "include_test");
    assert_eq!(value.get_type(), "bool");
    assert_eq!(to_bool(&value), policy.include_test());

    let value = set_get(&mut env, "include_test", Value::Bool(false));
    assert!(!to_bool(&value));

    let value = set_get(&mut env, "include_test", Value::Bool(true));
    assert!(to_bool(&value));

    let value = get(&env, "resources_location");
    assert_eq!(value.get_type(), "string");
    assert_eq!(to_string(&value), "in-memory");

    let value = set_get(
        &mut env,
        "resources_location",
        Value::Str("filesystem-relative:lib".to_string()),
    );
    assert_eq!(to_string(&value), "filesystem-relative:lib");

    let value = get(&env, "resources_location_fallback");
    assert_eq!(value.get_type(), "NoneType");

    let value = set_get(
        &mut env,
        "resources_location_fallback",
        Value::Str("filesystem-relative:lib".to_string()),
    );
    assert_eq!(to_string(&value), "filesystem-relative:lib");

    let value = set_get(&mut env, "resources_location_fallback", Value::Absent);
    assert_eq!(value.get_type(), "NoneType");

    let value = get(&env, "allow_files");
    assert_eq!(value.get_type(), "bool");
    assert!(!to_bool(&value));

    let value = set_get(&mut env, "allow_files", Value::Bool(true));
    assert_eq!(value.get_type(), "bool");
    assert!(to_bool(&value));

    let value = get(&env, "allow_in_memory_shared_library_loading");
    assert_eq!(value.get_type(), "bool");
    assert!(!to_bool(&value));

    let value = set_get(&mut env, "allow_in_memory_shared_library_loading", Value::Bool(true));
    assert_eq!(value.get_type(), "bool");
    assert!(to_bool(&value));

    // bytecode_optimize_level_zero
    let value = get(&env, "bytecode_optimize_level_zero");
    assert_eq!(value.get_type(), "bool");
    assert_eq!(to_bool(&value), policy.bytecode_optimize_level_zero());

    let value = set_get(&mut env, "bytecode_optimize_level_zero", Value::Bool(false));
    assert!(!to_bool(&value));

    let value = set_get(&mut env, "bytecode_optimize_level_zero", Value::Bool(true));
    assert!(to_bool(&value));

    // bytecode_optimize_level_one
    let value = get(&env, "bytecode_optimize_level_one");
    assert_eq!(value.get_type(), "bool");
    assert_eq!(to_bool(&value), policy.bytecode_optimize_level_one());

    let value = set_get(&mut env, "bytecode_optimize_level_one", Value::Bool(false));
    assert!(!to_bool(&value));

    let value = set_get(&mut env, "bytecode_optimize_level_one", Value::Bool(true));
    assert!(to_bool(&value));

    // bytecode_optimize_level_two
    let value = get(&env, "bytecode_optimize_level_two");
    assert_eq!(value.get_type(), "bool");
    assert_eq!(to_bool(&value), policy.bytecode_optimize_level_two());

    let value = set_get(&mut env, "bytecode_optimize_level_two", Value::Bool(false));
    assert!(!to_bool(&value));

    let value = set_get(&mut env, "bytecode_optimize_level_two", Value::Bool(true));
    assert!(to_bool(&value));
}

#[test]
fn test_preferred_extension_module_variants() {
    let mut env = make_policy();

    let value = get(&env, "preferred_extension_module_variants");
    assert_eq!(value.get_type(), "dict");
    match &value {
        Value::Dict(entries) => assert_eq!(entries.len(), 0),
        other => panic!("not a dict: {:?}", other),
    }

    env.starlark_set_preferred_extension_module_variant("foo".to_string(), "bar".to_string());

    let value = get(&env, "preferred_extension_module_variants");
    assert_eq!(value.get_type(), "dict");
    match &value {
        Value::Dict(entries) => {
            assert_eq!(entries.len(), 1);
            assert_eq!(entries[0], ("foo".to_string(), "bar".to_string()));
        }
        other => panic!("not a dict: {:?}", other),
    }
}

#[test]
fn test_register_resource_callback() {
    let mut env = make_policy();

    let my_func: Callback = Box::new(|_policy, resource| Ok(resource));
    env.starlark_register_resource_callback(my_func);

    assert_eq!(env.derive_context_callbacks.len(), 1);
    assert_eq!(env.callback_count(), 1);
}

#[test]
fn test_set_resource_handling_mode() {
    let mut env = make_policy();

    assert!(env
        .starlark_set_resource_handling_mode("invalid".to_string())
        .is_err());

    env.starlark_set_resource_handling_mode("classify".to_string())
        .unwrap();
    env.starlark_set_resource_handling_mode("files".to_string())
        .unwrap();
}

#[test]
fn every_boolean_option_round_trips() {
    let names = [
        "allow_files",
        "allow_in_memory_shared_library_loading",
        "bytecode_optimize_level_zero",
        "bytecode_optimize_level_one",
        "bytecode_optimize_level_two",
        "file_scanner_classify_files",
        "file_scanner_emit_files",
        "include_classified_resources",
        "include_distribution_sources",
        "include_distribution_resources",
        "include_file_resources",
        "include_non_distribution_sources",
        "include_test",
    ];
    for name in names {
        let mut env = make_policy();
        assert!(to_bool(&set_get(&mut env, name, Value::Bool(true))), "{}", name);
        assert!(!to_bool(&set_get(&mut env, name, Value::Bool(false))), "{}", name);
        assert_eq!(env.has_attr(name).unwrap(), true);
    }
}

#[test]
fn setting_one_boolean_option_leaves_the_others() {
    let mut env = make_policy();
    env.set_attr("include_test", Value::Bool(true)).unwrap();
    assert!(env.inner.include_test());
    assert!(!env.inner.allow_files());
    assert!(env.inner.include_distribution_sources());
    assert!(!env.inner.include_distribution_resources());
    assert!(env.inner.bytecode_optimize_level_zero());
    assert!(!env.inner.bytecode_optimize_level_one());
    assert_eq!(to_string(&get(&env, "extension_module_filter")), "all");
    assert_eq!(to_string(&get(&env, "resources_location")), "in-memory");
}

#[test]
fn every_filter_text_round_trips() {
    for text in ["all", "minimal", "no-library", "no-copyleft"] {
        let mut env = make_policy();
        let value = set_get(&mut env, "extension_module_filter", Value::Str(text.to_string()));
        assert_eq!(to_string(&value), text);
    }
}

#[test]
fn a_text_outside_the_vocabulary_is_refused_and_changes_nothing() {
    let mut env = make_policy();
    env.set_attr("extension_module_filter", Value::Str("minimal".to_string()))
        .unwrap();
    let error = env
        .set_attr("extension_module_filter", Value::Str("bogus".to_string()))
        .unwrap_err();
    match &error {
        PolicyError::Validation { attribute, value, message } => {
            assert_eq!(attribute, "extension_module_filter");
            assert!(matches!(value, Value::Str(s) if s == "bogus"));
            assert_eq!(message, "bogus is not a valid extension module filter");
        }
        other => panic!("unexpected error: {:?}", other),
    }
    assert_eq!(error.code(), "PYOXIDIZER_BUILD");
    assert_eq!(error.path(), "PythonPackagingPolicy.extension_module_filter");
    assert_eq!(to_string(&get(&env, "extension_module_filter")), "minimal");

    let error = env
        .set_attr("resources_location", Value::Str("on-the-moon".to_string()))
        .unwrap_err();
    match &error {
        PolicyError::Validation { message, .. } => {
            assert_eq!(message, "on-the-moon is not a valid resource location");
        }
        other => panic!("unexpected error: {:?}", other),
    }
    assert_eq!(to_string(&get(&env, "resources_location")), "in-memory");

    env.set_attr(
        "resources_location_fallback",
        Value::Str("filesystem-relative:lib".to_string()),
    )
    .unwrap();
    assert!(env
        .set_attr("resources_location_fallback", Value::Str("filesystem-relative".to_string()))
        .is_err());
    assert_eq!(
        to_string(&get(&env, "resources_location_fallback")),
        "filesystem-relative:lib"
    );
}

#[test]
fn a_value_of_the_wrong_type_is_refused_and_changes_nothing() {
    let mut env = make_policy();
    let error = env
        .set_attr("allow_files", Value::Str("yes".to_string()))
        .unwrap_err();
    match &error {
        PolicyError::Validation { attribute, value, message } => {
            assert_eq!(attribute, "allow_files");
            assert!(matches!(value, Value::Str(s) if s == "yes"));
            assert_eq!(message, "expected a value of type bool");
        }
        other => panic!("unexpected error: {:?}", other),
    }
    assert!(!env.inner.allow_files());

    assert!(env.set_attr("extension_module_filter", Value::Bool(true)).is_err());
    assert_eq!(to_string(&get(&env, "extension_module_filter")), "all");

    assert!(env.set_attr("resources_location", Value::Absent).is_err());
    assert!(env
        .set_attr(
            "resources_location_fallback",
            Value::Other { type_label: "int".to_string(), text: "3".to_string() },
        )
        .is_err());
    assert_eq!(get(&env, "resources_location_fallback").get_type(), "NoneType");
}

#[test]
fn a_name_outside_the_fixed_set_is_unknown() {
    let mut env = make_policy();
    match env.get_attr("no_such_option").unwrap_err() {
        PolicyError::UnknownAttribute { operation, attribute } => {
            assert_eq!(operation, AttributeOperation::Read);
            assert_eq!(attribute, "no_such_option");
        }
        other => panic!("unexpected error: {:?}", other),
    }
    match env.set_attr("no_such_option", Value::Bool(true)).unwrap_err() {
        PolicyError::UnknownAttribute { operation, attribute } => {
            assert_eq!(operation, AttributeOperation::Write);
            assert_eq!(attribute, "no_such_option");
        }
        other => panic!("unexpected error: {:?}", other),
    }
    assert_eq!(env.has_attr("no_such_option").unwrap(), false);
    assert_eq!(env.has_attr("preferred_extension_module_variants").unwrap(), true);
    assert_eq!(env.has_attr("").unwrap(), false);
    assert_eq!(env.has_attr("Allow_files").unwrap(), false);
    assert_eq!(env.has_attr("allow_files ").unwrap(), false);
}

#[test]
fn the_preferred_variants_are_written_by_their_own_method_only() {
    let mut env = make_policy();
    let error = env
        .set_attr("preferred_extension_module_variants", Value::Dict(vec![]))
        .unwrap_err();
    assert!(matches!(
        error,
        PolicyError::UnknownAttribute { operation: AttributeOperation::Write, .. }
    ));
    assert_eq!(error.code(), "UNSUPPORTED_OPERATION");

    env.starlark_set_preferred_extension_module_variant("foo".to_string(), "bar".to_string());
    env.starlark_set_preferred_extension_module_variant("baz".to_string(), "qux".to_string());
    env.starlark_set_preferred_extension_module_variant("foo".to_string(), "other".to_string());
    assert_eq!(
        env.inner.preferred_extension_module_variants().entries(),
        &vec![
            ("foo".to_string(), "other".to_string()),
            ("baz".to_string(), "qux".to_string())
        ]
    );
}

#[test]
fn the_handling_mode_fixes_five_settings() {
    let mut env = make_policy();
    env.set_attr("include_classified_resources", Value::Bool(false)).unwrap();
    env.set_attr("include_test", Value::Bool(true)).unwrap();

    env.starlark_set_resource_handling_mode("files".to_string()).unwrap();
    assert!(env.inner.file_scanner_emit_files());
    assert!(!env.inner.file_scanner_classify_files());
    assert!(env.inner.allow_files());
    assert!(env.inner.include_file_resources());
    assert!(env.inner.include_classified_resources());
    assert!(env.inner.include_test());

    env.starlark_set_resource_handling_mode("classify".to_string()).unwrap();
    assert!(!env.inner.file_scanner_emit_files());
    assert!(env.inner.file_scanner_classify_files());
    assert!(!env.inner.allow_files());
    assert!(!env.inner.include_file_resources());
    assert!(env.inner.include_classified_resources());
    assert!(env.inner.include_test());

    let before = format!("{:?}", env.inner);
    let error = env
        .starlark_set_resource_handling_mode("invalid".to_string())
        .unwrap_err();
    match &error {
        PolicyError::Validation { attribute, value, message } => {
            assert_eq!(attribute, "set_resource_handling_mode()");
            assert!(matches!(value, Value::Str(s) if s == "invalid"));
            assert_eq!(
                message,
                "invalid is not a valid resource handling mode; use \"classify\" or \"files\""
            );
        }
        other => panic!("unexpected error: {:?}", other),
    }
    assert_eq!(error.path(), "PythonPackagingPolicy.set_resource_handling_mode()");
    assert_eq!(format!("{:?}", env.inner), before);
}

#[test]
fn the_label_of_a_refused_write_names_the_option_and_the_value() {
    let mut env = make_policy();
    let error = env
        .set_attr("extension_module_filter", Value::Str("bogus".to_string()))
        .unwrap_err();
    assert_eq!(error.label(), "PythonPackagingPolicy.extension_module_filter = bogus");

    let error = env.set_attr("allow_files", Value::Absent).unwrap_err();
    assert_eq!(error.label(), "PythonPackagingPolicy.allow_files = None");

    let error = env.set_attr("resources_location", Value::Bool(true)).unwrap_err();
    assert_eq!(error.label(), "PythonPackagingPolicy.resources_location = True");
    let error = env.set_attr("resources_location", Value::Bool(false)).unwrap_err();
    assert_eq!(error.label(), "PythonPackagingPolicy.resources_location = False");

    let error = env
        .set_attr(
            "include_test",
            Value::Other { type_label: "int".to_string(), text: "3".to_string() },
        )
        .unwrap_err();
    assert_eq!(error.label(), "PythonPackagingPolicy.include_test = 3");

    let error = env
        .set_attr(
            "include_test",
            Value::Dict(vec![
                ("a".to_string(), "b".to_string()),
                ("c".to_string(), "d".to_string()),
                ("e".to_string(), "".to_string()),
            ]),
        )
        .unwrap_err();
    assert_eq!(error.label(), "PythonPackagingPolicy.include_test = {a: b, c: d, e: }");

    let error = env
        .starlark_set_resource_handling_mode("invalid".to_string())
        .unwrap_err();
    assert_eq!(error.label(), "set_resource_handling_mode()");

    let error = env.get_attr("no_such_option").unwrap_err();
    assert_eq!(error.label(), "PythonPackagingPolicy.no_such_option");
}

#[test]
fn a_value_is_rendered_by_its_kind() {
    assert_eq!(Value::Absent.to_text(), "None");
    assert_eq!(Value::Bool(true).to_text(), "True");
    assert_eq!(Value::Bool(false).to_text(), "False");
    assert_eq!(Value::Str("".to_string()).to_text(), "");
    assert_eq!(Value::Str("text".to_string()).to_text(), "text");
    assert_eq!(Value::Dict(vec![]).to_text(), "{}");
    assert_eq!(Value::Dict(vec![("k".to_string(), "v".to_string())]).to_text(), "{k: v}");
    assert_eq!(
        Value::Other { type_label: "list".to_string(), text: "[1, 2]".to_string() }.to_text(),
        "[1, 2]"
    );
}
