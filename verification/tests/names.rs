use pyoxidizer::assoc::NameMap;
use pyoxidizer::location::ConcreteResourceLocation;
use pyoxidizer::policy::{ExtensionModuleFilter, PythonPackagingPolicy, ResourceHandlingMode};
use pyoxidizer::text::{join, same_text, starts_with, strip_prefix};

#[test]
fn a_name_map_keeps_one_entry_for_a_name() {
    let mut map = NameMap::new();
    assert_eq!(map.len(), 0);
    assert_eq!(map.get("foo"), None);

    map.set("foo", "bar");
    assert_eq!(map.len(), 1);
    assert_eq!(map.get("foo").map(String::as_str), Some("bar"));
    assert_eq!(map.get("fo"), None);

    map.set("baz", "qux");
    map.set("foo", "other");
    assert_eq!(map.len(), 2);
    assert_eq!(map.get("foo").map(String::as_str), Some("other"));
    assert_eq!(map.get("baz").map(String::as_str), Some("qux"));
    assert_eq!(
        map.entries(),
        &vec![("foo".to_string(), "other".to_string()), ("baz".to_string(), "qux".to_string())]
    );

    let copy = map.clone();
    assert_eq!(copy, map);
    assert_eq!(copy.into_entries().len(), 2);
}

#[test]
fn text_helpers_compare_by_characters() {
    assert!(same_text("", ""));
    assert!(same_text("caf\u{e9}", "caf\u{e9}"));
    assert!(!same_text("a", "A"));
    assert!(starts_with("filesystem", "file"));
    assert!(starts_with("file", ""));
    assert!(!starts_with("fil", "file"));
    assert_eq!(strip_prefix("\u{e9}t\u{e9}", "\u{e9}").as_deref(), Some("t\u{e9}"));
    assert_eq!(strip_prefix("abc", "abc").as_deref(), Some(""));
    assert_eq!(strip_prefix("abc", "b"), None);
    assert_eq!(join("ab", "cd"), "abcd");
}

#[test]
fn a_placement_is_read_from_its_text() {
    assert_eq!(
        ConcreteResourceLocation::parse("in-memory"),
        Ok(ConcreteResourceLocation::InMemory)
    );
    assert_eq!(
        ConcreteResourceLocation::parse("filesystem-relative:lib"),
        Ok(ConcreteResourceLocation::RelativePath("lib".to_string()))
    );
    assert_eq!(
        ConcreteResourceLocation::parse("filesystem-relative:"),
        Ok(ConcreteResourceLocation::RelativePath("".to_string()))
    );
    assert_eq!(
        ConcreteResourceLocation::parse("filesystem-relative"),
        Err("filesystem-relative is not a valid resource location".to_string())
    );
    assert_eq!(
        ConcreteResourceLocation::parse(""),
        Err(" is not a valid resource location".to_string())
    );
    assert!(ConcreteResourceLocation::InMemory.is_in_memory());
    assert!(!ConcreteResourceLocation::RelativePath("lib".to_string()).is_in_memory());
    assert_eq!(ConcreteResourceLocation::InMemory.to_text(), "in-memory");
    assert_eq!(
        ConcreteResourceLocation::RelativePath("a/b".to_string()).to_text(),
        "filesystem-relative:a/b"
    );
}

#[test]
fn a_filter_is_read_from_its_text() {
    assert_eq!(ExtensionModuleFilter::parse("minimal"), Ok(ExtensionModuleFilter::Minimal));
    assert_eq!(ExtensionModuleFilter::parse("all"), Ok(ExtensionModuleFilter::All));
    assert_eq!(ExtensionModuleFilter::parse("no-library"), Ok(ExtensionModuleFilter::NoLibrary));
    assert_eq!(ExtensionModuleFilter::parse("no-copyleft"), Ok(ExtensionModuleFilter::NoCopyleft));
    assert_eq!(
        ExtensionModuleFilter::parse("All"),
        Err("All is not a valid extension module filter".to_string())
    );
    for filter in [
        ExtensionModuleFilter::Minimal,
        ExtensionModuleFilter::All,
        ExtensionModuleFilter::NoLibrary,
        ExtensionModuleFilter::NoCopyleft,
    ] {
        assert_eq!(ExtensionModuleFilter::parse(&filter.to_text()), Ok(filter));
    }
}

#[test]
fn a_mode_is_read_from_its_text() {
    assert_eq!(ResourceHandlingMode::parse("classify"), Ok(ResourceHandlingMode::Classify));
    assert_eq!(ResourceHandlingMode::parse("files"), Ok(ResourceHandlingMode::Files));
    assert_eq!(ResourceHandlingMode::Classify.to_text(), "classify");
    assert_eq!(ResourceHandlingMode::Files.to_text(), "files");
    assert!(ResourceHandlingMode::parse("file").is_err());
}

#[test]
fn a_copy_of_a_policy_is_equal_to_it() {
    let mut policy = PythonPackagingPolicy::new();
    assert_eq!(policy, PythonPackagingPolicy::default());
    policy.set_include_test(true);
    policy.set_extension_module_filter(ExtensionModuleFilter::NoCopyleft);
    policy.set_resources_location(ConcreteResourceLocation::RelativePath("lib".to_string()));
    policy.set_resources_location_fallback(Some(ConcreteResourceLocation::InMemory));
    policy.set_preferred_extension_module_variant("foo", "bar");
    let copy = policy.clone();
    assert_eq!(copy, policy);
    assert_ne!(copy, PythonPackagingPolicy::new());
    assert_eq!(copy.extension_module_filter(), ExtensionModuleFilter::NoCopyleft);
    assert_eq!(
        copy.resources_location_fallback(),
        &Some(ConcreteResourceLocation::InMemory)
    );
}
