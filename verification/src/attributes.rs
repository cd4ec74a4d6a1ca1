//! The fixed set of named options of a policy: which names there are, and
//! what reading and writing each of them means.

use crate::location::{
    format_location, invalid_location_message, lemma_format_parse_location, parse_location,
};
use crate::policy::{
    format_filter, invalid_filter_message, lemma_format_parse_filter, parse_filter, PolicyView,
    PythonPackagingPolicy,
};
use crate::text::same_text;
use crate::value::{AttributeOperation, ErrorView, ValueView};
use vstd::prelude::*;

verus! {

/// The boolean options.
#[derive(Clone, Copy, Debug, PartialEq, Eq, Structural)]
pub enum Flag {
    AllowFiles,
    AllowInMemorySharedLibraryLoading,
    BytecodeOptimizeLevelZero,
    BytecodeOptimizeLevelOne,
    BytecodeOptimizeLevelTwo,
    FileScannerClassifyFiles,
    FileScannerEmitFiles,
    IncludeClassifiedResources,
    IncludeDistributionSources,
    IncludeDistributionResources,
    IncludeFileResources,
    IncludeNonDistributionSources,
    IncludeTest,
}

/// The named options.
#[derive(Clone, Copy, Debug, PartialEq, Eq, Structural)]
pub enum Attribute {
    Flag(Flag),
    ExtensionModuleFilter,
    PreferredExtensionModuleVariants,
    ResourcesLocation,
    ResourcesLocationFallback,
}

/// The name of a boolean option.
pub open spec fn flag_name(flag: Flag) -> Seq<char> {
    match flag {
        Flag::AllowFiles => "allow_files"@,
        Flag::AllowInMemorySharedLibraryLoading => "allow_in_memory_shared_library_loading"@,
        Flag::BytecodeOptimizeLevelZero => "bytecode_optimize_level_zero"@,
        Flag::BytecodeOptimizeLevelOne => "bytecode_optimize_level_one"@,
        Flag::BytecodeOptimizeLevelTwo => "bytecode_optimize_level_two"@,
        Flag::FileScannerClassifyFiles => "file_scanner_classify_files"@,
        Flag::FileScannerEmitFiles => "file_scanner_emit_files"@,
        Flag::IncludeClassifiedResources => "include_classified_resources"@,
        Flag::IncludeDistributionSources => "include_distribution_sources"@,
        Flag::IncludeDistributionResources => "include_distribution_resources"@,
        Flag::IncludeFileResources => "include_file_resources"@,
        Flag::IncludeNonDistributionSources => "include_non_distribution_sources"@,
        Flag::IncludeTest => "include_test"@,
    }
}

/// The name of an option.
pub open spec fn attribute_name(attribute: Attribute) -> Seq<char> {
    match attribute {
        Attribute::Flag(flag) => flag_name(flag),
        Attribute::ExtensionModuleFilter => "extension_module_filter"@,
        Attribute::PreferredExtensionModuleVariants => "preferred_extension_module_variants"@,
        Attribute::ResourcesLocation => "resources_location"@,
        Attribute::ResourcesLocationFallback => "resources_location_fallback"@,
    }
}

/// The boolean option that a name stands for, if it stands for one.
pub open spec fn parse_flag(name: Seq<char>) -> Option<Flag> {
    if name == "allow_files"@ {
        Some(Flag::AllowFiles)
    } else if name == "allow_in_memory_shared_library_loading"@ {
        Some(Flag::AllowInMemorySharedLibraryLoading)
    } else if name == "bytecode_optimize_level_zero"@ {
        Some(Flag::BytecodeOptimizeLevelZero)
    } else if name == "bytecode_optimize_level_one"@ {
        Some(Flag::BytecodeOptimizeLevelOne)
    } else if name == "bytecode_optimize_level_two"@ {
        Some(Flag::BytecodeOptimizeLevelTwo)
    } else if name == "file_scanner_classify_files"@ {
        Some(Flag::FileScannerClassifyFiles)
    } else if name == "file_scanner_emit_files"@ {
        Some(Flag::FileScannerEmitFiles)
    } else if name == "include_classified_resources"@ {
        Some(Flag::IncludeClassifiedResources)
    } else if name == "include_distribution_sources"@ {
        Some(Flag::IncludeDistributionSources)
    } else if name == "include_distribution_resources"@ {
        Some(Flag::IncludeDistributionResources)
    } else if name == "include_file_resources"@ {
        Some(Flag::IncludeFileResources)
    } else if name == "include_non_distribution_sources"@ {
        Some(Flag::IncludeNonDistributionSources)
    } else if name == "include_test"@ {
        Some(Flag::IncludeTest)
    } else {
        None
    }
}

/// The option that a name stands for, if it stands for one.
pub open spec fn parse_attribute(name: Seq<char>) -> Option<Attribute> {
    match parse_flag(name) {
        Some(flag) => Some(Attribute::Flag(flag)),
        None => if name == "extension_module_filter"@ {
            Some(Attribute::ExtensionModuleFilter)
        } else if name == "preferred_extension_module_variants"@ {
            Some(Attribute::PreferredExtensionModuleVariants)
        } else if name == "resources_location"@ {
            Some(Attribute::ResourcesLocation)
        } else if name == "resources_location_fallback"@ {
            Some(Attribute::ResourcesLocationFallback)
        } else {
            None
        },
    }
}

/// The value of a boolean option.
pub open spec fn flag_value(p: PolicyView, flag: Flag) -> bool {
    match flag {
        Flag::AllowFiles => p.allow_files,
        Flag::AllowInMemorySharedLibraryLoading => p.allow_in_memory_shared_library_loading,
        Flag::BytecodeOptimizeLevelZero => p.bytecode_optimize_level_zero,
        Flag::BytecodeOptimizeLevelOne => p.bytecode_optimize_level_one,
        Flag::BytecodeOptimizeLevelTwo => p.bytecode_optimize_level_two,
        Flag::FileScannerClassifyFiles => p.file_scanner_classify_files,
        Flag::FileScannerEmitFiles => p.file_scanner_emit_files,
        Flag::IncludeClassifiedResources => p.include_classified_resources,
        Flag::IncludeDistributionSources => p.include_distribution_sources,
        Flag::IncludeDistributionResources => p.include_distribution_resources,
        Flag::IncludeFileResources => p.include_file_resources,
        Flag::IncludeNonDistributionSources => p.include_non_distribution_sources,
        Flag::IncludeTest => p.include_test,
    }
}

/// The settings after a boolean option has been set: that option has the
/// new value and every other setting is as before.
pub open spec fn with_flag(p: PolicyView, flag: Flag, value: bool) -> PolicyView {
    match flag {
        Flag::AllowFiles => PolicyView { allow_files: value, ..p },
        Flag::AllowInMemorySharedLibraryLoading => PolicyView { allow_in_memory_shared_library_loading: value, ..p },
        Flag::BytecodeOptimizeLevelZero => PolicyView { bytecode_optimize_level_zero: value, ..p },
        Flag::BytecodeOptimizeLevelOne => PolicyView { bytecode_optimize_level_one: value, ..p },
        Flag::BytecodeOptimizeLevelTwo => PolicyView { bytecode_optimize_level_two: value, ..p },
        Flag::FileScannerClassifyFiles => PolicyView { file_scanner_classify_files: value, ..p },
        Flag::FileScannerEmitFiles => PolicyView { file_scanner_emit_files: value, ..p },
        Flag::IncludeClassifiedResources => PolicyView { include_classified_resources: value, ..p },
        Flag::IncludeDistributionSources => PolicyView { include_distribution_sources: value, ..p },
        Flag::IncludeDistributionResources => PolicyView { include_distribution_resources: value, ..p },
        Flag::IncludeFileResources => PolicyView { include_file_resources: value, ..p },
        Flag::IncludeNonDistributionSources => PolicyView { include_non_distribution_sources: value, ..p },
        Flag::IncludeTest => PolicyView { include_test: value, ..p },
    }
}

/// What a value of the wrong type for a boolean option is answered with.
pub open spec fn expected_bool_message() -> Seq<char> {
    "expected a value of type bool"@
}

/// What a value of the wrong type for a text option is answered with.
pub open spec fn expected_string_message() -> Seq<char> {
    "expected a value of type string"@
}

/// What reading an option gives.
pub open spec fn attribute_value(p: PolicyView, attribute: Attribute) -> ValueView {
    match attribute {
        Attribute::Flag(flag) => ValueView::Bool(flag_value(p, flag)),
        Attribute::ExtensionModuleFilter => ValueView::Str(format_filter(p.extension_module_filter)),
        Attribute::PreferredExtensionModuleVariants => ValueView::Dict(
            p.preferred_extension_module_variants,
        ),
        Attribute::ResourcesLocation => ValueView::Str(format_location(p.resources_location)),
        Attribute::ResourcesLocationFallback => match p.resources_location_fallback {
            Some(l) => ValueView::Str(format_location(l)),
            None => ValueView::Absent,
        },
    }
}

/// What reading the option of that name gives: its value, or the error for
/// a name outside the fixed set.
pub open spec fn read_attribute(p: PolicyView, name: Seq<char>) -> Result<ValueView, ErrorView> {
    match parse_attribute(name) {
        Some(attribute) => Ok(attribute_value(p, attribute)),
        None => Err(
            ErrorView::UnknownAttribute { operation: AttributeOperation::Read, attribute: name },
        ),
    }
}

/// The error for a value that an option does not take.
pub open spec fn rejected(name: Seq<char>, value: ValueView, message: Seq<char>) -> ErrorView {
    ErrorView::Validation { attribute: name, value: value, message: message }
}

/// What writing `value` to the option of that name gives: the new settings,
/// in which that option alone has changed, or the error. A boolean option
/// takes a truth value. The filter and the primary placement take a text of
/// their vocabulary; the fallback placement takes such a text or the absent
/// value. The mapping of preferred variants is not written this way.
pub open spec fn write_attribute(p: PolicyView, name: Seq<char>, value: ValueView) -> Result<
    PolicyView,
    ErrorView,
> {
    match parse_attribute(name) {
        Some(Attribute::Flag(flag)) => match value {
            ValueView::Bool(b) => Ok(with_flag(p, flag, b)),
            _ => Err(rejected(name, value, expected_bool_message())),
        },
        Some(Attribute::ExtensionModuleFilter) => match value {
            ValueView::Str(s) => match parse_filter(s) {
                Some(filter) => Ok(PolicyView { extension_module_filter: filter, ..p }),
                None => Err(rejected(name, value, invalid_filter_message(s))),
            },
            _ => Err(rejected(name, value, expected_string_message())),
        },
        Some(Attribute::ResourcesLocation) => match value {
            ValueView::Str(s) => match parse_location(s) {
                Some(location) => Ok(PolicyView { resources_location: location, ..p }),
                None => Err(rejected(name, value, invalid_location_message(s))),
            },
            _ => Err(rejected(name, value, expected_string_message())),
        },
        Some(Attribute::ResourcesLocationFallback) => match value {
            ValueView::Absent => Ok(PolicyView { resources_location_fallback: None, ..p }),
            ValueView::Str(s) => match parse_location(s) {
                Some(location) => Ok(PolicyView { resources_location_fallback: Some(location), ..p }),
                None => Err(rejected(name, value, invalid_location_message(s))),
            },
            _ => Err(rejected(name, value, expected_string_message())),
        },
        _ => Err(
            ErrorView::UnknownAttribute { operation: AttributeOperation::Write, attribute: name },
        ),
    }
}

/// Every option is found again under its own name.
pub proof fn lemma_parse_attribute_name(attribute: Attribute)
    ensures
        parse_attribute(attribute_name(attribute)) == Some(attribute),
{
    let name = attribute_name(attribute);
    match attribute {
        Attribute::Flag(flag) => {
            lemma_flag_names_differ(flag);
        },
        _ => {
            lemma_text_option_names(name);
        },
    }
}

/// A name stands for an option only where it is the option's own name, so
/// the named options are exactly the ones listed.
pub proof fn lemma_attribute_name_parse(name: Seq<char>)
    requires
        parse_attribute(name) is Some,
    ensures
        attribute_name(parse_attribute(name)->0) == name,
{
}

/// The lengths of the names of the options, and for names of the same
/// length a character by which they differ.
proof fn lemma_option_names()
    ensures
        "allow_files"@.len() == 11,
        "allow_in_memory_shared_library_loading"@.len() == 38,
        "bytecode_optimize_level_zero"@.len() == 28,
        "bytecode_optimize_level_one"@.len() == 27,
        "bytecode_optimize_level_two"@.len() == 27,
        "file_scanner_classify_files"@.len() == 27,
        "file_scanner_emit_files"@.len() == 23,
        "include_classified_resources"@.len() == 28,
        "include_distribution_sources"@.len() == 28,
        "include_distribution_resources"@.len() == 30,
        "include_file_resources"@.len() == 22,
        "include_non_distribution_sources"@.len() == 32,
        "include_test"@.len() == 12,
        "extension_module_filter"@.len() == 23,
        "preferred_extension_module_variants"@.len() == 35,
        "resources_location"@.len() == 18,
        "resources_location_fallback"@.len() == 27,
        "bytecode_optimize_level_zero"@[0] == 'b',
        "include_classified_resources"@[0] == 'i',
        "include_distribution_sources"@[0] == 'i',
        "include_classified_resources"@[8] == 'c',
        "include_distribution_sources"@[8] == 'd',
        "bytecode_optimize_level_one"@[0] == 'b',
        "bytecode_optimize_level_two"@[0] == 'b',
        "file_scanner_classify_files"@[0] == 'f',
        "resources_location_fallback"@[0] == 'r',
        "bytecode_optimize_level_one"@[24] == 'o',
        "bytecode_optimize_level_two"@[24] == 't',
        "file_scanner_emit_files"@[0] == 'f',
        "extension_module_filter"@[0] == 'e',
{
    reveal_strlit("allow_files");
    reveal_strlit("allow_in_memory_shared_library_loading");
    reveal_strlit("bytecode_optimize_level_zero");
    reveal_strlit("bytecode_optimize_level_one");
    reveal_strlit("bytecode_optimize_level_two");
    reveal_strlit("file_scanner_classify_files");
    reveal_strlit("file_scanner_emit_files");
    reveal_strlit("include_classified_resources");
    reveal_strlit("include_distribution_sources");
    reveal_strlit("include_distribution_resources");
    reveal_strlit("include_file_resources");
    reveal_strlit("include_non_distribution_sources");
    reveal_strlit("include_test");
    reveal_strlit("extension_module_filter");
    reveal_strlit("preferred_extension_module_variants");
    reveal_strlit("resources_location");
    reveal_strlit("resources_location_fallback");
}

/// The name of a boolean option stands for that option.
proof fn lemma_flag_names_differ(flag: Flag)
    ensures
        parse_flag(flag_name(flag)) == Some(flag),
{
    lemma_option_names();
}

/// The names of the four options that are not boolean stand for no boolean
/// option, and differ from one another.
proof fn lemma_text_option_names(name: Seq<char>)
    requires
        name == "extension_module_filter"@ || name == "preferred_extension_module_variants"@
            || name == "resources_location"@ || name == "resources_location_fallback"@,
    ensures
        parse_flag(name) is None,
        name == "extension_module_filter"@ ==> name != "preferred_extension_module_variants"@
            && name != "resources_location"@ && name != "resources_location_fallback"@,
        name == "preferred_extension_module_variants"@ ==> name != "resources_location"@ && name
            != "resources_location_fallback"@,
        name == "resources_location"@ ==> name != "resources_location_fallback"@,
{
    lemma_option_names();
}

/// Setting a boolean option gives that option the new value.
pub proof fn lemma_with_flag_same(p: PolicyView, flag: Flag, value: bool)
    ensures
        flag_value(with_flag(p, flag, value), flag) == value,
{
}

/// Setting a boolean option leaves every other boolean option as it was.
pub proof fn lemma_with_flag_other(p: PolicyView, flag: Flag, value: bool, other: Flag)
    requires
        other != flag,
    ensures
        flag_value(with_flag(p, flag, value), other) == flag_value(p, other),
{
}

/// Setting a boolean option leaves the options that are not boolean as
/// they were.
pub proof fn lemma_with_flag_rest(p: PolicyView, flag: Flag, value: bool)
    ensures
        with_flag(p, flag, value).extension_module_filter == p.extension_module_filter,
        with_flag(p, flag, value).preferred_extension_module_variants
            == p.preferred_extension_module_variants,
        with_flag(p, flag, value).resources_location == p.resources_location,
        with_flag(p, flag, value).resources_location_fallback == p.resources_location_fallback,
{
}

/// A truth value written to a boolean option is the value that is read
/// from it afterwards, and the write changes no other option.
pub proof fn lemma_flag_round_trip(p: PolicyView, flag: Flag, value: bool)
    ensures
        write_attribute(p, flag_name(flag), ValueView::Bool(value)) == Ok::<PolicyView, ErrorView>(
            with_flag(p, flag, value),
        ),
        read_attribute(with_flag(p, flag, value), flag_name(flag)) == Ok::<ValueView, ErrorView>(
            ValueView::Bool(value),
        ),
        forall|other: Attribute|
            other != Attribute::Flag(flag) ==> attribute_value(with_flag(p, flag, value), other)
                == attribute_value(p, other),
{
    lemma_parse_attribute_name(Attribute::Flag(flag));
    lemma_with_flag_same(p, flag, value);
    lemma_with_flag_rest(p, flag, value);
    let q = with_flag(p, flag, value);
    assert forall|other: Attribute| other != Attribute::Flag(flag) implies attribute_value(q, other)
        == attribute_value(p, other) by {
        match other {
            Attribute::Flag(g) => {
                lemma_with_flag_other(p, flag, value, g);
            },
            _ => {},
        }
    }
}

/// A text of the filter's vocabulary that is written to the filter is read
/// back unchanged; a text outside the vocabulary is refused.
pub proof fn lemma_filter_round_trip(p: PolicyView, text: Seq<char>)
    ensures
        match write_attribute(p, "extension_module_filter"@, ValueView::Str(text)) {
            Ok(q) => parse_filter(text) is Some && read_attribute(q, "extension_module_filter"@)
                == Ok::<ValueView, ErrorView>(ValueView::Str(text)),
            Err(e) => parse_filter(text) is None && e is Validation,
        },
{
    lemma_parse_attribute_name(Attribute::ExtensionModuleFilter);
    if parse_filter(text) is Some {
        lemma_format_parse_filter(text);
    }
}

/// A text that names a placement and is written to the primary placement
/// is read back unchanged; any other text is refused.
pub proof fn lemma_location_round_trip(p: PolicyView, text: Seq<char>)
    ensures
        match write_attribute(p, "resources_location"@, ValueView::Str(text)) {
            Ok(q) => parse_location(text) is Some && read_attribute(q, "resources_location"@)
                == Ok::<ValueView, ErrorView>(ValueView::Str(text)),
            Err(e) => parse_location(text) is None && e is Validation,
        },
{
    lemma_parse_attribute_name(Attribute::ResourcesLocation);
    if parse_location(text) is Some {
        lemma_format_parse_location(text);
    }
}

/// A text that names a placement and is written to the fallback placement
/// is read back unchanged, and so is the absent value; any other text is
/// refused.
pub proof fn lemma_fallback_round_trip(p: PolicyView, text: Seq<char>)
    ensures
        match write_attribute(p, "resources_location_fallback"@, ValueView::Str(text)) {
            Ok(q) => parse_location(text) is Some && read_attribute(
                q,
                "resources_location_fallback"@,
            ) == Ok::<ValueView, ErrorView>(ValueView::Str(text)),
            Err(e) => parse_location(text) is None && e is Validation,
        },
        match write_attribute(p, "resources_location_fallback"@, ValueView::Absent) {
            Ok(q) => read_attribute(q, "resources_location_fallback"@) == Ok::<
                ValueView,
                ErrorView,
            >(ValueView::Absent),
            Err(e) => false,
        },
{
    lemma_parse_attribute_name(Attribute::ResourcesLocationFallback);
    if parse_location(text) is Some {
        lemma_format_parse_location(text);
    }
}

/// The boolean option that `name` stands for, if it stands for one.
pub fn find_flag(name: &str) -> (r: Option<Flag>)
    ensures
        r == parse_flag(name@),
{
    if same_text(name, "allow_files") {
        Some(Flag::AllowFiles)
    } else if same_text(name, "allow_in_memory_shared_library_loading") {
        Some(Flag::AllowInMemorySharedLibraryLoading)
    } else if same_text(name, "bytecode_optimize_level_zero") {
        Some(Flag::BytecodeOptimizeLevelZero)
    } else if same_text(name, "bytecode_optimize_level_one") {
        Some(Flag::BytecodeOptimizeLevelOne)
    } else if same_text(name, "bytecode_optimize_level_two") {
        Some(Flag::BytecodeOptimizeLevelTwo)
    } else if same_text(name, "file_scanner_classify_files") {
        Some(Flag::FileScannerClassifyFiles)
    } else if same_text(name, "file_scanner_emit_files") {
        Some(Flag::FileScannerEmitFiles)
    } else if same_text(name, "include_classified_resources") {
        Some(Flag::IncludeClassifiedResources)
    } else if same_text(name, "include_distribution_sources") {
        Some(Flag::IncludeDistributionSources)
    } else if same_text(name, "include_distribution_resources") {
        Some(Flag::IncludeDistributionResources)
    } else if same_text(name, "include_file_resources") {
        Some(Flag::IncludeFileResources)
    } else if same_text(name, "include_non_distribution_sources") {
        Some(Flag::IncludeNonDistributionSources)
    } else if same_text(name, "include_test") {
        Some(Flag::IncludeTest)
    } else {
        None
    }
}

/// The option that `name` stands for, if it stands for one.
pub fn find_attribute(name: &str) -> (r: Option<Attribute>)
    ensures
        r == parse_attribute(name@),
{
    match find_flag(name) {
        Some(flag) => Some(Attribute::Flag(flag)),
        None => {
            if same_text(name, "extension_module_filter") {
                Some(Attribute::ExtensionModuleFilter)
            } else if same_text(name, "preferred_extension_module_variants") {
                Some(Attribute::PreferredExtensionModuleVariants)
            } else if same_text(name, "resources_location") {
                Some(Attribute::ResourcesLocation)
            } else if same_text(name, "resources_location_fallback") {
                Some(Attribute::ResourcesLocationFallback)
            } else {
                None
            }
        },
    }
}

impl PythonPackagingPolicy {
    /// The value of a boolean option.
    pub fn flag(&self, flag: Flag) -> (r: bool)
        ensures
            r == flag_value(self@, flag),
    {
        match flag {
            Flag::AllowFiles => self.allow_files(),
            Flag::AllowInMemorySharedLibraryLoading => self.allow_in_memory_shared_library_loading(),
            Flag::BytecodeOptimizeLevelZero => self.bytecode_optimize_level_zero(),
            Flag::BytecodeOptimizeLevelOne => self.bytecode_optimize_level_one(),
            Flag::BytecodeOptimizeLevelTwo => self.bytecode_optimize_level_two(),
            Flag::FileScannerClassifyFiles => self.file_scanner_classify_files(),
            Flag::FileScannerEmitFiles => self.file_scanner_emit_files(),
            Flag::IncludeClassifiedResources => self.include_classified_resources(),
            Flag::IncludeDistributionSources => self.include_distribution_sources(),
            Flag::IncludeDistributionResources => self.include_distribution_resources(),
            Flag::IncludeFileResources => self.include_file_resources(),
            Flag::IncludeNonDistributionSources => self.include_non_distribution_sources(),
            Flag::IncludeTest => self.include_test(),
        }
    }

    /// Sets a boolean option and nothing else.
    pub fn set_flag(&mut self, flag: Flag, value: bool)
        ensures
            final(self)@ == with_flag(old(self)@, flag, value),
    {
        match flag {
            Flag::AllowFiles => self.set_allow_files(value),
            Flag::AllowInMemorySharedLibraryLoading => self.set_allow_in_memory_shared_library_loading(value),
            Flag::BytecodeOptimizeLevelZero => self.set_bytecode_optimize_level_zero(value),
            Flag::BytecodeOptimizeLevelOne => self.set_bytecode_optimize_level_one(value),
            Flag::BytecodeOptimizeLevelTwo => self.set_bytecode_optimize_level_two(value),
            Flag::FileScannerClassifyFiles => self.set_file_scanner_classify_files(value),
            Flag::FileScannerEmitFiles => self.set_file_scanner_emit_files(value),
            Flag::IncludeClassifiedResources => self.set_include_classified_resources(value),
            Flag::IncludeDistributionSources => self.set_include_distribution_sources(value),
            Flag::IncludeDistributionResources => self.set_include_distribution_resources(value),
            Flag::IncludeFileResources => self.set_include_file_resources(value),
            Flag::IncludeNonDistributionSources => self.set_include_non_distribution_sources(value),
            Flag::IncludeTest => self.set_include_test(value),
        }
    }
}

} // verus!
