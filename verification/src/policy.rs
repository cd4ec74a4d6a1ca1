//! The configuration record that parameterizes every packaging decision.

use crate::assoc::{with_entry, Entries, NameMap};
use crate::location::{ConcreteResourceLocation, LocationView};
use crate::text::{join, same_text};
use vstd::prelude::*;
use vstd::string::StringExecFns;

verus! {

/// Which build variants of an extension module are eligible.
#[derive(Clone, Copy, Debug, PartialEq, Eq, Structural)]
pub enum ExtensionModuleFilter {
    /// Only variants that are needed to start an interpreter.
    Minimal,
    /// Every variant.
    All,
    /// Only variants that link no library.
    NoLibrary,
    /// Only variants that are free of copyleft obligations.
    NoCopyleft,
}

/// The filter that a text names, if it names one.
pub open spec fn parse_filter(s: Seq<char>) -> Option<ExtensionModuleFilter> {
    if s == "minimal"@ {
        Some(ExtensionModuleFilter::Minimal)
    } else if s == "all"@ {
        Some(ExtensionModuleFilter::All)
    } else if s == "no-library"@ {
        Some(ExtensionModuleFilter::NoLibrary)
    } else if s == "no-copyleft"@ {
        Some(ExtensionModuleFilter::NoCopyleft)
    } else {
        None
    }
}

/// The text that names a filter.
pub open spec fn format_filter(f: ExtensionModuleFilter) -> Seq<char> {
    match f {
        ExtensionModuleFilter::Minimal => "minimal"@,
        ExtensionModuleFilter::All => "all"@,
        ExtensionModuleFilter::NoLibrary => "no-library"@,
        ExtensionModuleFilter::NoCopyleft => "no-copyleft"@,
    }
}

/// What a rejected filter text is answered with.
pub open spec fn invalid_filter_message(s: Seq<char>) -> Seq<char> {
    s + " is not a valid extension module filter"@
}

/// Formatting a filter and parsing the text gives the filter back.
pub proof fn lemma_parse_format_filter(f: ExtensionModuleFilter)
    ensures
        parse_filter(format_filter(f)) == Some(f),
{
    reveal_strlit("minimal");
    reveal_strlit("all");
    reveal_strlit("no-library");
    reveal_strlit("no-copyleft");
    assert("minimal"@.len() == 7);
    assert("all"@.len() == 3);
    assert("no-library"@.len() == 10);
    assert("no-copyleft"@.len() == 11);
}

/// A text that names a filter is the text that the filter is formatted to.
pub proof fn lemma_format_parse_filter(s: Seq<char>)
    requires
        parse_filter(s) is Some,
    ensures
        format_filter(parse_filter(s)->0) == s,
{
}

impl ExtensionModuleFilter {
    /// Reads a filter from one of `minimal`, `all`, `no-library` and
    /// `no-copyleft`. Any other text is refused with a message that names it.
    pub fn parse(value: &str) -> (r: Result<ExtensionModuleFilter, String>)
        ensures
            match r {
                Ok(f) => parse_filter(value@) == Some(f),
                Err(m) => parse_filter(value@) is None && m@ == invalid_filter_message(value@),
            },
    {
        if same_text(value, "minimal") {
            Ok(ExtensionModuleFilter::Minimal)
        } else if same_text(value, "all") {
            Ok(ExtensionModuleFilter::All)
        } else if same_text(value, "no-library") {
            Ok(ExtensionModuleFilter::NoLibrary)
        } else if same_text(value, "no-copyleft") {
            Ok(ExtensionModuleFilter::NoCopyleft)
        } else {
            Err(join(value, " is not a valid extension module filter"))
        }
    }

    /// The text that names this filter.
    pub fn to_text(&self) -> (r: String)
        ensures
            r@ == format_filter(*self),
    {
        match self {
            ExtensionModuleFilter::Minimal => String::from_str("minimal"),
            ExtensionModuleFilter::All => String::from_str("all"),
            ExtensionModuleFilter::NoLibrary => String::from_str("no-library"),
            ExtensionModuleFilter::NoCopyleft => String::from_str("no-copyleft"),
        }
    }
}

/// How discovered files are handled.
#[derive(Clone, Copy, Debug, PartialEq, Eq, Structural)]
pub enum ResourceHandlingMode {
    /// Files are classified as typed resources.
    Classify,
    /// Files are handled as raw files.
    Files,
}

/// The mode that a text names, if it names one.
pub open spec fn parse_mode(s: Seq<char>) -> Option<ResourceHandlingMode> {
    if s == "classify"@ {
        Some(ResourceHandlingMode::Classify)
    } else if s == "files"@ {
        Some(ResourceHandlingMode::Files)
    } else {
        None
    }
}

/// The text that names a mode.
pub open spec fn format_mode(m: ResourceHandlingMode) -> Seq<char> {
    match m {
        ResourceHandlingMode::Classify => "classify"@,
        ResourceHandlingMode::Files => "files"@,
    }
}

/// What a rejected mode text is answered with.
pub open spec fn invalid_mode_message(s: Seq<char>) -> Seq<char> {
    s + " is not a valid resource handling mode; use \"classify\" or \"files\""@
}

/// Formatting a mode and parsing the text gives the mode back.
pub proof fn lemma_parse_format_mode(m: ResourceHandlingMode)
    ensures
        parse_mode(format_mode(m)) == Some(m),
{
    reveal_strlit("classify");
    reveal_strlit("files");
    assert("classify"@.len() == 8);
    assert("files"@.len() == 5);
}

impl ResourceHandlingMode {
    /// Reads a mode from `classify` or `files`. Any other text is refused
    /// with a message that names it.
    pub fn parse(value: &str) -> (r: Result<ResourceHandlingMode, String>)
        ensures
            match r {
                Ok(m) => parse_mode(value@) == Some(m),
                Err(m) => parse_mode(value@) is None && m@ == invalid_mode_message(value@),
            },
    {
        if same_text(value, "classify") {
            Ok(ResourceHandlingMode::Classify)
        } else if same_text(value, "files") {
            Ok(ResourceHandlingMode::Files)
        } else {
            Err(join(value, " is not a valid resource handling mode; use \"classify\" or \"files\""))
        }
    }

    /// The text that names this mode.
    pub fn to_text(&self) -> (r: String)
        ensures
            r@ == format_mode(*self),
    {
        match self {
            ResourceHandlingMode::Classify => String::from_str("classify"),
            ResourceHandlingMode::Files => String::from_str("files"),
        }
    }
}

/// The mathematical value of a [`PythonPackagingPolicy`]: every setting by
/// itself, none implied by another.
pub struct PolicyView {
    pub extension_module_filter: ExtensionModuleFilter,
    pub preferred_extension_module_variants: Entries,
    pub resources_location: LocationView,
    pub resources_location_fallback: Option<LocationView>,
    pub allow_files: bool,
    pub allow_in_memory_shared_library_loading: bool,
    pub bytecode_optimize_level_zero: bool,
    pub bytecode_optimize_level_one: bool,
    pub bytecode_optimize_level_two: bool,
    pub file_scanner_classify_files: bool,
    pub file_scanner_emit_files: bool,
    pub include_classified_resources: bool,
    pub include_distribution_sources: bool,
    pub include_distribution_resources: bool,
    pub include_file_resources: bool,
    pub include_non_distribution_sources: bool,
    pub include_test: bool,
}

/// The settings of a freshly made policy.
pub open spec fn default_policy() -> PolicyView {
    PolicyView {
        extension_module_filter: ExtensionModuleFilter::All,
        preferred_extension_module_variants: Seq::empty(),
        resources_location: LocationView::InMemory,
        resources_location_fallback: None,
        allow_files: false,
        allow_in_memory_shared_library_loading: false,
        bytecode_optimize_level_zero: true,
        bytecode_optimize_level_one: false,
        bytecode_optimize_level_two: false,
        file_scanner_classify_files: true,
        file_scanner_emit_files: false,
        include_classified_resources: true,
        include_distribution_sources: true,
        include_distribution_resources: false,
        include_file_resources: false,
        include_non_distribution_sources: true,
        include_test: false,
    }
}

/// The settings after a handling mode has been chosen: the mode fixes the
/// five settings on files and classified resources and no other.
pub open spec fn with_handling_mode(p: PolicyView, mode: ResourceHandlingMode) -> PolicyView {
    match mode {
        ResourceHandlingMode::Classify => PolicyView {
            file_scanner_emit_files: false,
            file_scanner_classify_files: true,
            allow_files: false,
            include_file_resources: false,
            include_classified_resources: true,
            ..p
        },
        ResourceHandlingMode::Files => PolicyView {
            file_scanner_emit_files: true,
            file_scanner_classify_files: false,
            allow_files: true,
            include_file_resources: true,
            include_classified_resources: true,
            ..p
        },
    }
}

/// The view of an optional placement.
pub open spec fn fallback_view(l: Option<ConcreteResourceLocation>) -> Option<LocationView> {
    match l {
        Some(l) => Some(l@),
        None => None,
    }
}

/// How resources are packaged: toggles, closed enumerations and the mapping
/// from extension module names to preferred variants.
#[derive(Debug, PartialEq, Eq)]
pub struct PythonPackagingPolicy {
    extension_module_filter: ExtensionModuleFilter,
    preferred_extension_module_variants: NameMap,
    resources_location: ConcreteResourceLocation,
    resources_location_fallback: Option<ConcreteResourceLocation>,
    allow_files: bool,
    allow_in_memory_shared_library_loading: bool,
    bytecode_optimize_level_zero: bool,
    bytecode_optimize_level_one: bool,
    bytecode_optimize_level_two: bool,
    file_scanner_classify_files: bool,
    file_scanner_emit_files: bool,
    include_classified_resources: bool,
    include_distribution_sources: bool,
    include_distribution_resources: bool,
    include_file_resources: bool,
    include_non_distribution_sources: bool,
    include_test: bool,
}

impl View for PythonPackagingPolicy {
    type V = PolicyView;

    closed spec fn view(&self) -> PolicyView {
        PolicyView {
            extension_module_filter: self.extension_module_filter,
            preferred_extension_module_variants: self.preferred_extension_module_variants@,
            resources_location: self.resources_location@,
            resources_location_fallback: fallback_view(self.resources_location_fallback),
            allow_files: self.allow_files,
            allow_in_memory_shared_library_loading: self.allow_in_memory_shared_library_loading,
            bytecode_optimize_level_zero: self.bytecode_optimize_level_zero,
            bytecode_optimize_level_one: self.bytecode_optimize_level_one,
            bytecode_optimize_level_two: self.bytecode_optimize_level_two,
            file_scanner_classify_files: self.file_scanner_classify_files,
            file_scanner_emit_files: self.file_scanner_emit_files,
            include_classified_resources: self.include_classified_resources,
            include_distribution_sources: self.include_distribution_sources,
            include_distribution_resources: self.include_distribution_resources,
            include_file_resources: self.include_file_resources,
            include_non_distribution_sources: self.include_non_distribution_sources,
            include_test: self.include_test,
        }
    }
}

impl PythonPackagingPolicy {
    /// A policy with the default settings.
    pub fn new() -> (r: PythonPackagingPolicy)
        ensures
            r@ == default_policy(),
    {
        PythonPackagingPolicy {
            extension_module_filter: ExtensionModuleFilter::All,
            preferred_extension_module_variants: NameMap::new(),
            resources_location: ConcreteResourceLocation::InMemory,
            resources_location_fallback: None,
            allow_files: false,
            allow_in_memory_shared_library_loading: false,
            bytecode_optimize_level_zero: true,
            bytecode_optimize_level_one: false,
            bytecode_optimize_level_two: false,
            file_scanner_classify_files: true,
            file_scanner_emit_files: false,
            include_classified_resources: true,
            include_distribution_sources: true,
            include_distribution_resources: false,
            include_file_resources: false,
            include_non_distribution_sources: true,
            include_test: false,
        }
    }

    /// The filter on extension module variants.
    pub fn extension_module_filter(&self) -> (r: ExtensionModuleFilter)
        ensures
            r == self@.extension_module_filter,
    {
        self.extension_module_filter
    }

    /// Sets the filter on extension module variants and nothing else.
    pub fn set_extension_module_filter(&mut self, filter: ExtensionModuleFilter)
        ensures
            final(self)@ == (PolicyView { extension_module_filter: filter, ..old(self)@ }),
    {
        self.extension_module_filter = filter;
    }

    /// The preferred variant of each extension module that has one.
    pub fn preferred_extension_module_variants(&self) -> (r: &NameMap)
        ensures
            r@ == self@.preferred_extension_module_variants,
    {
        &self.preferred_extension_module_variants
    }

    /// Maps the extension module `extension` to the variant `variant`,
    /// replacing an earlier preference for that module, and changes nothing
    /// else.
    pub fn set_preferred_extension_module_variant(&mut self, extension: &str, variant: &str)
        ensures
            final(self)@ == (PolicyView {
                preferred_extension_module_variants: with_entry(
                    old(self)@.preferred_extension_module_variants,
                    extension@,
                    variant@,
                ),
                ..old(self)@
            }),
    {
        self.preferred_extension_module_variants.set(extension, variant);
    }

    /// The primary placement of resources.
    pub fn resources_location(&self) -> (r: &ConcreteResourceLocation)
        ensures
            r@ == self@.resources_location,
    {
        &self.resources_location
    }

    /// Sets the primary placement of resources and nothing else.
    pub fn set_resources_location(&mut self, location: ConcreteResourceLocation)
        ensures
            final(self)@ == (PolicyView { resources_location: location@, ..old(self)@ }),
    {
        self.resources_location = location;
    }

    /// The placement to fall back to, if one is set.
    pub fn resources_location_fallback(&self) -> (r: &Option<ConcreteResourceLocation>)
        ensures
            fallback_view(*r) == self@.resources_location_fallback,
    {
        &self.resources_location_fallback
    }

    /// Sets or clears the fallback placement and changes nothing else.
    pub fn set_resources_location_fallback(&mut self, location: Option<ConcreteResourceLocation>)
        ensures
            final(self)@ == (PolicyView {
                resources_location_fallback: fallback_view(location),
                ..old(self)@
            }),
    {
        self.resources_location_fallback = location;
    }

    /// Tells whether raw file resources may be included at all.
    pub fn allow_files(&self) -> (r: bool)
        ensures
            r == self@.allow_files,
    {
        self.allow_files
    }

    /// Sets whether raw file resources may be included at all, and nothing else.
    pub fn set_allow_files(&mut self, value: bool)
        ensures
            final(self)@ == (PolicyView { allow_files: value, ..old(self)@ }),
    {
        self.allow_files = value;
    }

    /// Tells whether extension modules and shared libraries may be loaded from memory.
    pub fn allow_in_memory_shared_library_loading(&self) -> (r: bool)
        ensures
            r == self@.allow_in_memory_shared_library_loading,
    {
        self.allow_in_memory_shared_library_loading
    }

    /// Sets whether extension modules and shared libraries may be loaded from memory, and nothing else.
    pub fn set_allow_in_memory_shared_library_loading(&mut self, value: bool)
        ensures
            final(self)@ == (PolicyView { allow_in_memory_shared_library_loading: value, ..old(self)@ }),
    {
        self.allow_in_memory_shared_library_loading = value;
    }

    /// Tells whether bytecode is requested at optimization level 0.
    pub fn bytecode_optimize_level_zero(&self) -> (r: bool)
        ensures
            r == self@.bytecode_optimize_level_zero,
    {
        self.bytecode_optimize_level_zero
    }

    /// Sets whether bytecode is requested at optimization level 0, and nothing else.
    pub fn set_bytecode_optimize_level_zero(&mut self, value: bool)
        ensures
            final(self)@ == (PolicyView { bytecode_optimize_level_zero: value, ..old(self)@ }),
    {
        self.bytecode_optimize_level_zero = value;
    }

    /// Tells whether bytecode is requested at optimization level 1.
    pub fn bytecode_optimize_level_one(&self) -> (r: bool)
        ensures
            r == self@.bytecode_optimize_level_one,
    {
        self.bytecode_optimize_level_one
    }

    /// Sets whether bytecode is requested at optimization level 1, and nothing else.
    pub fn set_bytecode_optimize_level_one(&mut self, value: bool)
        ensures
            final(self)@ == (PolicyView { bytecode_optimize_level_one: value, ..old(self)@ }),
    {
        self.bytecode_optimize_level_one = value;
    }

    /// Tells whether bytecode is requested at optimization level 2.
    pub fn bytecode_optimize_level_two(&self) -> (r: bool)
        ensures
            r == self@.bytecode_optimize_level_two,
    {
        self.bytecode_optimize_level_two
    }

    /// Sets whether bytecode is requested at optimization level 2, and nothing else.
    pub fn set_bytecode_optimize_level_two(&mut self, value: bool)
        ensures
            final(self)@ == (PolicyView { bytecode_optimize_level_two: value, ..old(self)@ }),
    {
        self.bytecode_optimize_level_two = value;
    }

    /// Tells whether file scanning classifies files into typed resources.
    pub fn file_scanner_classify_files(&self) -> (r: bool)
        ensures
            r == self@.file_scanner_classify_files,
    {
        self.file_scanner_classify_files
    }

    /// Sets whether file scanning classifies files into typed resources, and nothing else.
    pub fn set_file_scanner_classify_files(&mut self, value: bool)
        ensures
            final(self)@ == (PolicyView { file_scanner_classify_files: value, ..old(self)@ }),
    {
        self.file_scanner_classify_files = value;
    }

    /// Tells whether file scanning emits raw file resources.
    pub fn file_scanner_emit_files(&self) -> (r: bool)
        ensures
            r == self@.file_scanner_emit_files,
    {
        self.file_scanner_emit_files
    }

    /// Sets whether file scanning emits raw file resources, and nothing else.
    pub fn set_file_scanner_emit_files(&mut self, value: bool)
        ensures
            final(self)@ == (PolicyView { file_scanner_emit_files: value, ..old(self)@ }),
    {
        self.file_scanner_emit_files = value;
    }

    /// Tells whether classified resources are included.
    pub fn include_classified_resources(&self) -> (r: bool)
        ensures
            r == self@.include_classified_resources,
    {
        self.include_classified_resources
    }

    /// Sets whether classified resources are included, and nothing else.
    pub fn set_include_classified_resources(&mut self, value: bool)
        ensures
            final(self)@ == (PolicyView { include_classified_resources: value, ..old(self)@ }),
    {
        self.include_classified_resources = value;
    }

    /// Tells whether module sources of the distribution are included.
    pub fn include_distribution_sources(&self) -> (r: bool)
        ensures
            r == self@.include_distribution_sources,
    {
        self.include_distribution_sources
    }

    /// Sets whether module sources of the distribution are included, and nothing else.
    pub fn set_include_distribution_sources(&mut self, value: bool)
        ensures
            final(self)@ == (PolicyView { include_distribution_sources: value, ..old(self)@ }),
    {
        self.include_distribution_sources = value;
    }

    /// Tells whether data resources of the distribution are included.
    pub fn include_distribution_resources(&self) -> (r: bool)
        ensures
            r == self@.include_distribution_resources,
    {
        self.include_distribution_resources
    }

    /// Sets whether data resources of the distribution are included, and nothing else.
    pub fn set_include_distribution_resources(&mut self, value: bool)
        ensures
            final(self)@ == (PolicyView { include_distribution_resources: value, ..old(self)@ }),
    {
        self.include_distribution_resources = value;
    }

    /// Tells whether raw file resources are included.
    pub fn include_file_resources(&self) -> (r: bool)
        ensures
            r == self@.include_file_resources,
    {
        self.include_file_resources
    }

    /// Sets whether raw file resources are included, and nothing else.
    pub fn set_include_file_resources(&mut self, value: bool)
        ensures
            final(self)@ == (PolicyView { include_file_resources: value, ..old(self)@ }),
    {
        self.include_file_resources = value;
    }

    /// Tells whether resources from outside the distribution are included.
    pub fn include_non_distribution_sources(&self) -> (r: bool)
        ensures
            r == self@.include_non_distribution_sources,
    {
        self.include_non_distribution_sources
    }

    /// Sets whether resources from outside the distribution are included, and nothing else.
    pub fn set_include_non_distribution_sources(&mut self, value: bool)
        ensures
            final(self)@ == (PolicyView { include_non_distribution_sources: value, ..old(self)@ }),
    {
        self.include_non_distribution_sources = value;
    }

    /// Tells whether test resources are included.
    pub fn include_test(&self) -> (r: bool)
        ensures
            r == self@.include_test,
    {
        self.include_test
    }

    /// Sets whether test resources are included, and nothing else.
    pub fn set_include_test(&mut self, value: bool)
        ensures
            final(self)@ == (PolicyView { include_test: value, ..old(self)@ }),
    {
        self.include_test = value;
    }

    /// Chooses how discovered files are handled: the mode fixes the five
    /// settings on files and classified resources and leaves the others.
    pub fn set_resource_handling_mode(&mut self, mode: ResourceHandlingMode)
        ensures
            final(self)@ == with_handling_mode(old(self)@, mode),
    {
        match mode {
            ResourceHandlingMode::Classify => {
                self.file_scanner_emit_files = false;
                self.file_scanner_classify_files = true;
                self.allow_files = false;
                self.include_file_resources = false;
                self.include_classified_resources = true;
            },
            ResourceHandlingMode::Files => {
                self.file_scanner_emit_files = true;
                self.file_scanner_classify_files = false;
                self.allow_files = true;
                self.include_file_resources = true;
                self.include_classified_resources = true;
            },
        }
    }
}

impl Clone for PythonPackagingPolicy {
    fn clone(&self) -> (r: PythonPackagingPolicy)
        ensures
            r@ == self@,
    {
        PythonPackagingPolicy {
            extension_module_filter: self.extension_module_filter,
            preferred_extension_module_variants: self.preferred_extension_module_variants.clone(),
            resources_location: self.resources_location.clone(),
            resources_location_fallback: match &self.resources_location_fallback {
                Some(l) => Some(l.clone()),
                None => None,
            },
            allow_files: self.allow_files,
            allow_in_memory_shared_library_loading: self.allow_in_memory_shared_library_loading,
            bytecode_optimize_level_zero: self.bytecode_optimize_level_zero,
            bytecode_optimize_level_one: self.bytecode_optimize_level_one,
            bytecode_optimize_level_two: self.bytecode_optimize_level_two,
            file_scanner_classify_files: self.file_scanner_classify_files,
            file_scanner_emit_files: self.file_scanner_emit_files,
            include_classified_resources: self.include_classified_resources,
            include_distribution_sources: self.include_distribution_sources,
            include_distribution_resources: self.include_distribution_resources,
            include_file_resources: self.include_file_resources,
            include_non_distribution_sources: self.include_non_distribution_sources,
            include_test: self.include_test,
        }
    }
}

impl Default for PythonPackagingPolicy {
    fn default() -> (r: PythonPackagingPolicy)
        ensures
            r@ == default_policy(),
    {
        PythonPackagingPolicy::new()
    }
}

} // verus!
