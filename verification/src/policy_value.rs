//! A policy together with its registered callbacks, as the configuration
//! language sees it: named options to read and write, three methods, and
//! the application of the policy to a resource.

use crate::assoc::with_entry;
use crate::attributes::{find_attribute, parse_attribute, read_attribute, write_attribute, Attribute};
use crate::chain::{chain_reaches, chain_stops, run_callbacks};
use crate::derive::derive_context;
use crate::location::ConcreteResourceLocation;
use crate::policy::{
    invalid_mode_message, parse_mode, with_handling_mode, ExtensionModuleFilter, PolicyView,
    PythonPackagingPolicy, ResourceHandlingMode,
};
use crate::resource::{with_context, Resource};
use crate::value::{AttributeOperation, ErrorView, PolicyError, Value, ValueView};
use vstd::prelude::*;
use vstd::string::StringExecFns;

verus! {

/// A packaging policy and the callbacks that may override its decisions,
/// in the order of their registration. The settings are written while a
/// configuration is evaluated and only read once resources are collected:
/// applying the policy takes it by shared reference, so no setting can
/// change while a resource is being decided.
pub struct PythonPackagingPolicyValue<F> {
    pub inner: PythonPackagingPolicy,
    /// The functions that influence the decision on a resource.
    pub derive_context_callbacks: Vec<F>,
}

impl<F: Fn(&PythonPackagingPolicy, Resource) -> Result<Resource, String>> PythonPackagingPolicyValue<
    F,
> {
    /// The registered callbacks, in the order of their registration.
    pub open spec fn callbacks(&self) -> Seq<F> {
        self.derive_context_callbacks@
    }

    /// Wraps a policy; no callback is registered yet.
    pub fn new(inner: PythonPackagingPolicy) -> (r: Self)
        ensures
            r.inner == inner,
            r.callbacks() == Seq::<F>::empty(),
    {
        Self { inner, derive_context_callbacks: Vec::new() }
    }

    /// The number of registered callbacks.
    pub fn callback_count(&self) -> (r: usize)
        ensures
            r == self.callbacks().len(),
    {
        self.derive_context_callbacks.len()
    }

    /// Applies this policy to a resource: derives the decision on it and
    /// puts it in the resource's slot, in place of what was there, then runs
    /// the registered callbacks in order. Each callback gets the policy and
    /// a working copy of the resource as the one before it left it; of what
    /// it hands back only the decision is committed, so nothing else of the
    /// resource ever changes. Where the derivation fails the resource is
    /// left as it was. Where a callback fails, the callbacks behind it are
    /// skipped and the resource keeps the decision that was committed last.
    pub fn apply_to_resource(&self, resource: &mut Resource) -> (r: Result<(), PolicyError>)
        requires
            forall|i: int, w: Resource|
                0 <= i < self.callbacks().len() ==> #[trigger] call_requires(
                    self.callbacks()[i],
                    (&self.inner, w),
                ),
        ensures
            final(resource)@ == with_context(old(resource)@, final(resource)@.context),
            match derive_context(self.inner@, old(resource)@) {
                Err(conflict) => {
                    &&& final(resource)@ == old(resource)@
                    &&& r matches Err(e)
                    &&& e@ == conflict
                },
                Ok(derived) => match r {
                    Ok(()) => chain_reaches(
                        self.callbacks(),
                        &self.inner,
                        with_context(old(resource)@, Some(derived)),
                        final(resource)@,
                    ),
                    Err(e) => chain_stops(
                        self.callbacks(),
                        &self.inner,
                        with_context(old(resource)@, Some(derived)),
                        final(resource)@,
                        e@,
                    ),
                },
            },
    {
        match self.inner.derive_add_collection_context(resource) {
            Err(e) => Err(e),
            Ok(context) => {
                resource.replace_add_collection_context(context);
                assert forall|i: int, w: Resource|
                    0 <= i < self.derive_context_callbacks@.len() implies #[trigger] call_requires(
                    self.derive_context_callbacks@[i],
                    (&self.inner, w),
                ) by {
                    assert(call_requires(self.callbacks()[i], (&self.inner, w)));
                }
                run_callbacks(&self.derive_context_callbacks, &self.inner, resource)
            },
        }
    }

    /// Reads the option named `attribute`: a boolean option as a truth
    /// value, the filter and the placements as their texts, an unset
    /// fallback as the absent value, and the preferred variants as a
    /// mapping. A name outside the fixed set is refused.
    pub fn get_attr(&self, attribute: &str) -> (r: Result<Value, PolicyError>)
        ensures
            match r {
                Ok(v) => read_attribute(self.inner@, attribute@) == Ok::<ValueView, ErrorView>(v@),
                Err(e) => read_attribute(self.inner@, attribute@) == Err::<ValueView, ErrorView>(
                    e@,
                ),
            },
    {
        match find_attribute(attribute) {
            Some(Attribute::Flag(flag)) => Ok(Value::Bool(self.inner.flag(flag))),
            Some(Attribute::ExtensionModuleFilter) => Ok(
                Value::Str(self.inner.extension_module_filter().to_text()),
            ),
            Some(Attribute::PreferredExtensionModuleVariants) => Ok(
                Value::Dict(self.inner.preferred_extension_module_variants().clone().into_entries()),
            ),
            Some(Attribute::ResourcesLocation) => Ok(
                Value::Str(self.inner.resources_location().to_text()),
            ),
            Some(Attribute::ResourcesLocationFallback) => match self.inner.resources_location_fallback() {
                Some(location) => Ok(Value::Str(location.to_text())),
                None => Ok(Value::Absent),
            },
            None => Err(
                PolicyError::UnknownAttribute {
                    operation: AttributeOperation::Read,
                    attribute: String::from_str(attribute),
                },
            ),
        }
    }

    /// Whether `attribute` names one of the options.
    pub fn has_attr(&self, attribute: &str) -> (r: Result<bool, PolicyError>)
        ensures
            r matches Ok(b) && b == (parse_attribute(attribute@) is Some),
    {
        Ok(find_attribute(attribute).is_some())
    }

    /// Writes `value` to the option named `attribute`. The value is checked
    /// first, its type and, for the filter and the placements, its text; a
    /// value that passes changes that one option, and any other is refused
    /// and changes nothing. The mapping of preferred variants and a name
    /// outside the fixed set cannot be written.
    pub fn set_attr(&mut self, attribute: &str, value: Value) -> (r: Result<(), PolicyError>)
        ensures
            final(self).callbacks() == old(self).callbacks(),
            match r {
                Ok(()) => write_attribute(old(self).inner@, attribute@, value@) == Ok::<
                    PolicyView,
                    ErrorView,
                >(final(self).inner@),
                Err(e) => write_attribute(old(self).inner@, attribute@, value@) == Err::<
                    PolicyView,
                    ErrorView,
                >(e@) && final(self).inner@ == old(self).inner@,
            },
    {
        match find_attribute(attribute) {
            Some(Attribute::Flag(flag)) => match value {
                Value::Bool(b) => {
                    self.inner.set_flag(flag, b);
                    Ok(())
                },
                other => Err(
                    PolicyError::Validation {
                        attribute: String::from_str(attribute),
                        value: other,
                        message: String::from_str("expected a value of type bool"),
                    },
                ),
            },
            Some(Attribute::ExtensionModuleFilter) => match value {
                Value::Str(text) => match ExtensionModuleFilter::parse(text.as_str()) {
                    Ok(filter) => {
                        self.inner.set_extension_module_filter(filter);
                        Ok(())
                    },
                    Err(message) => Err(
                        PolicyError::Validation {
                            attribute: String::from_str(attribute),
                            value: Value::Str(text),
                            message: message,
                        },
                    ),
                },
                other => Err(
                    PolicyError::Validation {
                        attribute: String::from_str(attribute),
                        value: other,
                        message: String::from_str("expected a value of type string"),
                    },
                ),
            },
            Some(Attribute::ResourcesLocation) => match value {
                Value::Str(text) => match ConcreteResourceLocation::parse(text.as_str()) {
                    Ok(location) => {
                        self.inner.set_resources_location(location);
                        Ok(())
                    },
                    Err(message) => Err(
                        PolicyError::Validation {
                            attribute: String::from_str(attribute),
                            value: Value::Str(text),
                            message: message,
                        },
                    ),
                },
                other => Err(
                    PolicyError::Validation {
                        attribute: String::from_str(attribute),
                        value: other,
                        message: String::from_str("expected a value of type string"),
                    },
                ),
            },
            Some(Attribute::ResourcesLocationFallback) => match value {
                Value::Absent => {
                    self.inner.set_resources_location_fallback(None);
                    Ok(())
                },
                Value::Str(text) => match ConcreteResourceLocation::parse(text.as_str()) {
                    Ok(location) => {
                        self.inner.set_resources_location_fallback(Some(location));
                        Ok(())
                    },
                    Err(message) => Err(
                        PolicyError::Validation {
                            attribute: String::from_str(attribute),
                            value: Value::Str(text),
                            message: message,
                        },
                    ),
                },
                other => Err(
                    PolicyError::Validation {
                        attribute: String::from_str(attribute),
                        value: other,
                        message: String::from_str("expected a value of type string"),
                    },
                ),
            },
            _ => Err(
                PolicyError::UnknownAttribute {
                    operation: AttributeOperation::Write,
                    attribute: String::from_str(attribute),
                },
            ),
        }
    }

    /// Registers a callback behind those that are registered already. The
    /// callback is not run, and the policy is left as it is.
    pub fn starlark_register_resource_callback(&mut self, func: F)
        ensures
            final(self).callbacks() == old(self).callbacks().push(func),
            final(self).inner == old(self).inner,
    {
        self.derive_context_callbacks.push(func);
    }

    /// Maps the extension module `name` to the variant `value`, in place of
    /// an earlier preference for that module, and changes nothing else.
    pub fn starlark_set_preferred_extension_module_variant(&mut self, name: String, value: String)
        ensures
            final(self).callbacks() == old(self).callbacks(),
            final(self).inner@ == (PolicyView {
                preferred_extension_module_variants: with_entry(
                    old(self).inner@.preferred_extension_module_variants,
                    name@,
                    value@,
                ),
                ..old(self).inner@
            }),
    {
        self.inner.set_preferred_extension_module_variant(name.as_str(), value.as_str());
    }

    /// Chooses how discovered files are handled, by the name of the mode:
    /// `classify` or `files`. Any other text is refused and changes nothing.
    pub fn starlark_set_resource_handling_mode(&mut self, value: String) -> (r: Result<
        (),
        PolicyError,
    >)
        ensures
            final(self).callbacks() == old(self).callbacks(),
            match r {
                Ok(()) => parse_mode(value@) matches Some(mode) && final(self).inner@
                    == with_handling_mode(old(self).inner@, mode),
                Err(e) => parse_mode(value@) is None && final(self).inner@ == old(self).inner@
                    && e@ == (ErrorView::Validation {
                    attribute: "set_resource_handling_mode()"@,
                    value: ValueView::Str(value@),
                    message: invalid_mode_message(value@),
                }),
            },
    {
        match ResourceHandlingMode::parse(value.as_str()) {
            Ok(mode) => {
                self.inner.set_resource_handling_mode(mode);
                Ok(())
            },
            Err(message) => Err(
                PolicyError::Validation {
                    attribute: String::from_str("set_resource_handling_mode()"),
                    value: Value::Str(value),
                    message: message,
                },
            ),
        }
    }
}

} // verus!
