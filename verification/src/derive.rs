//! The decision function: from a policy and a resource to the decision
//! record of that resource.

use crate::assoc::lookup;
use crate::location::{ConcreteResourceLocation, LocationView};
use crate::policy::{fallback_view, ExtensionModuleFilter, PolicyView, PythonPackagingPolicy};
use crate::resource::{
    requested_levels, variants_view, with_context, CollectionContext, ContextView, Origin, Resource,
    ResourceKind, ResourceView, Variant, VariantView,
};
use crate::text::{optional_text, same_text};
use crate::value::{ErrorView, PolicyError};
use vstd::prelude::*;

verus! {

/// Module sources and module bytecode: the resources for which source text
/// and bytecode are chosen.
pub open spec fn is_module(kind: ResourceKind) -> bool {
    kind is ModuleSource || kind is ModuleBytecode
}

/// Extension modules and shared libraries: the resources that the platform
/// has to load as native code.
pub open spec fn is_native(kind: ResourceKind) -> bool {
    kind is ExtensionModule || kind is SharedLibrary
}

/// The toggle that gates the origin of a resource.
pub open spec fn origin_permitted(p: PolicyView, origin: Origin) -> bool {
    match origin {
        Origin::DistributionSource => p.include_distribution_sources,
        Origin::DistributionResource => p.include_distribution_resources,
        Origin::NonDistribution => p.include_non_distribution_sources,
    }
}

/// The inclusion gate. A raw file passes where files are allowed and file
/// resources are included; any other resource passes where classified
/// resources are included and the toggle of its origin is on. A test
/// resource passes only where tests are included as well.
pub open spec fn is_included(p: PolicyView, r: ResourceView) -> bool {
    &&& if r.kind is File {
        p.allow_files && p.include_file_resources
    } else {
        p.include_classified_resources && origin_permitted(p, r.provenance.origin)
    }
    &&& r.provenance.test ==> p.include_test
}

/// Whether the resource can be placed at `l`: native code can be placed in
/// memory only where the policy allows loading it from there and the
/// platform can.
pub open spec fn placement_supported(p: PolicyView, r: ResourceView, l: LocationView) -> bool {
    l is InMemory && is_native(r.kind) ==> p.allow_in_memory_shared_library_loading
        && r.supports_in_memory_loading
}

/// The placement at which the resource ends up: the policy's placement
/// where it can be had, the policy's fallback where only that can be had, and
/// none where neither can.
pub open spec fn placed_at(p: PolicyView, r: ResourceView) -> Option<LocationView> {
    if placement_supported(p, r, p.resources_location) {
        Some(p.resources_location)
    } else {
        match p.resources_location_fallback {
            Some(f) => if placement_supported(p, r, f) {
                Some(f)
            } else {
                None
            },
            None => None,
        }
    }
}

/// Whether the filter lets a build through.
pub open spec fn is_eligible(filter: ExtensionModuleFilter, v: VariantView) -> bool {
    match filter {
        ExtensionModuleFilter::All => true,
        ExtensionModuleFilter::Minimal => v.minimally_required,
        ExtensionModuleFilter::NoLibrary => !v.requires_libraries,
        ExtensionModuleFilter::NoCopyleft => !v.copyleft,
    }
}

/// Whether a build of that name is on offer and passes the filter.
pub open spec fn offers(filter: ExtensionModuleFilter, variants: Seq<VariantView>, name: Seq<char>) -> bool {
    exists|i: int|
        0 <= i < variants.len() && (#[trigger] variants[i]).name == name && is_eligible(
            filter,
            variants[i],
        )
}

/// The build that is selected for the resource: for an extension module the
/// preferred build of that module, where one is set, on offer and eligible,
/// and the declared default otherwise; for any other resource none.
pub open spec fn selected_variant(p: PolicyView, r: ResourceView) -> Option<Seq<char>> {
    if r.kind is ExtensionModule {
        match lookup(p.preferred_extension_module_variants, r.name) {
            Some(preferred) => if offers(p.extension_module_filter, r.variants, preferred) {
                Some(preferred)
            } else {
                Some(r.default_variant)
            },
            None => Some(r.default_variant),
        }
    } else {
        None
    }
}

/// The decision on a resource under a policy, or the conflict that stops it.
/// A decision carries the policy's placement as its primary placement and
/// the policy's fallback as its fallback, and there is one exactly where the
/// resource can be placed at one of the two. The decision that the resource
/// already carries plays no part.
pub open spec fn derive_context(p: PolicyView, r: ResourceView) -> Result<ContextView, ErrorView> {
    if placed_at(p, r) is Some {
        Ok(
            ContextView {
                included: is_included(p, r),
                location: p.resources_location,
                location_fallback: p.resources_location_fallback,
                store_source: is_module(r.kind) && p.allow_files,
                optimize_level_zero: is_module(r.kind) && p.bytecode_optimize_level_zero,
                optimize_level_one: is_module(r.kind) && p.bytecode_optimize_level_one,
                optimize_level_two: is_module(r.kind) && p.bytecode_optimize_level_two,
                variant: selected_variant(p, r),
            },
        )
    } else {
        Err(ErrorView::ConfigurationConflict { resource: r.name })
    }
}

/// Where a decision is derived, the resource ends up at one of the two
/// placements that the decision carries: at the primary one where that can
/// be had, and at the fallback only where the primary one cannot.
pub proof fn lemma_fallback_places_only_when_needed(p: PolicyView, r: ResourceView)
    requires
        derive_context(p, r) is Ok,
    ensures
        derive_context(p, r)->Ok_0.location == p.resources_location,
        derive_context(p, r)->Ok_0.location_fallback == p.resources_location_fallback,
        placement_supported(p, r, p.resources_location) ==> placed_at(p, r) == Some(
            derive_context(p, r)->Ok_0.location,
        ),
        !placement_supported(p, r, p.resources_location) ==> placed_at(p, r) == derive_context(
            p,
            r,
        )->Ok_0.location_fallback && placed_at(p, r) is Some,
{
}

/// The view of the outcome of a derivation.
pub open spec fn outcome_view(o: Result<CollectionContext, PolicyError>) -> Result<
    ContextView,
    ErrorView,
> {
    match o {
        Ok(c) => Ok(c@),
        Err(e) => Err(e@),
    }
}

/// Two derivations from the same policy and the same resource agree.
pub proof fn lemma_derive_deterministic(
    p: PolicyView,
    r: ResourceView,
    first: Result<ContextView, ErrorView>,
    second: Result<ContextView, ErrorView>,
)
    requires
        first == derive_context(p, r),
        second == derive_context(p, r),
    ensures
        first == second,
{
}

/// A derivation replaces the decision of a resource and never patches it:
/// whatever the resource carries in its slot, the outcome is the same.
pub proof fn lemma_derive_ignores_context(p: PolicyView, r: ResourceView, c: Option<ContextView>)
    ensures
        derive_context(p, with_context(r, c)) == derive_context(p, r),
{
    let q = with_context(r, c);
    assert(placed_at(p, q) == placed_at(p, r));
    assert(selected_variant(p, q) == selected_variant(p, r));
}

/// The optimization levels are independent: each is requested exactly when
/// the resource is a module and the level's own toggle is on.
pub proof fn lemma_levels_independent(p: PolicyView, r: ResourceView)
    requires
        derive_context(p, r) is Ok,
    ensures
        requested_levels(derive_context(p, r)->Ok_0).contains(0) == (is_module(r.kind)
            && p.bytecode_optimize_level_zero),
        requested_levels(derive_context(p, r)->Ok_0).contains(1) == (is_module(r.kind)
            && p.bytecode_optimize_level_one),
        requested_levels(derive_context(p, r)->Ok_0).contains(2) == (is_module(r.kind)
            && p.bytecode_optimize_level_two),
        forall|level: int|
            requested_levels(derive_context(p, r)->Ok_0).contains(level) ==> 0 <= level <= 2,
{
}

/// Whether a build named `name` is on offer and passes the filter.
fn offers_variant(filter: ExtensionModuleFilter, variants: &Vec<Variant>, name: &str) -> (r: bool)
    ensures
        r == offers(filter, variants_view(variants@), name@),
{
    let mut i: usize = 0;
    while i < variants.len()
        invariant
            i <= variants.len(),
            forall|j: int|
                0 <= j < i ==> !((#[trigger] variants_view(variants@)[j]).name == name@
                    && is_eligible(filter, variants_view(variants@)[j])),
        decreases variants.len() - i,
    {
        let v = &variants[i];
        assert(variants_view(variants@)[i as int] == v@);
        let eligible = match filter {
            ExtensionModuleFilter::All => true,
            ExtensionModuleFilter::Minimal => v.minimally_required,
            ExtensionModuleFilter::NoLibrary => !v.requires_libraries,
            ExtensionModuleFilter::NoCopyleft => !v.copyleft,
        };
        if eligible && same_text(v.name.as_str(), name) {
            return true;
        }
        i += 1;
    }
    false
}

impl PythonPackagingPolicy {
    /// Whether the resource can be placed at `location` under this policy.
    fn supports_placement(&self, resource: &Resource, location: &ConcreteResourceLocation) -> (r:
        bool)
        ensures
            r == placement_supported(self@, resource@, location@),
    {
        let native = match resource.kind {
            ResourceKind::ExtensionModule => true,
            ResourceKind::SharedLibrary => true,
            _ => false,
        };
        if location.is_in_memory() && native {
            self.allow_in_memory_shared_library_loading() && resource.supports_in_memory_loading
        } else {
            true
        }
    }

    /// Whether the resource passes the inclusion gate of this policy.
    pub fn filter_resource(&self, resource: &Resource) -> (r: bool)
        ensures
            r == is_included(self@, resource@),
    {
        let gate = match resource.kind {
            ResourceKind::File => self.allow_files() && self.include_file_resources(),
            _ => self.include_classified_resources() && match resource.provenance.origin {
                Origin::DistributionSource => self.include_distribution_sources(),
                Origin::DistributionResource => self.include_distribution_resources(),
                Origin::NonDistribution => self.include_non_distribution_sources(),
            },
        };
        gate && (!resource.provenance.test || self.include_test())
    }

    /// The build that is selected for the resource under this policy.
    pub fn select_variant(&self, resource: &Resource) -> (r: Option<String>)
        ensures
            optional_text(r) == selected_variant(self@, resource@),
    {
        match resource.kind {
            ResourceKind::ExtensionModule => {
                match self.preferred_extension_module_variants().get(resource.name.as_str()) {
                    Some(preferred) => {
                        if offers_variant(
                            self.extension_module_filter(),
                            &resource.variants,
                            preferred.as_str(),
                        ) {
                            Some(preferred.clone())
                        } else {
                            Some(resource.default_variant.clone())
                        }
                    },
                    None => Some(resource.default_variant.clone()),
                }
            },
            _ => None,
        }
    }

    /// The placement at which the resource ends up under this policy: the
    /// primary placement where it can be had, the fallback where only that
    /// can be had, and none where neither can.
    pub fn placement_of(&self, resource: &Resource) -> (r: Option<ConcreteResourceLocation>)
        ensures
            fallback_view(r) == placed_at(self@, resource@),
    {
        let primary = self.resources_location();
        if self.supports_placement(resource, primary) {
            Some(primary.clone())
        } else {
            match self.resources_location_fallback() {
                Some(f) => {
                    if self.supports_placement(resource, f) {
                        Some(f.clone())
                    } else {
                        None
                    }
                },
                None => None,
            }
        }
    }

    /// Derives the decision on `resource` from this policy: whether it is
    /// included, where it is placed, which representations are produced and
    /// which build is selected. The decision carries the policy's placement
    /// and the policy's fallback as they are. The derivation reads the
    /// policy and the resource and changes neither; the decision that the
    /// resource already carries plays no part. It fails exactly where the
    /// resource can be placed neither at the policy's placement nor at its
    /// fallback.
    pub fn derive_add_collection_context(&self, resource: &Resource) -> (r: Result<
        CollectionContext,
        PolicyError,
    >)
        ensures
            outcome_view(r) == derive_context(self@, resource@),
    {
        if self.placement_of(resource).is_none() {
            return Err(PolicyError::ConfigurationConflict { resource: resource.name.clone() });
        }
        let module = match resource.kind {
            ResourceKind::ModuleSource => true,
            ResourceKind::ModuleBytecode => true,
            _ => false,
        };
        Ok(
            CollectionContext {
                included: self.filter_resource(resource),
                location: self.resources_location().clone(),
                location_fallback: match self.resources_location_fallback() {
                    Some(f) => Some(f.clone()),
                    None => None,
                },
                store_source: module && self.allow_files(),
                optimize_level_zero: module && self.bytecode_optimize_level_zero(),
                optimize_level_one: module && self.bytecode_optimize_level_one(),
                optimize_level_two: module && self.bytecode_optimize_level_two(),
                variant: self.select_variant(resource),
            },
        )
    }
}

} // verus!
