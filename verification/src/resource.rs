//! Resources as the policy sees them, and the decision record that a
//! derivation attaches to one.

use crate::location::{ConcreteResourceLocation, LocationView};
use crate::policy::fallback_view;
use crate::text::optional_text;
use vstd::prelude::*;

verus! {

/// What sort of thing a resource is.
#[derive(Clone, Copy, Debug, PartialEq, Eq, Structural)]
pub enum ResourceKind {
    /// The source text of a module.
    ModuleSource,
    /// The compiled bytecode of a module.
    ModuleBytecode,
    /// A data file that belongs to a package.
    DataResource,
    /// A native extension module.
    ExtensionModule,
    /// A shared library that something else links.
    SharedLibrary,
    /// A raw file that was not classified.
    File,
}

/// Where a resource comes from, relative to the runtime distribution.
#[derive(Clone, Copy, Debug, PartialEq, Eq, Structural)]
pub enum Origin {
    /// A module source of the distribution.
    DistributionSource,
    /// A data resource of the distribution.
    DistributionResource,
    /// Anything that is not part of the distribution.
    NonDistribution,
}

/// The provenance class of a resource: its origin, and whether it is a test.
#[derive(Clone, Copy, Debug, PartialEq, Eq, Structural)]
pub struct ProvenanceClass {
    pub origin: Origin,
    pub test: bool,
}

/// The mathematical value of a [`Variant`].
pub struct VariantView {
    pub name: Seq<char>,
    pub minimally_required: bool,
    pub requires_libraries: bool,
    pub copyleft: bool,
}

/// One build of an extension module.
#[derive(Debug, PartialEq, Eq)]
pub struct Variant {
    pub name: String,
    /// Whether an interpreter cannot start without this build.
    pub minimally_required: bool,
    /// Whether this build links a library.
    pub requires_libraries: bool,
    /// Whether this build carries copyleft obligations.
    pub copyleft: bool,
}

impl View for Variant {
    type V = VariantView;

    open spec fn view(&self) -> VariantView {
        VariantView {
            name: self.name@,
            minimally_required: self.minimally_required,
            requires_libraries: self.requires_libraries,
            copyleft: self.copyleft,
        }
    }
}

impl Clone for Variant {
    fn clone(&self) -> (r: Self)
        ensures
            r == *self,
    {
        Variant {
            name: self.name.clone(),
            minimally_required: self.minimally_required,
            requires_libraries: self.requires_libraries,
            copyleft: self.copyleft,
        }
    }
}

/// The mathematical value of a [`CollectionContext`].
pub struct ContextView {
    pub included: bool,
    pub location: LocationView,
    pub location_fallback: Option<LocationView>,
    pub store_source: bool,
    pub optimize_level_zero: bool,
    pub optimize_level_one: bool,
    pub optimize_level_two: bool,
    pub variant: Option<Seq<char>>,
}

/// The bytecode optimization levels that a decision requests.
pub open spec fn requested_levels(c: ContextView) -> Set<int> {
    Set::new(
        |level: int|
            (level == 0 && c.optimize_level_zero) || (level == 1 && c.optimize_level_one) || (level
                == 2 && c.optimize_level_two),
    )
}

/// The decision on one resource: whether it is included, where it is
/// placed, and which representations of it are produced.
#[derive(Debug, PartialEq, Eq)]
pub struct CollectionContext {
    /// Whether the resource is included at all.
    pub included: bool,
    /// The primary placement.
    pub location: ConcreteResourceLocation,
    /// The placement to use where the primary one cannot be had.
    pub location_fallback: Option<ConcreteResourceLocation>,
    /// Whether the source text of a module is stored.
    pub store_source: bool,
    /// Whether bytecode at optimization level 0 is requested.
    pub optimize_level_zero: bool,
    /// Whether bytecode at optimization level 1 is requested.
    pub optimize_level_one: bool,
    /// Whether bytecode at optimization level 2 is requested.
    pub optimize_level_two: bool,
    /// The selected build, for an extension module.
    pub variant: Option<String>,
}

impl View for CollectionContext {
    type V = ContextView;

    open spec fn view(&self) -> ContextView {
        ContextView {
            included: self.included,
            location: self.location@,
            location_fallback: fallback_view(self.location_fallback),
            store_source: self.store_source,
            optimize_level_zero: self.optimize_level_zero,
            optimize_level_one: self.optimize_level_one,
            optimize_level_two: self.optimize_level_two,
            variant: optional_text(self.variant),
        }
    }
}

impl Clone for CollectionContext {
    fn clone(&self) -> (r: Self)
        ensures
            r == *self,
    {
        CollectionContext {
            included: self.included,
            location: self.location.clone(),
            location_fallback: match &self.location_fallback {
                Some(l) => Some(l.clone()),
                None => None,
            },
            store_source: self.store_source,
            optimize_level_zero: self.optimize_level_zero,
            optimize_level_one: self.optimize_level_one,
            optimize_level_two: self.optimize_level_two,
            variant: match &self.variant {
                Some(v) => Some(v.clone()),
                None => None,
            },
        }
    }
}

impl CollectionContext {
    /// The requested bytecode optimization levels, in rising order.
    pub fn optimize_levels(&self) -> (r: Vec<u8>)
        ensures
            r@.len() <= 3,
            forall|i: int, j: int| 0 <= i < j < r@.len() ==> r@[i] < r@[j],
            forall|level: int|
                requested_levels(self@).contains(level) <==> exists|i: int|
                    0 <= i < r@.len() && r@[i] == level,
    {
        let mut r: Vec<u8> = Vec::new();
        if self.optimize_level_zero {
            r.push(0);
        }
        if self.optimize_level_one {
            r.push(1);
        }
        if self.optimize_level_two {
            r.push(2);
        }
        proof {
            let n = r@.len() as int;
            assert forall|level: int| requested_levels(self@).contains(level) implies exists|
                i: int,
            |
                0 <= i < r@.len() && r@[i] == level by {
                if level == 0 {
                    assert(r@[0] == 0);
                } else if level == 1 {
                    let k = if self.optimize_level_zero { 1int } else { 0int };
                    assert(r@[k] == 1);
                } else {
                    assert(r@[n - 1] == 2);
                }
            }
        }
        r
    }
}

/// The view of an optional decision.
pub open spec fn context_view(c: Option<CollectionContext>) -> Option<ContextView> {
    match c {
        Some(c) => Some(c@),
        None => None,
    }
}

/// The views of a list of builds.
pub open spec fn variants_view(v: Seq<Variant>) -> Seq<VariantView> {
    v.map_values(|x: Variant| x@)
}

/// The mathematical value of a [`Resource`].
pub struct ResourceView {
    pub name: Seq<char>,
    pub kind: ResourceKind,
    pub provenance: ProvenanceClass,
    pub supports_in_memory_loading: bool,
    pub variants: Seq<VariantView>,
    pub default_variant: Seq<char>,
    pub context: Option<ContextView>,
}

/// A discovered unit that is considered for the packaged artifact. The
/// policy reads everything but `context`, the one slot that a derivation
/// replaces.
#[derive(Debug, PartialEq, Eq)]
pub struct Resource {
    pub name: String,
    pub kind: ResourceKind,
    pub provenance: ProvenanceClass,
    /// Whether the platform can load this resource from memory.
    pub supports_in_memory_loading: bool,
    /// The builds on offer, for an extension module with several.
    pub variants: Vec<Variant>,
    /// The build that the resource itself declares as its default.
    pub default_variant: String,
    /// The decision that is attached to the resource, if any.
    pub context: Option<CollectionContext>,
}

impl View for Resource {
    type V = ResourceView;

    open spec fn view(&self) -> ResourceView {
        ResourceView {
            name: self.name@,
            kind: self.kind,
            provenance: self.provenance,
            supports_in_memory_loading: self.supports_in_memory_loading,
            variants: variants_view(self.variants@),
            default_variant: self.default_variant@,
            context: context_view(self.context),
        }
    }
}

/// The resource with another decision in its slot and nothing else changed.
pub open spec fn with_context(r: ResourceView, context: Option<ContextView>) -> ResourceView {
    ResourceView { context: context, ..r }
}

impl Clone for Resource {
    fn clone(&self) -> (r: Self)
        ensures
            r@ == self@,
    {
        let mut variants: Vec<Variant> = Vec::new();
        let mut i: usize = 0;
        while i < self.variants.len()
            invariant
                i <= self.variants.len(),
                variants.len() == i,
                forall|j: int| 0 <= j < i ==> variants[j] == self.variants[j],
            decreases self.variants.len() - i,
        {
            variants.push(self.variants[i].clone());
            i += 1;
        }
        assert(variants_view(variants@) =~= variants_view(self.variants@));
        Resource {
            name: self.name.clone(),
            kind: self.kind,
            provenance: self.provenance,
            supports_in_memory_loading: self.supports_in_memory_loading,
            variants: variants,
            default_variant: self.default_variant.clone(),
            context: match &self.context {
                Some(c) => Some(c.clone()),
                None => None,
            },
        }
    }
}

impl Resource {
    /// The decision that is attached to this resource, if any.
    pub fn add_collection_context(&self) -> (r: &Option<CollectionContext>)
        ensures
            *r == self.context,
    {
        &self.context
    }

    /// Puts `context` in the slot of this resource, in place of what was
    /// there, and changes nothing else.
    pub fn replace_add_collection_context(&mut self, context: CollectionContext)
        ensures
            final(self)@ == with_context(old(self)@, Some(context@)),
    {
        self.context = Some(context);
    }
}

} // verus!
