//! The container classifier: infrastructure or business logic.
use crate::manifest::{Container, ContainerView};
use crate::registry::{occurs_any, some_pattern_occurs, PatternRegistry, PatternRegistryView};
use vstd::prelude::*;

verus! {

/// What a container is taken to be.
#[derive(Clone, Copy, Debug, PartialEq, Eq)]
pub enum Classification {
    /// A sidecar or another auxiliary container.
    Infrastructure,
    /// A container that carries a service of its own.
    Business,
}

/// The name or the image of `container` contains a generic pattern, or its
/// image contains a known sidecar image.
pub open spec fn is_infrastructure(container: ContainerView, registry: PatternRegistryView) -> bool {
    ||| some_pattern_occurs(registry.generic_infra_patterns, container.name)
    ||| some_pattern_occurs(registry.generic_infra_patterns, container.image)
    ||| some_pattern_occurs(registry.known_sidecar_images, container.image)
}

/// The class of `container` under `registry`.
pub open spec fn classification(
    container: ContainerView,
    registry: PatternRegistryView,
) -> Classification {
    if is_infrastructure(container, registry) {
        Classification::Infrastructure
    } else {
        Classification::Business
    }
}

/// `container` is business logic under `registry`.
pub open spec fn is_business(container: ContainerView, registry: PatternRegistryView) -> bool {
    classification(container, registry) is Business
}

/// Classifies `container`: infrastructure where a pattern of `registry`
/// matches it, business logic otherwise.
pub fn classify(container: &Container, registry: &PatternRegistry) -> (class: Classification)
    ensures
        class == classification(container@, registry@),
{
    let generic = &registry.generic_infra_patterns;
    if occurs_any(generic, container.name.as_str()) || occurs_any(generic, container.image.as_str())
        || occurs_any(&registry.known_sidecar_images, container.image.as_str()) {
        Classification::Infrastructure
    } else {
        Classification::Business
    }
}

} // verus!
