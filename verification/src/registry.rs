//! The pattern registry: the strings by which containers are recognised as
//! infrastructure or as message-routing components.
use crate::substring::{contains, is_substring};
use vstd::prelude::*;

verus! {

/// The three collections of strings that configuration supplies. They are
/// only read.
#[derive(Debug, PartialEq, Eq)]
pub struct PatternRegistry {
    /// Fragments that mark a container as infrastructure where its name or
    /// its image contains one.
    pub generic_infra_patterns: Vec<String>,
    /// Fragments that mark a container as a sidecar where its image contains
    /// one.
    pub known_sidecar_images: Vec<String>,
    /// Images that are taken to route messages; compared as a whole.
    pub known_message_routing_images: Vec<String>,
}

/// Model of a [`PatternRegistry`].
pub struct PatternRegistryView {
    pub generic_infra_patterns: Seq<Seq<char>>,
    pub known_sidecar_images: Seq<Seq<char>>,
    pub known_message_routing_images: Seq<Seq<char>>,
}

impl View for PatternRegistry {
    type V = PatternRegistryView;

    open spec fn view(&self) -> PatternRegistryView {
        PatternRegistryView {
            generic_infra_patterns: self.generic_infra_patterns.deep_view(),
            known_sidecar_images: self.known_sidecar_images.deep_view(),
            known_message_routing_images: self.known_message_routing_images.deep_view(),
        }
    }
}

impl DeepView for PatternRegistry {
    type V = PatternRegistryView;

    open spec fn deep_view(&self) -> PatternRegistryView {
        self@
    }
}

/// Some entry of `patterns` occurs in `text`.
pub open spec fn some_pattern_occurs(patterns: Seq<Seq<char>>, text: Seq<char>) -> bool {
    exists|i: int| 0 <= i < patterns.len() && is_substring(#[trigger] patterns[i], text)
}

impl PatternRegistryView {
    /// `image` is, character for character, one of the known message-routing
    /// images.
    pub open spec fn routes_messages(self, image: Seq<char>) -> bool {
        self.known_message_routing_images.contains(image)
    }
}

/// Whether some entry of `patterns` occurs in `text`.
pub fn occurs_any(patterns: &Vec<String>, text: &str) -> (found: bool)
    ensures
        found == some_pattern_occurs(patterns.deep_view(), text@),
{
    let mut i: usize = 0;
    while i < patterns.len()
        invariant
            i <= patterns.len(),
            forall|j: int| 0 <= j < i ==> !is_substring(#[trigger] patterns.deep_view()[j], text@),
        decreases patterns.len() - i,
    {
        if contains(text, patterns[i].as_str()) {
            assert(is_substring(patterns.deep_view()[i as int], text@));
            return true;
        }
        i += 1;
    }
    false
}

impl PatternRegistry {
    /// A registry without entries.
    pub fn new() -> (registry: PatternRegistry)
        ensures
            registry@.generic_infra_patterns.len() == 0,
            registry@.known_sidecar_images.len() == 0,
            registry@.known_message_routing_images.len() == 0,
    {
        PatternRegistry {
            generic_infra_patterns: Vec::new(),
            known_sidecar_images: Vec::new(),
            known_message_routing_images: Vec::new(),
        }
    }
}

} // verus!
