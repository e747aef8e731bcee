use freshener::classifier::{classify, Classification};
use freshener::manifest::Container;
use freshener::registry::{occurs_any, PatternRegistry};

fn container(name: &str, image: &str) -> Container {
    Container { name: name.to_string(), image: image.to_string(), ports: None }
}

fn registry(generic: &[&str], sidecars: &[&str]) -> PatternRegistry {
    PatternRegistry {
        generic_infra_patterns: generic.iter().map(|s| s.to_string()).collect(),
        known_sidecar_images: sidecars.iter().map(|s| s.to_string()).collect(),
        known_message_routing_images: Vec::new(),
    }
}

#[test]
fn generic_pattern_in_the_name_gives_infrastructure() {
    let class = classify(&container("log-agent", "acme/collector"), &registry(&["agent"], &[]));
    assert_eq!(class, Classification::Infrastructure);
}

#[test]
fn generic_pattern_in_the_image_gives_infrastructure() {
    let class = classify(&container("logs", "fluentd/fluentd:v1.16"), &registry(&["fluentd"], &[]));
    assert_eq!(class, Classification::Infrastructure);
}

#[test]
fn known_sidecar_image_in_the_image_gives_infrastructure() {
    let class = classify(
        &container("mesh", "docker.io/istio/proxyv2:1.20"),
        &registry(&[], &["istio/proxyv2"]),
    );
    assert_eq!(class, Classification::Infrastructure);
}

#[test]
fn known_sidecar_image_in_the_name_alone_gives_business() {
    let class = classify(&container("istio/proxyv2", "acme/api"), &registry(&[], &["istio/proxyv2"]));
    assert_eq!(class, Classification::Business);
}

#[test]
fn container_without_matching_pattern_gives_business() {
    let class = classify(&container("svcA", "acme/svcA"), &registry(&["fluentd", "envoy"], &["istio"]));
    assert_eq!(class, Classification::Business);
}

#[test]
fn empty_pattern_sets_give_business() {
    let class = classify(&container("envoy-sidecar", "envoyproxy/envoy:v1.2"), &registry(&[], &[]));
    assert_eq!(class, Classification::Business);
}

#[test]
fn new_registry_is_empty_and_gives_business() {
    let empty = PatternRegistry::new();
    assert!(empty.generic_infra_patterns.is_empty());
    assert!(empty.known_sidecar_images.is_empty());
    assert!(empty.known_message_routing_images.is_empty());
    assert_eq!(classify(&container("proxy", "envoy"), &empty), Classification::Business);
}

#[test]
fn pattern_matching_is_case_sensitive() {
    let class = classify(&container("Envoy", "acme/Envoy"), &registry(&["envoy"], &["envoy"]));
    assert_eq!(class, Classification::Business);
}

#[test]
fn later_entries_of_a_pattern_set_are_tried_too() {
    let class = classify(&container("svc", "acme/metrics-exporter"), &registry(&["a-", "b-", "exporter"], &[]));
    assert_eq!(class, Classification::Infrastructure);
}

#[test]
fn routing_allowlist_does_not_classify() {
    let with_routing = PatternRegistry {
        generic_infra_patterns: Vec::new(),
        known_sidecar_images: Vec::new(),
        known_message_routing_images: vec!["envoyproxy/envoy:v1.2".to_string()],
    };
    let class = classify(&container("envoy", "envoyproxy/envoy:v1.2"), &with_routing);
    assert_eq!(class, Classification::Business);
}

#[test]
fn occurs_any_finds_one_entry_among_several() {
    let patterns = vec!["fluentd".to_string(), "envoy".to_string()];
    assert!(occurs_any(&patterns, "envoyproxy/envoy:v1.2"));
    assert!(!occurs_any(&patterns, "acme/api"));
    assert!(!occurs_any(&Vec::new(), "acme/api"));
}
