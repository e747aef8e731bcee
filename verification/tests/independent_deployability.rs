use freshener::finding::{Finding, Rule};
use freshener::freshener::{analyze_containers_mspc, check_independent_depl};
use freshener::manifest::{Container, K8SManifest, Kind, ManifestSpec, Template, TemplateSpec};
use freshener::registry::PatternRegistry;

fn container(name: &str, image: &str) -> Container {
    Container { name: name.to_string(), image: image.to_string(), ports: None }
}

fn pod(containers: Vec<Container>) -> K8SManifest {
    K8SManifest {
        kind: Kind::Pod,
        spec: ManifestSpec { containers: Some(containers), host_network: None, template: None },
    }
}

fn deployment(containers: Vec<Container>) -> K8SManifest {
    K8SManifest {
        kind: Kind::Deployment,
        spec: ManifestSpec {
            containers: None,
            host_network: None,
            template: Some(Template { spec: Some(TemplateSpec { containers: Some(containers) }) }),
        },
    }
}

fn registry() -> PatternRegistry {
    PatternRegistry {
        generic_infra_patterns: vec!["fluentd".to_string(), "exporter".to_string()],
        known_sidecar_images: vec!["istio/proxyv2".to_string()],
        known_message_routing_images: Vec::new(),
    }
}

fn names(findings: &[Finding]) -> Vec<&str> {
    findings.iter().map(|f| f.container_name.as_str()).collect()
}

#[test]
fn empty_container_list_gives_no_finding() {
    assert!(analyze_containers_mspc(&Vec::new(), &registry()).is_empty());
}

#[test]
fn single_business_container_gives_no_finding() {
    let containers = vec![container("svcA", "acme/svcA")];
    assert!(analyze_containers_mspc(&containers, &registry()).is_empty());
}

#[test]
fn infrastructure_containers_alone_give_no_finding() {
    let containers = vec![
        container("logs", "fluentd/fluentd"),
        container("mesh", "istio/proxyv2:1.20"),
        container("node-exporter", "prom/node"),
    ];
    assert!(analyze_containers_mspc(&containers, &registry()).is_empty());
}

#[test]
fn one_business_container_among_many_sidecars_gives_no_finding() {
    let containers = vec![
        container("logs", "fluentd/fluentd"),
        container("svcA", "acme/svcA"),
        container("mesh", "istio/proxyv2:1.20"),
        container("metrics-exporter", "acme/metrics"),
    ];
    assert!(analyze_containers_mspc(&containers, &registry()).is_empty());
}

#[test]
fn second_business_container_is_reported_not_the_first() {
    let containers = vec![container("svcA", "acme/svcA"), container("svcB", "acme/svcB")];
    let findings = analyze_containers_mspc(&containers, &registry());
    assert_eq!(names(&findings), vec!["svcB"]);
    assert_eq!(findings[0].image, "acme/svcB");
    assert_eq!(findings[0].rule, Rule::IndependentDeployability);
}

#[test]
fn order_of_declaration_decides_which_container_is_reported() {
    let containers = vec![container("svcB", "acme/svcB"), container("svcA", "acme/svcA")];
    let findings = analyze_containers_mspc(&containers, &registry());
    assert_eq!(names(&findings), vec!["svcA"]);
}

#[test]
fn every_later_business_container_is_reported() {
    let containers = vec![
        container("logs", "fluentd/fluentd"),
        container("svcA", "acme/svcA"),
        container("mesh", "istio/proxyv2:1.20"),
        container("svcB", "acme/svcB"),
        container("svcC", "acme/svcC"),
        container("metrics-exporter", "acme/metrics"),
        container("svcD", "acme/svcD"),
    ];
    let findings = analyze_containers_mspc(&containers, &registry());
    assert_eq!(names(&findings), vec!["svcB", "svcC", "svcD"]);
}

#[test]
fn business_containers_with_the_same_name_are_told_apart_by_position() {
    let containers = vec![container("svc", "acme/one"), container("svc", "acme/two")];
    let findings = analyze_containers_mspc(&containers, &registry());
    assert_eq!(findings.len(), 1);
    assert_eq!(findings[0].image, "acme/two");
}

#[test]
fn empty_pattern_sets_make_every_container_business() {
    let containers = vec![container("logs", "fluentd/fluentd"), container("svcA", "acme/svcA")];
    let findings = analyze_containers_mspc(&containers, &PatternRegistry::new());
    assert_eq!(names(&findings), vec!["svcA"]);
}

#[test]
fn independent_deployability_message_is_exact() {
    let containers = vec![container("svcA", "acme/svcA"), container("svcB", "acme/svcB:2")];
    let findings = analyze_containers_mspc(&containers, &registry());
    assert_eq!(findings.len(), 1);
    assert_eq!(
        findings[0].message,
        "[Smell occurred - Independent Deployability]\nContainer named svcB may not be a sidecar, \
         because it has acme/svcB:2 as an image,\nso we cannot ensure that this container is a proper sidecar. \
         Therefore it can potentially violate the Independent Deployability rule\n"
    );
    assert_eq!(
        findings[0],
        Finding {
            rule: Rule::IndependentDeployability,
            container_name: "svcB".to_string(),
            image: "acme/svcB:2".to_string(),
            message: format!(
                "[Smell occurred - Independent Deployability]\nContainer named {} may not be a sidecar, \
                 because it has {} as an image,\nso we cannot ensure that this container is a proper sidecar. \
                 Therefore it can potentially violate the Independent Deployability rule\n",
                "svcB", "acme/svcB:2"
            ),
        }
    );
}

#[test]
fn independent_deployability_constructor_matches_the_rule() {
    let built = Finding::independent_deployability(&container("svcB", "acme/svcB"));
    let containers = vec![container("svcA", "acme/svcA"), container("svcB", "acme/svcB")];
    assert_eq!(analyze_containers_mspc(&containers, &registry()), vec![built]);
}

#[test]
fn each_manifest_starts_without_a_main_container() {
    let manifests = vec![
        pod(vec![container("svcA", "acme/svcA")]),
        pod(vec![container("svcB", "acme/svcB")]),
        deployment(vec![container("svcC", "acme/svcC"), container("svcD", "acme/svcD")]),
        deployment(vec![container("svcE", "acme/svcE")]),
    ];
    let findings = check_independent_depl(&manifests, &registry());
    assert_eq!(names(&findings), vec!["svcD"]);
}

#[test]
fn manifests_of_other_kinds_are_passed_over() {
    let manifests = vec![K8SManifest {
        kind: Kind::Other,
        spec: ManifestSpec {
            containers: Some(vec![container("svcA", "acme/svcA"), container("svcB", "acme/svcB")]),
            host_network: None,
            template: None,
        },
    }];
    assert!(check_independent_depl(&manifests, &registry()).is_empty());
}

#[test]
fn manifest_without_containers_gives_no_finding() {
    let manifests = vec![
        K8SManifest {
            kind: Kind::Deployment,
            spec: ManifestSpec { containers: None, host_network: None, template: None },
        },
        K8SManifest {
            kind: Kind::Deployment,
            spec: ManifestSpec {
                containers: None,
                host_network: None,
                template: Some(Template { spec: None }),
            },
        },
        K8SManifest {
            kind: Kind::Pod,
            spec: ManifestSpec {
                containers: None,
                host_network: Some(false),
                template: Some(Template { spec: Some(TemplateSpec { containers: None }) }),
            },
        },
        pod(Vec::new()),
    ];
    assert!(check_independent_depl(&manifests, &registry()).is_empty());
}

#[test]
fn bundling_findings_follow_the_order_of_the_manifests() {
    let manifests = vec![
        deployment(vec![container("a1", "acme/a1"), container("a2", "acme/a2")]),
        pod(vec![container("b1", "acme/b1"), container("b2", "acme/b2"), container("b3", "acme/b3")]),
    ];
    let findings = check_independent_depl(&manifests, &registry());
    assert_eq!(names(&findings), vec!["a2", "b2", "b3"]);
}

#[test]
fn independent_deployability_rule_reports_the_same_on_every_run() {
    let manifests = vec![
        deployment(vec![
            container("logs", "fluentd/fluentd"),
            container("svcA", "acme/svcA"),
            container("svcB", "acme/svcB"),
        ]),
        pod(vec![container("svcC", "acme/svcC")]),
    ];
    let patterns = registry();
    let first = check_independent_depl(&manifests, &patterns);
    let second = check_independent_depl(&manifests, &patterns);
    assert_eq!(names(&first), vec!["svcB"]);
    assert_eq!(first, second);
}
