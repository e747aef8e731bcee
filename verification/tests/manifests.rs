use freshener::manifest::{
    get_deployments_pods, Container, K8SManifest, Kind, ManifestSpec, Template, TemplateSpec,
};

fn container(name: &str) -> Container {
    Container { name: name.to_string(), image: format!("acme/{}", name), ports: None }
}

fn manifest(
    kind: Kind,
    direct: Option<Vec<Container>>,
    nested: Option<Vec<Container>>,
) -> K8SManifest {
    K8SManifest {
        kind,
        spec: ManifestSpec {
            containers: direct,
            host_network: None,
            template: nested
                .map(|containers| Template { spec: Some(TemplateSpec { containers: Some(containers) }) }),
        },
    }
}

fn names(containers: Option<&Vec<Container>>) -> Option<Vec<&str>> {
    containers.map(|list| list.iter().map(|c| c.name.as_str()).collect())
}

#[test]
fn pods_and_deployments_are_workloads() {
    assert!(manifest(Kind::Pod, None, None).is_workload());
    assert!(manifest(Kind::Deployment, None, None).is_workload());
    assert!(!manifest(Kind::Other, None, None).is_workload());
}

#[test]
fn selection_keeps_pods_and_deployments_in_order() {
    let manifests = vec![
        manifest(Kind::Other, Some(vec![container("service")]), None),
        manifest(Kind::Deployment, None, Some(vec![container("dep")])),
        manifest(Kind::Other, None, None),
        manifest(Kind::Pod, Some(vec![container("pod")]), None),
        manifest(Kind::Deployment, None, Some(vec![container("dep2")])),
    ];
    let selected = get_deployments_pods(&manifests);
    assert_eq!(selected.len(), 3);
    assert!(std::ptr::eq(selected[0], &manifests[1]));
    assert!(std::ptr::eq(selected[1], &manifests[3]));
    assert!(std::ptr::eq(selected[2], &manifests[4]));
}

#[test]
fn selection_of_nothing_is_empty() {
    assert!(get_deployments_pods(&Vec::new()).is_empty());
    assert!(get_deployments_pods(&vec![manifest(Kind::Other, None, None)]).is_empty());
}

#[test]
fn direct_containers_are_the_container_list_of_a_pod() {
    let pod = manifest(Kind::Pod, Some(vec![container("a"), container("b")]), None);
    assert_eq!(names(pod.container_list()), Some(vec!["a", "b"]));
}

#[test]
fn template_containers_are_the_container_list_of_a_deployment() {
    let deployment = manifest(Kind::Deployment, None, Some(vec![container("a"), container("b")]));
    assert_eq!(names(deployment.container_list()), Some(vec!["a", "b"]));
}

#[test]
fn direct_containers_come_before_template_containers() {
    let both = manifest(Kind::Deployment, Some(vec![container("direct")]), Some(vec![container("nested")]));
    assert_eq!(names(both.container_list()), Some(vec!["direct"]));
}

#[test]
fn empty_direct_list_is_still_the_container_list() {
    let both = manifest(Kind::Pod, Some(Vec::new()), Some(vec![container("nested")]));
    assert_eq!(names(both.container_list()), Some(Vec::new()));
}

#[test]
fn manifest_without_either_shape_has_no_container_list() {
    assert_eq!(names(manifest(Kind::Pod, None, None).container_list()), None);
    let no_spec = K8SManifest {
        kind: Kind::Deployment,
        spec: ManifestSpec {
            containers: None,
            host_network: Some(true),
            template: Some(Template { spec: None }),
        },
    };
    assert_eq!(names(no_spec.container_list()), None);
    let no_containers = K8SManifest {
        kind: Kind::Deployment,
        spec: ManifestSpec {
            containers: None,
            host_network: None,
            template: Some(Template { spec: Some(TemplateSpec { containers: None }) }),
        },
    };
    assert_eq!(names(no_containers.container_list()), None);
}
