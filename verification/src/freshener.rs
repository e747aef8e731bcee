//! The two smell rules: host ports without an API gateway, and workloads
//! that bundle more than one business container.
use crate::classifier::{classify, is_business, Classification};
use crate::finding::{Finding, FindingView};
use crate::manifest::{
    get_deployments_pods, workloads, Container, ContainerView, K8SManifest, K8SManifestView,
};
use crate::registry::{PatternRegistry, PatternRegistryView};
use vstd::prelude::*;

verus! {

/// `container` binds a port of the node and its image is not a known
/// message-routing image.
pub open spec fn lacks_api_gateway(container: ContainerView, registry: PatternRegistryView) -> bool {
    container.exposes_host_port() && !registry.routes_messages(container.image)
}

/// The containers among `containers` that lack an API gateway, in
/// declaration order.
pub open spec fn exposed_containers(
    containers: Seq<ContainerView>,
    registry: PatternRegistryView,
) -> Seq<ContainerView> {
    containers.filter(|c: ContainerView| lacks_api_gateway(c, registry))
}

/// One finding for each container of `containers` that lacks an API gateway,
/// in declaration order.
pub open spec fn host_port_findings(
    containers: Seq<ContainerView>,
    registry: PatternRegistryView,
) -> Seq<FindingView> {
    exposed_containers(containers, registry).map_values(
        |c: ContainerView| FindingView::no_api_gateway(c),
    )
}

/// The findings of the API gateway rule: those of each workload among
/// `manifests`, one workload after the other.
pub open spec fn no_api_gateway_findings(
    manifests: Seq<K8SManifestView>,
    registry: PatternRegistryView,
) -> Seq<FindingView> {
    workloads(manifests).flat_map(
        |m: K8SManifestView| host_port_findings(m.containers(), registry),
    )
}

/// The business containers among `containers`, in declaration order.
pub open spec fn business_containers(
    containers: Seq<ContainerView>,
    registry: PatternRegistryView,
) -> Seq<ContainerView> {
    containers.filter(|c: ContainerView| is_business(c, registry))
}

/// `items` without its first element; empty where `items` is empty.
pub open spec fn all_but_first<A>(items: Seq<A>) -> Seq<A> {
    if items.len() == 0 {
        items
    } else {
        items.drop_first()
    }
}

/// One finding for each business container of `containers` but the first,
/// in declaration order.
pub open spec fn bundling_findings(
    containers: Seq<ContainerView>,
    registry: PatternRegistryView,
) -> Seq<FindingView> {
    all_but_first(business_containers(containers, registry)).map_values(
        |c: ContainerView| FindingView::independent_deployability(c),
    )
}

/// The findings of the independent deployability rule: those of each
/// workload among `manifests`, one workload after the other.
pub open spec fn independent_deployability_findings(
    manifests: Seq<K8SManifestView>,
    registry: PatternRegistryView,
) -> Seq<FindingView> {
    workloads(manifests).flat_map(
        |m: K8SManifestView| bundling_findings(m.containers(), registry),
    )
}

/// A further container adds its finding to those of the containers before
/// it exactly when it lacks an API gateway.
pub proof fn lemma_host_port_findings_push(
    containers: Seq<ContainerView>,
    container: ContainerView,
    registry: PatternRegistryView,
)
    ensures
        host_port_findings(containers.push(container), registry) == if lacks_api_gateway(
            container,
            registry,
        ) {
            host_port_findings(containers, registry).push(FindingView::no_api_gateway(container))
        } else {
            host_port_findings(containers, registry)
        },
{
    containers.lemma_filter_push(container, |c: ContainerView| lacks_api_gateway(c, registry));
    exposed_containers(containers, registry).lemma_push_map_commute(
        |c: ContainerView| FindingView::no_api_gateway(c),
        container,
    );
}

/// A further container adds its finding to those of the containers before
/// it exactly when it is a business container and not the first of them.
pub proof fn lemma_bundling_findings_push(
    containers: Seq<ContainerView>,
    container: ContainerView,
    registry: PatternRegistryView,
)
    ensures
        business_containers(containers.push(container), registry) == if is_business(
            container,
            registry,
        ) {
            business_containers(containers, registry).push(container)
        } else {
            business_containers(containers, registry)
        },
        bundling_findings(containers.push(container), registry) == if is_business(
            container,
            registry,
        ) && business_containers(containers, registry).len() > 0 {
            bundling_findings(containers, registry).push(
                FindingView::independent_deployability(container),
            )
        } else {
            bundling_findings(containers, registry)
        },
{
    let before = business_containers(containers, registry);
    containers.lemma_filter_push(container, |c: ContainerView| is_business(c, registry));
    if is_business(container, registry) {
        if before.len() > 0 {
            assert(all_but_first(before.push(container)) =~= all_but_first(before).push(container));
            all_but_first(before).lemma_push_map_commute(
                |c: ContainerView| FindingView::independent_deployability(c),
                container,
            );
        } else {
            assert(all_but_first(before.push(container)) =~= all_but_first(before));
        }
    }
}

/// Whether `image_name` is one of the known message-routing images,
/// compared as a whole.
pub fn implements_message_routing(image_name: String, registry: &PatternRegistry) -> (known: bool)
    ensures
        known == registry@.routes_messages(image_name@),
{
    let mut i: usize = 0;
    while i < registry.known_message_routing_images.len()
        invariant
            i <= registry.known_message_routing_images.len(),
            forall|j: int| 0 <= j < i ==> registry@.known_message_routing_images[j] != image_name@,
        decreases registry.known_message_routing_images.len() - i,
    {
        if registry.known_message_routing_images[i] == image_name {
            assert(registry@.known_message_routing_images[i as int] == image_name@);
            return true;
        }
        i += 1;
    }
    false
}

/// The API gateway rule on one container list: a finding for each container
/// that binds a port of the node and is no known message-routing component.
pub fn analyze_containers_nag(
    containers: &Vec<Container>,
    registry: &PatternRegistry,
) -> (findings: Vec<Finding>)
    ensures
        findings.deep_view() == host_port_findings(containers.deep_view(), registry@),
{
    let mut findings: Vec<Finding> = Vec::new();
    let mut i: usize = 0;
    proof {
        reveal(Seq::filter);
        assert(containers.deep_view().take(0) =~= Seq::empty());
        assert(findings.deep_view() =~= host_port_findings(Seq::empty(), registry@));
    }
    while i < containers.len()
        invariant
            i <= containers.len(),
            findings.deep_view() == host_port_findings(
                containers.deep_view().take(i as int),
                registry@,
            ),
        decreases containers.len() - i,
    {
        let container = &containers[i];
        let ghost before = findings.deep_view();
        if container.exposes_host_port() && !implements_message_routing(
            container.image.clone(),
            registry,
        ) {
            findings.push(Finding::no_api_gateway(container));
            assert(findings.deep_view() =~= before.push(FindingView::no_api_gateway(container@)));
        }
        proof {
            let all = containers.deep_view();
            assert(all.take(i + 1) =~= all.take(i as int).push(container@));
            lemma_host_port_findings_push(all.take(i as int), container@, registry@);
        }
        i += 1;
    }
    assert(containers.deep_view().take(containers.len() as int) =~= containers.deep_view());
    findings
}

/// The independent deployability rule on one container list: the first
/// business container takes the place of the main container, and each later
/// business container gives a finding.
pub fn analyze_containers_mspc(
    containers: &Vec<Container>,
    registry: &PatternRegistry,
) -> (findings: Vec<Finding>)
    ensures
        findings.deep_view() == bundling_findings(containers.deep_view(), registry@),
{
    let mut findings: Vec<Finding> = Vec::new();
    let mut main_container_name: Option<&String> = None;
    let mut i: usize = 0;
    proof {
        reveal(Seq::filter);
        assert(containers.deep_view().take(0) =~= Seq::empty());
        assert(findings.deep_view() =~= bundling_findings(Seq::empty(), registry@));
    }
    while i < containers.len()
        invariant
            i <= containers.len(),
            findings.deep_view() == bundling_findings(
                containers.deep_view().take(i as int),
                registry@,
            ),
            match main_container_name {
                Some(name) => {
                    let business = business_containers(
                        containers.deep_view().take(i as int),
                        registry@,
                    );
                    business.len() > 0 && name@ == business[0].name
                },
                None => business_containers(containers.deep_view().take(i as int), registry@).len()
                    == 0,
            },
        decreases containers.len() - i,
    {
        let container = &containers[i];
        let ghost before = findings.deep_view();
        proof {
            let all = containers.deep_view();
            assert(all.take(i + 1) =~= all.take(i as int).push(container@));
            lemma_bundling_findings_push(all.take(i as int), container@, registry@);
        }
        match classify(container, registry) {
            Classification::Infrastructure => {},
            Classification::Business => {
                if main_container_name.is_some() {
                    findings.push(Finding::independent_deployability(container));
                    assert(findings.deep_view() =~= before.push(
                        FindingView::independent_deployability(container@),
                    ));
                } else {
                    main_container_name = Some(&container.name);
                }
            },
        }
        i += 1;
    }
    assert(containers.deep_view().take(containers.len() as int) =~= containers.deep_view());
    findings
}

/// The API gateway rule: for every pod and deployment among `manifests`, a
/// finding for each container that binds a port of the node without being a
/// known message-routing component. Findings come in the order of the
/// manifests and, within one, of its containers.
pub fn check_no_apigateway(
    manifests: &Vec<K8SManifest>,
    registry: &PatternRegistry,
) -> (findings: Vec<Finding>)
    ensures
        findings.deep_view() == no_api_gateway_findings(manifests.deep_view(), registry@),
{
    let deployment_manifests = get_deployments_pods(manifests);
    let mut findings: Vec<Finding> = Vec::new();
    let ghost per_workload = |m: K8SManifestView| host_port_findings(m.containers(), registry@);
    let mut i: usize = 0;
    proof {
        assert(deployment_manifests.deep_view().take(0) =~= Seq::empty());
        assert(findings.deep_view() =~= Seq::<K8SManifestView>::empty().flat_map(per_workload));
    }
    while i < deployment_manifests.len()
        invariant
            i <= deployment_manifests.len(),
            per_workload == |m: K8SManifestView| host_port_findings(m.containers(), registry@),
            findings.deep_view() == deployment_manifests.deep_view().take(i as int).flat_map(
                per_workload,
            ),
        decreases deployment_manifests.len() - i,
    {
        let manifest = deployment_manifests[i];
        let ghost before = findings.deep_view();
        match manifest.container_list() {
            Some(containers) => {
                let mut found = analyze_containers_nag(containers, registry);
                let ghost added = found.deep_view();
                findings.append(&mut found);
                assert(findings.deep_view() =~= before + added);
            },
            None => {
                assert(findings.deep_view() =~= before + Seq::empty());
            },
        }
        proof {
            deployment_manifests.deep_view().lemma_flat_map_take_append(per_workload, i as int);
        }
        i += 1;
    }
    assert(deployment_manifests.deep_view().take(deployment_manifests.len() as int)
        =~= deployment_manifests.deep_view());
    findings
}

/// The independent deployability rule: for every pod and deployment among
/// `manifests`, a finding for each business container but the first.
/// Findings come in the order of the manifests and, within one, of its
/// containers.
pub fn check_independent_depl(
    manifests: &Vec<K8SManifest>,
    registry: &PatternRegistry,
) -> (findings: Vec<Finding>)
    ensures
        findings.deep_view() == independent_deployability_findings(
            manifests.deep_view(),
            registry@,
        ),
{
    let deployment_manifests = get_deployments_pods(manifests);
    let mut findings: Vec<Finding> = Vec::new();
    let ghost per_workload = |m: K8SManifestView| bundling_findings(m.containers(), registry@);
    let mut i: usize = 0;
    proof {
        assert(deployment_manifests.deep_view().take(0) =~= Seq::empty());
        assert(findings.deep_view() =~= Seq::<K8SManifestView>::empty().flat_map(per_workload));
    }
    while i < deployment_manifests.len()
        invariant
            i <= deployment_manifests.len(),
            per_workload == |m: K8SManifestView| bundling_findings(m.containers(), registry@),
            findings.deep_view() == deployment_manifests.deep_view().take(i as int).flat_map(
                per_workload,
            ),
        decreases deployment_manifests.len() - i,
    {
        let manifest = deployment_manifests[i];
        let ghost before = findings.deep_view();
        match manifest.container_list() {
            Some(containers) => {
                let mut found = analyze_containers_mspc(containers, registry);
                let ghost added = found.deep_view();
                findings.append(&mut found);
                assert(findings.deep_view() =~= before + added);
            },
            None => {
                assert(findings.deep_view() =~= before + Seq::empty());
            },
        }
        proof {
            deployment_manifests.deep_view().lemma_flat_map_take_append(per_workload, i as int);
        }
        i += 1;
    }
    assert(deployment_manifests.deep_view().take(deployment_manifests.len() as int)
        =~= deployment_manifests.deep_view());
    findings
}

} // verus!
