//! What holds of the classifier and of the two rules on every input.
use crate::classifier::{classification, is_business, is_infrastructure, Classification};
use crate::finding::{FindingView, Rule};
use crate::freshener::{
    all_but_first, bundling_findings, business_containers, exposed_containers, host_port_findings,
    independent_deployability_findings, lacks_api_gateway, no_api_gateway_findings,
};
use crate::manifest::{workloads, ContainerView, K8SManifestView};
use crate::registry::PatternRegistryView;
use crate::sequences::{
    lemma_filter_keeps_order, lemma_filter_origin, lemma_filter_single, lemma_filter_two,
    lemma_flat_map_concat, lemma_flat_map_nothing, lemma_flat_map_origin,
};
use crate::substring::is_substring;
use vstd::prelude::*;

verus! {

/// `pattern` is an entry of `registry` that marks `container` as
/// infrastructure: a generic pattern that its name or its image contains, or
/// a known sidecar image that its image contains.
pub open spec fn marks_as_infrastructure(
    pattern: Seq<char>,
    container: ContainerView,
    registry: PatternRegistryView,
) -> bool {
    ||| registry.generic_infra_patterns.contains(pattern) && is_substring(pattern, container.name)
    ||| registry.generic_infra_patterns.contains(pattern) && is_substring(pattern, container.image)
    ||| registry.known_sidecar_images.contains(pattern) && is_substring(pattern, container.image)
}

/// A container whose name or image contains a generic pattern, or whose
/// image contains a known sidecar image, is classified as infrastructure.
pub proof fn lemma_pattern_match_is_infrastructure(
    pattern: Seq<char>,
    container: ContainerView,
    registry: PatternRegistryView,
)
    requires
        marks_as_infrastructure(pattern, container, registry),
    ensures
        classification(container, registry) == Classification::Infrastructure,
{
}

/// A container is classified as infrastructure only where some entry of the
/// registry marks it so; every other container is business logic.
pub proof fn lemma_infrastructure_only_by_pattern_match(
    container: ContainerView,
    registry: PatternRegistryView,
)
    ensures
        classification(container, registry) == Classification::Infrastructure <==> exists|
            pattern: Seq<char>,
        | marks_as_infrastructure(pattern, container, registry),
        classification(container, registry) == Classification::Business <==> forall|
            pattern: Seq<char>,
        | !marks_as_infrastructure(pattern, container, registry),
{
    if is_infrastructure(container, registry) {
        let generic = registry.generic_infra_patterns;
        let sidecars = registry.known_sidecar_images;
        if exists|i: int| 0 <= i < generic.len() && is_substring(#[trigger] generic[i], container.name) {
            let i = choose|i: int|
                0 <= i < generic.len() && is_substring(#[trigger] generic[i], container.name);
            assert(marks_as_infrastructure(generic[i], container, registry));
        } else if exists|i: int|
            0 <= i < generic.len() && is_substring(#[trigger] generic[i], container.image) {
            let i = choose|i: int|
                0 <= i < generic.len() && is_substring(#[trigger] generic[i], container.image);
            assert(marks_as_infrastructure(generic[i], container, registry));
        } else {
            let i = choose|i: int|
                0 <= i < sidecars.len() && is_substring(#[trigger] sidecars[i], container.image);
            assert(marks_as_infrastructure(sidecars[i], container, registry));
        }
    }
}

/// Under a registry without generic patterns and without known sidecar
/// images every container is business logic.
pub proof fn lemma_empty_patterns_all_business(
    container: ContainerView,
    registry: PatternRegistryView,
)
    requires
        registry.generic_infra_patterns.len() == 0,
        registry.known_sidecar_images.len() == 0,
    ensures
        classification(container, registry) == Classification::Business,
{
}

/// The API gateway rule looks at each workload on its own: the findings of
/// a collection are those of its first part followed by those of the rest.
pub proof fn lemma_no_api_gateway_per_manifest(
    first: Seq<K8SManifestView>,
    rest: Seq<K8SManifestView>,
    registry: PatternRegistryView,
)
    ensures
        no_api_gateway_findings(first + rest, registry) == no_api_gateway_findings(
            first,
            registry,
        ) + no_api_gateway_findings(rest, registry),
{
    Seq::filter_distributes_over_add(first, rest, |m: K8SManifestView| m.is_workload());
    lemma_flat_map_concat(
        workloads(first),
        workloads(rest),
        |m: K8SManifestView| host_port_findings(m.containers(), registry),
    );
}

/// The API gateway rule on a single manifest: the findings of its container
/// list where it is a pod or a deployment, none otherwise.
pub proof fn lemma_no_api_gateway_single_manifest(
    manifest: K8SManifestView,
    registry: PatternRegistryView,
)
    ensures
        no_api_gateway_findings(seq![manifest], registry) == if manifest.is_workload() {
            host_port_findings(manifest.containers(), registry)
        } else {
            Seq::empty()
        },
{
    let per_workload = |m: K8SManifestView| host_port_findings(m.containers(), registry);
    lemma_filter_single(manifest, |m: K8SManifestView| m.is_workload());
    if manifest.is_workload() {
        seq![manifest].lemma_flat_map_singleton(per_workload);
    } else {
        lemma_flat_map_nothing(Seq::<K8SManifestView>::empty(), per_workload);
    }
}

/// Every finding of the API gateway rule stems from a container of a pod or
/// deployment that binds a port of the node and whose image is no known
/// message-routing image.
pub proof fn lemma_no_api_gateway_finding_origin(
    manifests: Seq<K8SManifestView>,
    registry: PatternRegistryView,
    k: int,
)
    requires
        0 <= k < no_api_gateway_findings(manifests, registry).len(),
    ensures
        exists|i: int, j: int|
            0 <= i < manifests.len() && manifests[i].is_workload() && 0 <= j
                < manifests[i].containers().len() && lacks_api_gateway(
                #[trigger] manifests[i].containers()[j],
                registry,
            ) && no_api_gateway_findings(manifests, registry)[k] == FindingView::no_api_gateway(
                manifests[i].containers()[j],
            ),
{
    let selected = workloads(manifests);
    let per_workload = |m: K8SManifestView| host_port_findings(m.containers(), registry);
    lemma_flat_map_origin(selected, per_workload, k);
    let (w, f) = choose|w: int, f: int|
        0 <= w < selected.len() && 0 <= f < per_workload(selected[w]).len()
            && #[trigger] per_workload(selected[w])[f] == selected.flat_map(per_workload)[k];
    lemma_filter_origin(manifests, |m: K8SManifestView| m.is_workload(), w);
    let i = choose|i: int| 0 <= i < manifests.len() && #[trigger] manifests[i] == selected[w];
    let containers = manifests[i].containers();
    let exposed = exposed_containers(containers, registry);
    lemma_filter_origin(containers, |c: ContainerView| lacks_api_gateway(c, registry), f);
    let j = choose|j: int| 0 <= j < containers.len() && #[trigger] containers[j] == exposed[f];
    assert(lacks_api_gateway(manifests[i].containers()[j], registry));
}

/// A container that declares no ports gives no finding of the API gateway
/// rule: the findings of a container list are the same with it and without.
pub proof fn lemma_no_ports_no_finding(
    before: Seq<ContainerView>,
    container: ContainerView,
    after: Seq<ContainerView>,
    registry: PatternRegistryView,
)
    requires
        container.declares_no_ports(),
    ensures
        !lacks_api_gateway(container, registry),
        host_port_findings(before.push(container) + after, registry) == host_port_findings(
            before + after,
            registry,
        ),
{
    lemma_unflagged_container_adds_nothing(before, container, after, registry);
}

/// Where no container of any manifest declares a port, the API gateway rule
/// reports nothing.
pub proof fn lemma_no_ports_no_findings(
    manifests: Seq<K8SManifestView>,
    registry: PatternRegistryView,
)
    requires
        forall|i: int, j: int|
            0 <= i < manifests.len() && 0 <= j < manifests[i].containers().len() ==> (
            #[trigger] manifests[i].containers()[j]).declares_no_ports(),
    ensures
        no_api_gateway_findings(manifests, registry) == Seq::<FindingView>::empty(),
{
    if no_api_gateway_findings(manifests, registry).len() > 0 {
        lemma_no_api_gateway_finding_origin(manifests, registry, 0);
    }
    assert(no_api_gateway_findings(manifests, registry) =~= Seq::<FindingView>::empty());
}

/// A container whose image is, as a whole, one of the known message-routing
/// images gives no finding of the API gateway rule, whatever ports it
/// declares: the findings of a container list are the same with it and
/// without.
pub proof fn lemma_routing_image_no_finding(
    before: Seq<ContainerView>,
    container: ContainerView,
    after: Seq<ContainerView>,
    registry: PatternRegistryView,
)
    requires
        registry.known_message_routing_images.contains(container.image),
    ensures
        !lacks_api_gateway(container, registry),
        host_port_findings(before.push(container) + after, registry) == host_port_findings(
            before + after,
            registry,
        ),
{
    lemma_unflagged_container_adds_nothing(before, container, after, registry);
}

/// No finding of the API gateway rule carries an image that is one of the
/// known message-routing images.
pub proof fn lemma_no_finding_carries_routing_image(
    manifests: Seq<K8SManifestView>,
    registry: PatternRegistryView,
    k: int,
)
    requires
        0 <= k < no_api_gateway_findings(manifests, registry).len(),
    ensures
        no_api_gateway_findings(manifests, registry)[k].rule == Rule::NoApiGateway,
        !registry.known_message_routing_images.contains(
            no_api_gateway_findings(manifests, registry)[k].image,
        ),
{
    lemma_no_api_gateway_finding_origin(manifests, registry, k);
}

/// A container that does not lack an API gateway adds nothing to the
/// findings of its container list.
pub proof fn lemma_unflagged_container_adds_nothing(
    before: Seq<ContainerView>,
    container: ContainerView,
    after: Seq<ContainerView>,
    registry: PatternRegistryView,
)
    requires
        !lacks_api_gateway(container, registry),
    ensures
        host_port_findings(before.push(container) + after, registry) == host_port_findings(
            before + after,
            registry,
        ),
{
    let flagged = |c: ContainerView| lacks_api_gateway(c, registry);
    before.lemma_filter_push(container, flagged);
    Seq::filter_distributes_over_add(before.push(container), after, flagged);
    Seq::filter_distributes_over_add(before, after, flagged);
}

/// The independent deployability rule looks at each workload on its own,
/// with no main container carried over: the findings of a collection are
/// those of its first part followed by those of the rest.
pub proof fn lemma_independent_deployability_per_manifest(
    first: Seq<K8SManifestView>,
    rest: Seq<K8SManifestView>,
    registry: PatternRegistryView,
)
    ensures
        independent_deployability_findings(first + rest, registry)
            == independent_deployability_findings(first, registry)
            + independent_deployability_findings(rest, registry),
{
    Seq::filter_distributes_over_add(first, rest, |m: K8SManifestView| m.is_workload());
    lemma_flat_map_concat(
        workloads(first),
        workloads(rest),
        |m: K8SManifestView| bundling_findings(m.containers(), registry),
    );
}

/// The independent deployability rule on a single manifest: the findings of
/// its container list where it is a pod or a deployment, none otherwise.
pub proof fn lemma_independent_deployability_single_manifest(
    manifest: K8SManifestView,
    registry: PatternRegistryView,
)
    ensures
        independent_deployability_findings(seq![manifest], registry) == if manifest.is_workload() {
            bundling_findings(manifest.containers(), registry)
        } else {
            Seq::empty()
        },
{
    let per_workload = |m: K8SManifestView| bundling_findings(m.containers(), registry);
    lemma_filter_single(manifest, |m: K8SManifestView| m.is_workload());
    if manifest.is_workload() {
        seq![manifest].lemma_flat_map_singleton(per_workload);
    } else {
        lemma_flat_map_nothing(Seq::<K8SManifestView>::empty(), per_workload);
    }
}

/// No two containers of `containers` are both business logic.
pub open spec fn at_most_one_business(
    containers: Seq<ContainerView>,
    registry: PatternRegistryView,
) -> bool {
    forall|i: int, j: int|
        0 <= i < j < containers.len() ==> !(is_business(#[trigger] containers[i], registry)
            && is_business(#[trigger] containers[j], registry))
}

/// A container list with at most one business container gives no finding
/// of the independent deployability rule, however many infrastructure
/// containers it holds.
pub proof fn lemma_at_most_one_business_no_finding(
    containers: Seq<ContainerView>,
    registry: PatternRegistryView,
)
    requires
        at_most_one_business(containers, registry),
    ensures
        bundling_findings(containers, registry) == Seq::<FindingView>::empty(),
{
    let business = business_containers(containers, registry);
    let pred = |c: ContainerView| is_business(c, registry);
    if business.len() >= 2 {
        lemma_filter_keeps_order(containers, pred, 0, 1);
        lemma_filter_origin(containers, pred, 0);
        lemma_filter_origin(containers, pred, 1);
        let (i, j) = choose|i: int, j: int|
            0 <= i < j < containers.len() && #[trigger] containers[i] == business[0]
                && #[trigger] containers[j] == business[1];
        assert(is_business(containers[i], registry) && is_business(containers[j], registry));
    }
    assert(all_but_first(business) =~= Seq::<ContainerView>::empty());
    assert(bundling_findings(containers, registry) =~= Seq::<FindingView>::empty());
}

/// Where every manifest holds at most one business container, the
/// independent deployability rule reports nothing.
pub proof fn lemma_at_most_one_business_no_findings(
    manifests: Seq<K8SManifestView>,
    registry: PatternRegistryView,
)
    requires
        forall|i: int|
            0 <= i < manifests.len() ==> at_most_one_business(
                (#[trigger] manifests[i]).containers(),
                registry,
            ),
    ensures
        independent_deployability_findings(manifests, registry) == Seq::<FindingView>::empty(),
{
    let selected = workloads(manifests);
    let per_workload = |m: K8SManifestView| bundling_findings(m.containers(), registry);
    assert forall|w: int| 0 <= w < selected.len() implies (#[trigger] per_workload(
        selected[w],
    )).len() == 0 by {
        lemma_filter_origin(manifests, |m: K8SManifestView| m.is_workload(), w);
        let i = choose|i: int| 0 <= i < manifests.len() && #[trigger] manifests[i] == selected[w];
        lemma_at_most_one_business_no_finding(manifests[i].containers(), registry);
    }
    lemma_flat_map_nothing(selected, per_workload);
}

/// A container list with exactly two business containers, in this order at
/// the positions `first` and `second`, gives exactly one finding of the
/// independent deployability rule, and it names the second of them.
pub proof fn lemma_two_business_one_finding(
    containers: Seq<ContainerView>,
    registry: PatternRegistryView,
    first: int,
    second: int,
)
    requires
        0 <= first < second < containers.len(),
        forall|i: int|
            0 <= i < containers.len() ==> (is_business(#[trigger] containers[i], registry) <==> (i
                == first || i == second)),
    ensures
        bundling_findings(containers, registry) == seq![
            FindingView::independent_deployability(containers[second]),
        ],
{
    let business = business_containers(containers, registry);
    lemma_filter_two(containers, |c: ContainerView| is_business(c, registry), first, second);
    assert(all_but_first(business) =~= seq![containers[second]]);
    assert(bundling_findings(containers, registry) =~= seq![
        FindingView::independent_deployability(containers[second]),
    ]);
}

/// Every finding of the independent deployability rule stems from a
/// business container of a pod or deployment that stands behind another
/// business container of the same manifest, and names the later one.
pub proof fn lemma_independent_deployability_finding_origin(
    manifests: Seq<K8SManifestView>,
    registry: PatternRegistryView,
    k: int,
)
    requires
        0 <= k < independent_deployability_findings(manifests, registry).len(),
    ensures
        exists|i: int, earlier: int, later: int|
            0 <= i < manifests.len() && manifests[i].is_workload() && 0 <= earlier < later
                < manifests[i].containers().len() && is_business(
                #[trigger] manifests[i].containers()[earlier],
                registry,
            ) && is_business(#[trigger] manifests[i].containers()[later], registry)
                && independent_deployability_findings(manifests, registry)[k]
                == FindingView::independent_deployability(manifests[i].containers()[later]),
{
    let selected = workloads(manifests);
    let per_workload = |m: K8SManifestView| bundling_findings(m.containers(), registry);
    lemma_flat_map_origin(selected, per_workload, k);
    let (w, f) = choose|w: int, f: int|
        0 <= w < selected.len() && 0 <= f < per_workload(selected[w]).len()
            && #[trigger] per_workload(selected[w])[f] == selected.flat_map(per_workload)[k];
    lemma_filter_origin(manifests, |m: K8SManifestView| m.is_workload(), w);
    let i = choose|i: int| 0 <= i < manifests.len() && #[trigger] manifests[i] == selected[w];
    let containers = manifests[i].containers();
    let pred = |c: ContainerView| is_business(c, registry);
    let business = business_containers(containers, registry);
    assert(all_but_first(business)[f] == business[f + 1]);
    lemma_filter_keeps_order(containers, pred, 0, f + 1);
    lemma_filter_origin(containers, pred, 0);
    lemma_filter_origin(containers, pred, f + 1);
    let (earlier, later) = choose|earlier: int, later: int|
        0 <= earlier < later < containers.len() && #[trigger] containers[earlier] == business[0]
            && #[trigger] containers[later] == business[f + 1];
    assert(is_business(manifests[i].containers()[earlier], registry));
    assert(is_business(manifests[i].containers()[later], registry));
}

/// Running the API gateway rule twice on the same manifests and registry
/// gives the same findings: what a run reports depends on nothing else.
pub proof fn lemma_no_api_gateway_idempotent(
    manifests: Seq<K8SManifestView>,
    registry: PatternRegistryView,
    first_run: Seq<FindingView>,
    second_run: Seq<FindingView>,
)
    requires
        first_run == no_api_gateway_findings(manifests, registry),
        second_run == no_api_gateway_findings(manifests, registry),
    ensures
        first_run == second_run,
{
}

/// Running the independent deployability rule twice on the same manifests
/// and registry gives the same findings: what a run reports depends on
/// nothing else.
pub proof fn lemma_independent_deployability_idempotent(
    manifests: Seq<K8SManifestView>,
    registry: PatternRegistryView,
    first_run: Seq<FindingView>,
    second_run: Seq<FindingView>,
)
    requires
        first_run == independent_deployability_findings(manifests, registry),
        second_run == independent_deployability_findings(manifests, registry),
    ensures
        first_run == second_run,
{
}

} // verus!
