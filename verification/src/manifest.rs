//! The workload manifests that the rules inspect, and their mathematical models.
use vstd::prelude::*;

verus! {

/// The kind of a cluster resource. Only pods and deployments are workloads.
#[derive(Clone, Copy, Debug, PartialEq, Eq)]
pub enum Kind {
    Pod,
    Deployment,
    Other,
}

/// A port declared by a container.
#[derive(Debug, PartialEq, Eq)]
pub struct Port {
    /// The port bound on the node itself, if any.
    pub host_port: Option<i32>,
}

/// A container of a workload.
#[derive(Debug, PartialEq, Eq)]
pub struct Container {
    pub name: String,
    pub image: String,
    pub ports: Option<Vec<Port>>,
}

/// The pod specification nested in a deployment's template.
#[derive(Debug, PartialEq, Eq)]
pub struct TemplateSpec {
    pub containers: Option<Vec<Container>>,
}

/// The pod template of a deployment.
#[derive(Debug, PartialEq, Eq)]
pub struct Template {
    pub spec: Option<TemplateSpec>,
}

/// The specification of a manifest: containers directly (pod shape), or
/// under a template (deployment shape).
#[derive(Debug, PartialEq, Eq)]
pub struct ManifestSpec {
    pub containers: Option<Vec<Container>>,
    pub host_network: Option<bool>,
    pub template: Option<Template>,
}

/// One resource of the cluster description.
#[derive(Debug, PartialEq, Eq)]
pub struct K8SManifest {
    pub kind: Kind,
    pub spec: ManifestSpec,
}

/// Model of a [`Port`].
pub struct PortView {
    pub host_port: Option<i32>,
}

/// Model of a [`Container`].
pub struct ContainerView {
    pub name: Seq<char>,
    pub image: Seq<char>,
    pub ports: Option<Seq<PortView>>,
}

/// Model of a [`TemplateSpec`].
pub struct TemplateSpecView {
    pub containers: Option<Seq<ContainerView>>,
}

/// Model of a [`Template`].
pub struct TemplateView {
    pub spec: Option<TemplateSpecView>,
}

/// Model of a [`ManifestSpec`].
pub struct ManifestSpecView {
    pub containers: Option<Seq<ContainerView>>,
    pub host_network: Option<bool>,
    pub template: Option<TemplateView>,
}

/// Model of a [`K8SManifest`].
pub struct K8SManifestView {
    pub kind: Kind,
    pub spec: ManifestSpecView,
}

impl View for Port {
    type V = PortView;

    open spec fn view(&self) -> PortView {
        PortView { host_port: self.host_port }
    }
}

impl DeepView for Port {
    type V = PortView;

    open spec fn deep_view(&self) -> PortView {
        self@
    }
}

impl View for Container {
    type V = ContainerView;

    open spec fn view(&self) -> ContainerView {
        ContainerView {
            name: self.name@,
            image: self.image@,
            ports: self.ports.deep_view(),
        }
    }
}

impl DeepView for Container {
    type V = ContainerView;

    open spec fn deep_view(&self) -> ContainerView {
        self@
    }
}

impl View for TemplateSpec {
    type V = TemplateSpecView;

    open spec fn view(&self) -> TemplateSpecView {
        TemplateSpecView { containers: self.containers.deep_view() }
    }
}

impl DeepView for TemplateSpec {
    type V = TemplateSpecView;

    open spec fn deep_view(&self) -> TemplateSpecView {
        self@
    }
}

impl View for Template {
    type V = TemplateView;

    open spec fn view(&self) -> TemplateView {
        TemplateView { spec: self.spec.deep_view() }
    }
}

impl DeepView for Template {
    type V = TemplateView;

    open spec fn deep_view(&self) -> TemplateView {
        self@
    }
}

impl View for ManifestSpec {
    type V = ManifestSpecView;

    open spec fn view(&self) -> ManifestSpecView {
        ManifestSpecView {
            containers: self.containers.deep_view(),
            host_network: self.host_network,
            template: self.template.deep_view(),
        }
    }
}

impl DeepView for ManifestSpec {
    type V = ManifestSpecView;

    open spec fn deep_view(&self) -> ManifestSpecView {
        self@
    }
}

impl View for K8SManifest {
    type V = K8SManifestView;

    open spec fn view(&self) -> K8SManifestView {
        K8SManifestView { kind: self.kind, spec: self.spec@ }
    }
}

impl DeepView for K8SManifest {
    type V = K8SManifestView;

    open spec fn deep_view(&self) -> K8SManifestView {
        self@
    }
}

impl PortView {
    /// The port is bound on the node, whatever its number.
    pub open spec fn binds_host(self) -> bool {
        self.host_port is Some
    }
}

/// At least one of `ports` is bound on the node.
pub open spec fn some_port_binds_host(ports: Seq<PortView>) -> bool {
    exists|i: int| 0 <= i < ports.len() && (#[trigger] ports[i]).binds_host()
}

impl ContainerView {
    /// The container declares no port: it has no port list, or an empty
    /// one.
    pub open spec fn declares_no_ports(self) -> bool {
        match self.ports {
            Some(ports) => ports.len() == 0,
            None => true,
        }
    }

    /// At least one declared port is bound on the node. A container without
    /// a port list, or with an empty one, exposes none.
    pub open spec fn exposes_host_port(self) -> bool {
        match self.ports {
            Some(ports) => some_port_binds_host(ports),
            None => false,
        }
    }
}

impl TemplateView {
    /// The containers under the template, where the whole path is present.
    pub open spec fn containers(self) -> Option<Seq<ContainerView>> {
        match self.spec {
            Some(spec) => spec.containers,
            None => None,
        }
    }
}

impl ManifestSpecView {
    /// The containers under the template, where the whole path is present.
    pub open spec fn template_containers(self) -> Option<Seq<ContainerView>> {
        match self.template {
            Some(template) => template.containers(),
            None => None,
        }
    }
}

impl K8SManifestView {
    /// The manifest describes a pod or a deployment.
    pub open spec fn is_workload(self) -> bool {
        self.kind is Pod || self.kind is Deployment
    }

    /// The container list of the manifest: the direct one where it is
    /// present, else the one under the template, else none.
    pub open spec fn container_list(self) -> Option<Seq<ContainerView>> {
        match self.spec.containers {
            Some(containers) => Some(containers),
            None => self.spec.template_containers(),
        }
    }

    /// The containers of the manifest in declaration order; none where no
    /// container list is present.
    pub open spec fn containers(self) -> Seq<ContainerView> {
        match self.container_list() {
            Some(containers) => containers,
            None => Seq::empty(),
        }
    }
}

/// The workloads among `manifests`, in their order.
pub open spec fn workloads(manifests: Seq<K8SManifestView>) -> Seq<K8SManifestView> {
    manifests.filter(|m: K8SManifestView| m.is_workload())
}

impl Port {
    /// Whether the port is bound on the node.
    pub fn binds_host(&self) -> (bound: bool)
        ensures
            bound == self@.binds_host(),
    {
        self.host_port.is_some()
    }
}

/// Whether at least one of `ports` is bound on the node.
pub fn has_host_port(ports: &Vec<Port>) -> (found: bool)
    ensures
        found == some_port_binds_host(ports.deep_view()),
{
    let mut i: usize = 0;
    while i < ports.len()
        invariant
            i <= ports.len(),
            forall|j: int| 0 <= j < i ==> !(#[trigger] ports.deep_view()[j]).binds_host(),
        decreases ports.len() - i,
    {
        if ports[i].binds_host() {
            assert(ports.deep_view()[i as int].binds_host());
            return true;
        }
        i += 1;
    }
    false
}

impl Container {
    /// Whether at least one declared port is bound on the node.
    pub fn exposes_host_port(&self) -> (exposed: bool)
        ensures
            exposed == self@.exposes_host_port(),
    {
        match &self.ports {
            Some(ports) => has_host_port(ports),
            None => false,
        }
    }
}

impl K8SManifest {
    /// Whether the manifest describes a pod or a deployment.
    pub fn is_workload(&self) -> (selected: bool)
        ensures
            selected == self@.is_workload(),
    {
        match self.kind {
            Kind::Pod => true,
            Kind::Deployment => true,
            Kind::Other => false,
        }
    }

    /// The container list of the manifest: the direct one where it is
    /// present, else the one under the template, else none.
    pub fn container_list(&self) -> (list: Option<&Vec<Container>>)
        ensures
            list.deep_view() == self@.container_list(),
    {
        match &self.spec.containers {
            Some(containers) => Some(containers),
            None => match &self.spec.template {
                Some(template) => match &template.spec {
                    Some(spec) => match &spec.containers {
                        Some(containers) => Some(containers),
                        None => None,
                    },
                    None => None,
                },
                None => None,
            },
        }
    }
}

/// Appending a manifest to a collection appends it to the workloads of the
/// collection exactly when it is a workload itself.
pub proof fn lemma_workloads_push(manifests: Seq<K8SManifestView>, manifest: K8SManifestView)
    ensures
        workloads(manifests.push(manifest)) == if manifest.is_workload() {
            workloads(manifests).push(manifest)
        } else {
            workloads(manifests)
        },
{
    manifests.lemma_filter_push(manifest, |m: K8SManifestView| m.is_workload());
}

/// The pods and deployments among `manifests`, in their order. Other kinds
/// are passed over.
pub fn get_deployments_pods(manifests: &Vec<K8SManifest>) -> (selected: Vec<&K8SManifest>)
    ensures
        selected.deep_view() == workloads(manifests.deep_view()),
{
    let mut selected: Vec<&K8SManifest> = Vec::new();
    let mut i: usize = 0;
    proof {
        reveal(Seq::filter);
        assert(manifests.deep_view().take(0) =~= Seq::empty());
    }
    while i < manifests.len()
        invariant
            i <= manifests.len(),
            selected.deep_view() == workloads(manifests.deep_view().take(i as int)),
        decreases manifests.len() - i,
    {
        let manifest = &manifests[i];
        let ghost before = selected.deep_view();
        if manifest.is_workload() {
            selected.push(manifest);
            assert(selected.deep_view() =~= before.push(manifest@));
        }
        proof {
            let all = manifests.deep_view();
            assert(all.take(i + 1) =~= all.take(i as int).push(manifest@));
            lemma_workloads_push(all.take(i as int), manifest@);
        }
        i += 1;
    }
    assert(manifests.deep_view().take(manifests.len() as int) =~= manifests.deep_view());
    selected
}

} // verus!
