//! The findings that the rules report.
use crate::manifest::{Container, ContainerView};
use vstd::prelude::*;
use vstd::string::StringExecFns;

verus! {

/// The rule that a finding belongs to.
#[derive(Clone, Copy, Debug, PartialEq, Eq)]
pub enum Rule {
    /// A container binds a port of the node without being a known
    /// message-routing component.
    NoApiGateway,
    /// A workload bundles more than one business container.
    IndependentDeployability,
}

/// One reported smell: the rule, the container it names, and the text for
/// the operator.
#[derive(Debug, PartialEq, Eq)]
pub struct Finding {
    pub rule: Rule,
    pub container_name: String,
    pub image: String,
    pub message: String,
}

/// Model of a [`Finding`].
pub struct FindingView {
    pub rule: Rule,
    pub container_name: Seq<char>,
    pub image: Seq<char>,
    pub message: Seq<char>,
}

impl View for Finding {
    type V = FindingView;

    open spec fn view(&self) -> FindingView {
        FindingView {
            rule: self.rule,
            container_name: self.container_name@,
            image: self.image@,
            message: self.message@,
        }
    }
}

impl DeepView for Finding {
    type V = FindingView;

    open spec fn deep_view(&self) -> FindingView {
        self@
    }
}

pub const NO_API_GATEWAY_HEAD: &'static str = "[Smell occurred - No API Gateway]\nContainer named '";

pub const NO_API_GATEWAY_MIDDLE: &'static str =
    "' has an hostPort associated, the container's image '";

pub const NO_API_GATEWAY_TAIL: &'static str =
    "' may not be a proper message routing implementation and this could be a potential no api gateway smell.\nIf you were to be sure that your image implements message routing, then we suggest you to add the image in the ignore list using cargo run add-ignore <name> <image> <kind>.\n";

pub const INDEPENDENT_DEPLOYABILITY_HEAD: &'static str =
    "[Smell occurred - Independent Deployability]\nContainer named ";

pub const INDEPENDENT_DEPLOYABILITY_MIDDLE: &'static str = " may not be a sidecar, because it has ";

pub const INDEPENDENT_DEPLOYABILITY_TAIL: &'static str =
    " as an image,\nso we cannot ensure that this container is a proper sidecar. Therefore it can potentially violate the Independent Deployability rule\n";

/// The text of a finding: `head`, the container's name, `middle`, its image,
/// `tail`.
pub open spec fn message_text(
    head: Seq<char>,
    name: Seq<char>,
    middle: Seq<char>,
    image: Seq<char>,
    tail: Seq<char>,
) -> Seq<char> {
    head + name + middle + image + tail
}

impl FindingView {
    /// The finding that `container` binds a port of the node without being a
    /// known message-routing component.
    pub open spec fn no_api_gateway(container: ContainerView) -> FindingView {
        FindingView {
            rule: Rule::NoApiGateway,
            container_name: container.name,
            image: container.image,
            message: message_text(
                NO_API_GATEWAY_HEAD@,
                container.name,
                NO_API_GATEWAY_MIDDLE@,
                container.image,
                NO_API_GATEWAY_TAIL@,
            ),
        }
    }

    /// The finding that `container` is a further business container of its
    /// workload.
    pub open spec fn independent_deployability(container: ContainerView) -> FindingView {
        FindingView {
            rule: Rule::IndependentDeployability,
            container_name: container.name,
            image: container.image,
            message: message_text(
                INDEPENDENT_DEPLOYABILITY_HEAD@,
                container.name,
                INDEPENDENT_DEPLOYABILITY_MIDDLE@,
                container.image,
                INDEPENDENT_DEPLOYABILITY_TAIL@,
            ),
        }
    }
}

/// Builds the text of a finding.
fn compose_message(head: &str, name: &str, middle: &str, image: &str, tail: &str) -> (text: String)
    ensures
        text@ == message_text(head@, name@, middle@, image@, tail@),
{
    let mut text = String::from_str(head);
    text.append(name);
    text.append(middle);
    text.append(image);
    text.append(tail);
    text
}

impl Finding {
    /// The finding that `container` binds a port of the node without being a
    /// known message-routing component.
    pub fn no_api_gateway(container: &Container) -> (finding: Finding)
        ensures
            finding@ == FindingView::no_api_gateway(container@),
    {
        Finding {
            rule: Rule::NoApiGateway,
            container_name: container.name.clone(),
            image: container.image.clone(),
            message: compose_message(
                NO_API_GATEWAY_HEAD,
                container.name.as_str(),
                NO_API_GATEWAY_MIDDLE,
                container.image.as_str(),
                NO_API_GATEWAY_TAIL,
            ),
        }
    }

    /// The finding that `container` is a further business container of its
    /// workload.
    pub fn independent_deployability(container: &Container) -> (finding: Finding)
        ensures
            finding@ == FindingView::independent_deployability(container@),
    {
        Finding {
            rule: Rule::IndependentDeployability,
            container_name: container.name.clone(),
            image: container.image.clone(),
            message: compose_message(
                INDEPENDENT_DEPLOYABILITY_HEAD,
                container.name.as_str(),
                INDEPENDENT_DEPLOYABILITY_MIDDLE,
                container.image.as_str(),
                INDEPENDENT_DEPLOYABILITY_TAIL,
            ),
        }
    }
}

} // verus!
