//! The Kubernetes objects that install the hub, as plain data: what the manifests set,
//! field by field. Fields that the manifests leave unset are not modelled; they stay
//! at their defaults when the objects are written out.
use vstd::prelude::*;

verus! {

/// Labels, as key and value pairs in order.
pub type LabelsView = Seq<(Seq<char>, Seq<char>)>;

#[derive(Debug, Clone)]
pub struct ObjectMeta {
    pub name: Option<String>,
    pub namespace: Option<String>,
    pub labels: Option<Vec<(String, String)>>,
}

#[verifier::ext_equal]
pub struct ObjectMetaView {
    pub name: Option<Seq<char>>,
    pub namespace: Option<Seq<char>>,
    pub labels: Option<LabelsView>,
}

impl DeepView for ObjectMeta {
    type V = ObjectMetaView;

    open spec fn deep_view(&self) -> ObjectMetaView {
        ObjectMetaView {
            name: self.name.deep_view(),
            namespace: self.namespace.deep_view(),
            labels: self.labels.deep_view(),
        }
    }
}

#[derive(Debug, Clone)]
pub struct ServiceAccount {
    pub metadata: ObjectMeta,
    pub automount_service_account_token: Option<bool>,
}

#[verifier::ext_equal]
pub struct ServiceAccountView {
    pub metadata: ObjectMetaView,
    pub automount_service_account_token: Option<bool>,
}

impl DeepView for ServiceAccount {
    type V = ServiceAccountView;

    open spec fn deep_view(&self) -> ServiceAccountView {
        ServiceAccountView {
            metadata: self.metadata.deep_view(),
            automount_service_account_token: self.automount_service_account_token,
        }
    }
}

#[derive(Debug, Clone)]
pub struct PolicyRule {
    pub api_groups: Option<Vec<String>>,
    pub verbs: Vec<String>,
    pub resources: Option<Vec<String>>,
}

#[verifier::ext_equal]
pub struct PolicyRuleView {
    pub api_groups: Option<Seq<Seq<char>>>,
    pub verbs: Seq<Seq<char>>,
    pub resources: Option<Seq<Seq<char>>>,
}

impl DeepView for PolicyRule {
    type V = PolicyRuleView;

    open spec fn deep_view(&self) -> PolicyRuleView {
        PolicyRuleView {
            api_groups: self.api_groups.deep_view(),
            verbs: self.verbs.deep_view(),
            resources: self.resources.deep_view(),
        }
    }
}

#[derive(Debug, Clone)]
pub struct ClusterRole {
    pub metadata: ObjectMeta,
    pub rules: Option<Vec<PolicyRule>>,
}

#[verifier::ext_equal]
pub struct ClusterRoleView {
    pub metadata: ObjectMetaView,
    pub rules: Option<Seq<PolicyRuleView>>,
}

impl DeepView for ClusterRole {
    type V = ClusterRoleView;

    open spec fn deep_view(&self) -> ClusterRoleView {
        ClusterRoleView { metadata: self.metadata.deep_view(), rules: self.rules.deep_view() }
    }
}

#[derive(Debug, Clone)]
pub struct RoleRef {
    pub api_group: String,
    pub kind: String,
    pub name: String,
}

#[verifier::ext_equal]
pub struct RoleRefView {
    pub api_group: Seq<char>,
    pub kind: Seq<char>,
    pub name: Seq<char>,
}

impl DeepView for RoleRef {
    type V = RoleRefView;

    open spec fn deep_view(&self) -> RoleRefView {
        RoleRefView { api_group: self.api_group@, kind: self.kind@, name: self.name@ }
    }
}

#[derive(Debug, Clone)]
pub struct Subject {
    pub api_group: Option<String>,
    pub kind: String,
    pub name: String,
    pub namespace: Option<String>,
}

#[verifier::ext_equal]
pub struct SubjectView {
    pub api_group: Option<Seq<char>>,
    pub kind: Seq<char>,
    pub name: Seq<char>,
    pub namespace: Option<Seq<char>>,
}

impl DeepView for Subject {
    type V = SubjectView;

    open spec fn deep_view(&self) -> SubjectView {
        SubjectView {
            api_group: self.api_group.deep_view(),
            kind: self.kind@,
            name: self.name@,
            namespace: self.namespace.deep_view(),
        }
    }
}

#[derive(Debug, Clone)]
pub struct ClusterRoleBinding {
    pub metadata: ObjectMeta,
    pub role_ref: RoleRef,
    pub subjects: Option<Vec<Subject>>,
}

#[verifier::ext_equal]
pub struct ClusterRoleBindingView {
    pub metadata: ObjectMetaView,
    pub role_ref: RoleRefView,
    pub subjects: Option<Seq<SubjectView>>,
}

impl DeepView for ClusterRoleBinding {
    type V = ClusterRoleBindingView;

    open spec fn deep_view(&self) -> ClusterRoleBindingView {
        ClusterRoleBindingView {
            metadata: self.metadata.deep_view(),
            role_ref: self.role_ref.deep_view(),
            subjects: self.subjects.deep_view(),
        }
    }
}

/// A port of a service; its target is a port number of the selected pods.
#[derive(Debug, Clone)]
pub struct ServicePort {
    pub name: Option<String>,
    pub port: i32,
    pub protocol: Option<String>,
    pub target_port: Option<i32>,
}

#[verifier::ext_equal]
pub struct ServicePortView {
    pub name: Option<Seq<char>>,
    pub port: i32,
    pub protocol: Option<Seq<char>>,
    pub target_port: Option<i32>,
}

impl DeepView for ServicePort {
    type V = ServicePortView;

    open spec fn deep_view(&self) -> ServicePortView {
        ServicePortView {
            name: self.name.deep_view(),
            port: self.port,
            protocol: self.protocol.deep_view(),
            target_port: self.target_port,
        }
    }
}

#[derive(Debug, Clone)]
pub struct ServiceSpec {
    pub ports: Option<Vec<ServicePort>>,
    pub selector: Option<Vec<(String, String)>>,
}

#[verifier::ext_equal]
pub struct ServiceSpecView {
    pub ports: Option<Seq<ServicePortView>>,
    pub selector: Option<LabelsView>,
}

impl DeepView for ServiceSpec {
    type V = ServiceSpecView;

    open spec fn deep_view(&self) -> ServiceSpecView {
        ServiceSpecView { ports: self.ports.deep_view(), selector: self.selector.deep_view() }
    }
}

#[derive(Debug, Clone)]
pub struct Service {
    pub metadata: ObjectMeta,
    pub spec: Option<ServiceSpec>,
}

#[verifier::ext_equal]
pub struct ServiceView {
    pub metadata: ObjectMetaView,
    pub spec: Option<ServiceSpecView>,
}

impl DeepView for Service {
    type V = ServiceView;

    open spec fn deep_view(&self) -> ServiceView {
        ServiceView { metadata: self.metadata.deep_view(), spec: self.spec.deep_view() }
    }
}

#[derive(Debug, Clone)]
pub struct ContainerPort {
    pub container_port: i32,
    pub name: Option<String>,
    pub protocol: Option<String>,
}

#[verifier::ext_equal]
pub struct ContainerPortView {
    pub container_port: i32,
    pub name: Option<Seq<char>>,
    pub protocol: Option<Seq<char>>,
}

impl DeepView for ContainerPort {
    type V = ContainerPortView;

    open spec fn deep_view(&self) -> ContainerPortView {
        ContainerPortView {
            container_port: self.container_port,
            name: self.name.deep_view(),
            protocol: self.protocol.deep_view(),
        }
    }
}

#[derive(Debug, Clone)]
pub struct Container {
    pub name: String,
    pub image: Option<String>,
    pub ports: Option<Vec<ContainerPort>>,
}

#[verifier::ext_equal]
pub struct ContainerView {
    pub name: Seq<char>,
    pub image: Option<Seq<char>>,
    pub ports: Option<Seq<ContainerPortView>>,
}

impl DeepView for Container {
    type V = ContainerView;

    open spec fn deep_view(&self) -> ContainerView {
        ContainerView {
            name: self.name@,
            image: self.image.deep_view(),
            ports: self.ports.deep_view(),
        }
    }
}

#[derive(Debug, Clone)]
pub struct PodSpec {
    pub service_account_name: Option<String>,
    pub containers: Vec<Container>,
}

#[verifier::ext_equal]
pub struct PodSpecView {
    pub service_account_name: Option<Seq<char>>,
    pub containers: Seq<ContainerView>,
}

impl DeepView for PodSpec {
    type V = PodSpecView;

    open spec fn deep_view(&self) -> PodSpecView {
        PodSpecView {
            service_account_name: self.service_account_name.deep_view(),
            containers: self.containers.deep_view(),
        }
    }
}

#[derive(Debug, Clone)]
pub struct PodTemplateSpec {
    pub metadata: Option<ObjectMeta>,
    pub spec: Option<PodSpec>,
}

#[verifier::ext_equal]
pub struct PodTemplateSpecView {
    pub metadata: Option<ObjectMetaView>,
    pub spec: Option<PodSpecView>,
}

impl DeepView for PodTemplateSpec {
    type V = PodTemplateSpecView;

    open spec fn deep_view(&self) -> PodTemplateSpecView {
        PodTemplateSpecView { metadata: self.metadata.deep_view(), spec: self.spec.deep_view() }
    }
}

#[derive(Debug, Clone)]
pub struct LabelSelector {
    pub match_labels: Option<Vec<(String, String)>>,
}

#[verifier::ext_equal]
pub struct LabelSelectorView {
    pub match_labels: Option<LabelsView>,
}

impl DeepView for LabelSelector {
    type V = LabelSelectorView;

    open spec fn deep_view(&self) -> LabelSelectorView {
        LabelSelectorView { match_labels: self.match_labels.deep_view() }
    }
}

#[derive(Debug, Clone)]
pub struct DeploymentSpec {
    pub replicas: Option<i32>,
    pub selector: LabelSelector,
    pub template: PodTemplateSpec,
}

#[verifier::ext_equal]
pub struct DeploymentSpecView {
    pub replicas: Option<i32>,
    pub selector: LabelSelectorView,
    pub template: PodTemplateSpecView,
}

impl DeepView for DeploymentSpec {
    type V = DeploymentSpecView;

    open spec fn deep_view(&self) -> DeploymentSpecView {
        DeploymentSpecView {
            replicas: self.replicas,
            selector: self.selector.deep_view(),
            template: self.template.deep_view(),
        }
    }
}

#[derive(Debug, Clone)]
pub struct Deployment {
    pub metadata: ObjectMeta,
    pub spec: Option<DeploymentSpec>,
}

#[verifier::ext_equal]
pub struct DeploymentView {
    pub metadata: ObjectMetaView,
    pub spec: Option<DeploymentSpecView>,
}

impl DeepView for Deployment {
    type V = DeploymentView;

    open spec fn deep_view(&self) -> DeploymentView {
        DeploymentView { metadata: self.metadata.deep_view(), spec: self.spec.deep_view() }
    }
}

/// The custom resources of the hub.
#[derive(Debug, Clone, Copy, PartialEq, Eq, Structural)]
pub enum ResourceKind {
    Application,
    Command,
}

/// The definition of a custom resource, placed in a namespace; its schema comes from
/// the resource's specification type.
#[derive(Debug, Clone)]
pub struct ResourceDefinition {
    pub kind: ResourceKind,
    pub namespace: Option<String>,
}

#[verifier::ext_equal]
pub struct ResourceDefinitionView {
    pub kind: ResourceKind,
    pub namespace: Option<Seq<char>>,
}

impl DeepView for ResourceDefinition {
    type V = ResourceDefinitionView;

    open spec fn deep_view(&self) -> ResourceDefinitionView {
        ResourceDefinitionView { kind: self.kind, namespace: self.namespace.deep_view() }
    }
}

/// One object of the installation.
#[derive(Debug, Clone)]
pub enum Manifest {
    ServiceAccount(ServiceAccount),
    ClusterRole(ClusterRole),
    ClusterRoleBinding(ClusterRoleBinding),
    ResourceDefinition(ResourceDefinition),
    Service(Service),
    Deployment(Deployment),
}

pub enum ManifestView {
    ServiceAccount(ServiceAccountView),
    ClusterRole(ClusterRoleView),
    ClusterRoleBinding(ClusterRoleBindingView),
    ResourceDefinition(ResourceDefinitionView),
    Service(ServiceView),
    Deployment(DeploymentView),
}

impl DeepView for Manifest {
    type V = ManifestView;

    open spec fn deep_view(&self) -> ManifestView {
        match self {
            Manifest::ServiceAccount(m) => ManifestView::ServiceAccount(m.deep_view()),
            Manifest::ClusterRole(m) => ManifestView::ClusterRole(m.deep_view()),
            Manifest::ClusterRoleBinding(m) => ManifestView::ClusterRoleBinding(m.deep_view()),
            Manifest::ResourceDefinition(m) => ManifestView::ResourceDefinition(m.deep_view()),
            Manifest::Service(m) => ManifestView::Service(m.deep_view()),
            Manifest::Deployment(m) => ManifestView::Deployment(m.deep_view()),
        }
    }
}

} // verus!
