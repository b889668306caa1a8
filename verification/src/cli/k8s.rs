//! The objects that install the hub in a cluster: its service account and access rules,
//! the definitions of its custom resources, and the services and deployments of the
//! controller and of the web front end. Each is written out as a YAML document; the
//! documents are joined into one stream.
use crate::cli::manifest::{
    ClusterRole, ClusterRoleBinding, ClusterRoleBindingView, ClusterRoleView, Container,
    ContainerPort, ContainerPortView, ContainerView, Deployment, DeploymentSpec,
    DeploymentSpecView, DeploymentView, LabelSelector, LabelSelectorView, LabelsView, Manifest,
    ManifestView, ObjectMeta, ObjectMetaView, PodSpec, PodSpecView, PodTemplateSpec,
    PodTemplateSpecView, PolicyRule, PolicyRuleView, ResourceDefinition, ResourceDefinitionView,
    ResourceKind, RoleRef, RoleRefView, Service, ServiceAccount, ServiceAccountView, ServicePort,
    ServicePortView, ServiceSpec, ServiceSpecView, ServiceView, Subject, SubjectView,
};
use crate::text::push_str;
use vstd::prelude::*;

verus! {

/// Where the hub is installed.
#[derive(Debug, Clone)]
pub struct Settings {
    pub namespace: String,
}

impl Default for Settings {
    fn default() -> (s: Self)
        ensures
            s.namespace@ == default_namespace(),
    {
        Settings { namespace: String::from_str("hubifier") }
    }
}

/// The namespace of the default settings.
pub open spec fn default_namespace() -> Seq<char> {
    "hubifier"@
}

/// The labels that mark the pods of an application.
pub open spec fn app_labels(name: Seq<char>) -> LabelsView {
    seq![("app"@, name)]
}

pub open spec fn named_meta(name: Seq<char>, namespace: Option<Seq<char>>) -> ObjectMetaView {
    ObjectMetaView { name: Some(name), namespace, labels: None }
}

pub open spec fn service_account_view(ns: Seq<char>) -> ServiceAccountView {
    ServiceAccountView {
        metadata: named_meta("hubifier"@, Some(ns)),
        automount_service_account_token: Some(true),
    }
}

pub open spec fn cluster_role_view() -> ClusterRoleView {
    ClusterRoleView {
        metadata: named_meta("hubifier"@, None),
        rules: Some(
            seq![
                PolicyRuleView {
                    api_groups: Some(seq![""@, "hubify.io"@]),
                    verbs: seq!["get"@, "watch"@, "list"@],
                    resources: Some(
                        seq!["deployments"@, "services"@, "applications"@, "commands"@],
                    ),
                },
            ],
        ),
    }
}

pub open spec fn cluster_role_binding_view(ns: Seq<char>) -> ClusterRoleBindingView {
    ClusterRoleBindingView {
        metadata: named_meta("hubifier"@, None),
        role_ref: RoleRefView {
            api_group: "rbac.authorization.k8s.io"@,
            kind: "ClusterRole"@,
            name: "hubifier"@,
        },
        subjects: Some(
            seq![
                SubjectView {
                    api_group: None,
                    kind: "ServiceAccount"@,
                    name: "hubifier"@,
                    namespace: Some(ns),
                },
            ],
        ),
    }
}

pub open spec fn resource_definition_view(kind: ResourceKind, ns: Seq<char>) -> ResourceDefinitionView {
    ResourceDefinitionView { kind, namespace: Some(ns) }
}

/// The access objects and resource definitions, in the order they are written out.
pub open spec fn crd_manifests(ns: Seq<char>) -> Seq<ManifestView> {
    seq![
        ManifestView::ServiceAccount(service_account_view(ns)),
        ManifestView::ClusterRole(cluster_role_view()),
        ManifestView::ClusterRoleBinding(cluster_role_binding_view(ns)),
        ManifestView::ResourceDefinition(resource_definition_view(ResourceKind::Application, ns)),
        ManifestView::ResourceDefinition(resource_definition_view(ResourceKind::Command, ns)),
    ]
}

/// A service in front of the pods labelled with its name, on one TCP port named "http".
pub open spec fn service_view(name: Seq<char>, ns: Seq<char>, port: i32) -> ServiceView {
    ServiceView {
        metadata: named_meta(name, Some(ns)),
        spec: Some(
            ServiceSpecView {
                ports: Some(
                    seq![
                        ServicePortView {
                            name: Some("http"@),
                            port,
                            protocol: Some("TCP"@),
                            target_port: Some(port),
                        },
                    ],
                ),
                selector: Some(app_labels(name)),
            },
        ),
    }
}

/// The services of the controller and of the web front end, in that order.
pub open spec fn service_manifests(ns: Seq<char>) -> Seq<ManifestView> {
    seq![
        ManifestView::Service(service_view("hubifier-controller"@, ns, 3000)),
        ManifestView::Service(service_view("hubifier-web"@, ns, 80)),
    ]
}

/// A deployment of one replica of one container, its pods labelled with its name and
/// exposing one TCP port named "http".
pub open spec fn deployment_view(
    name: Seq<char>,
    ns: Seq<char>,
    image: Seq<char>,
    port: i32,
    service_account: Option<Seq<char>>,
) -> DeploymentView {
    DeploymentView {
        metadata: named_meta(name, Some(ns)),
        spec: Some(
            DeploymentSpecView {
                replicas: Some(1),
                selector: LabelSelectorView { match_labels: Some(app_labels(name)) },
                template: PodTemplateSpecView {
                    metadata: Some(
                        ObjectMetaView { name: None, namespace: None, labels: Some(app_labels(name)) },
                    ),
                    spec: Some(
                        PodSpecView {
                            service_account_name: service_account,
                            containers: seq![
                                ContainerView {
                                    name,
                                    image: Some(image),
                                    ports: Some(
                                        seq![
                                            ContainerPortView {
                                                container_port: port,
                                                name: Some("http"@),
                                                protocol: Some("TCP"@),
                                            },
                                        ],
                                    ),
                                },
                            ],
                        },
                    ),
                },
            },
        ),
    }
}

/// The deployments of the controller and of the web front end, in that order.
pub open spec fn deployment_manifests(ns: Seq<char>) -> Seq<ManifestView> {
    seq![
        ManifestView::Deployment(
            deployment_view(
                "hubifier-controller"@,
                ns,
                "hubifier.io/hubifier-controller"@,
                3000,
                Some("hubifier-sa"@),
            ),
        ),
        ManifestView::Deployment(
            deployment_view("hubifier-web"@, ns, "hubifier.io/hubifier-web"@, 80, None),
        ),
    ]
}

/// Every object of the installation, in the order they are written out.
pub open spec fn resource_manifests(ns: Seq<char>) -> Seq<ManifestView> {
    crd_manifests(ns) + service_manifests(ns) + deployment_manifests(ns)
}

/// The stream of YAML documents: each document preceded by a "---" line.
pub open spec fn documents_text(docs: Seq<Seq<char>>) -> Seq<char>
    decreases docs.len(),
{
    if docs.len() == 0 {
        Seq::empty()
    } else {
        documents_text(docs.drop_last()) + "---\n"@ + docs.last()
    }
}

/// Writing two runs of documents one after the other gives the stream of all of them.
pub proof fn lemma_documents_concat(first: Seq<Seq<char>>, second: Seq<Seq<char>>)
    ensures
        documents_text(first + second) == documents_text(first) + documents_text(second),
    decreases second.len(),
{
    if second.len() == 0 {
        assert(first + second =~= first);
        assert(documents_text(second) =~= Seq::<char>::empty());
        assert(documents_text(first) + documents_text(second) =~= documents_text(first));
    } else {
        lemma_documents_concat(first, second.drop_last());
        assert((first + second).drop_last() =~= first + second.drop_last());
        assert((first + second).last() == second.last());
        assert(documents_text(first + second) =~= documents_text(first) + documents_text(second));
    }
}

fn text(s: &str) -> (r: String)
    ensures
        r@ == s@,
{
    String::from_str(s)
}

fn app_label(name: &str) -> (labels: Vec<(String, String)>)
    ensures
        labels.deep_view() == app_labels(name@),
{
    let mut labels: Vec<(String, String)> = Vec::new();
    labels.push((text("app"), text(name)));
    assert(labels.deep_view() =~= app_labels(name@));
    labels
}

fn named(name: &str, namespace: Option<&String>) -> (m: ObjectMeta)
    ensures
        m.deep_view() == named_meta(
            name@,
            match namespace {
                Some(ns) => Some(ns@),
                None => None,
            },
        ),
{
    let namespace = match namespace {
        Some(ns) => Some(ns.clone()),
        None => None,
    };
    ObjectMeta { name: Some(text(name)), namespace, labels: None }
}

fn service_account(ns: &String) -> (m: ServiceAccount)
    ensures
        m.deep_view() == service_account_view(ns@),
{
    ServiceAccount {
        metadata: named("hubifier", Some(ns)),
        automount_service_account_token: Some(true),
    }
}

fn cluster_role() -> (m: ClusterRole)
    ensures
        m.deep_view() == cluster_role_view(),
{
    let mut groups: Vec<String> = Vec::new();
    push_str(&mut groups, "");
    push_str(&mut groups, "hubify.io");
    let mut verbs: Vec<String> = Vec::new();
    push_str(&mut verbs, "get");
    push_str(&mut verbs, "watch");
    push_str(&mut verbs, "list");
    let mut resources: Vec<String> = Vec::new();
    push_str(&mut resources, "deployments");
    push_str(&mut resources, "services");
    push_str(&mut resources, "applications");
    push_str(&mut resources, "commands");
    assert(groups.deep_view() =~= seq![""@, "hubify.io"@]);
    assert(verbs.deep_view() =~= seq!["get"@, "watch"@, "list"@]);
    assert(resources.deep_view() =~= seq!["deployments"@, "services"@, "applications"@, "commands"@]);
    let rule = PolicyRule { api_groups: Some(groups), verbs, resources: Some(resources) };
    let mut rules: Vec<PolicyRule> = Vec::new();
    rules.push(rule);
    let m = ClusterRole { metadata: named("hubifier", None), rules: Some(rules) };
    assert(m.deep_view().rules->0 =~= cluster_role_view().rules->0);
    m
}

fn cluster_role_binding(ns: &String) -> (m: ClusterRoleBinding)
    ensures
        m.deep_view() == cluster_role_binding_view(ns@),
{
    let subject = Subject {
        api_group: None,
        kind: text("ServiceAccount"),
        name: text("hubifier"),
        namespace: Some(ns.clone()),
    };
    let mut subjects: Vec<Subject> = Vec::new();
    subjects.push(subject);
    let m = ClusterRoleBinding {
        metadata: named("hubifier", None),
        role_ref: RoleRef {
            api_group: text("rbac.authorization.k8s.io"),
            kind: text("ClusterRole"),
            name: text("hubifier"),
        },
        subjects: Some(subjects),
    };
    assert(m.deep_view().subjects->0 =~= cluster_role_binding_view(ns@).subjects->0);
    m
}

fn service(name: &str, ns: &String, port: i32) -> (m: Service)
    ensures
        m.deep_view() == service_view(name@, ns@, port),
{
    let mut ports: Vec<ServicePort> = Vec::new();
    ports.push(
        ServicePort {
            name: Some(text("http")),
            port,
            protocol: Some(text("TCP")),
            target_port: Some(port),
        },
    );
    let m = Service {
        metadata: named(name, Some(ns)),
        spec: Some(ServiceSpec { ports: Some(ports), selector: Some(app_label(name)) }),
    };
    assert(m.deep_view().spec->0.ports->0 =~= service_view(name@, ns@, port).spec->0.ports->0);
    m
}

fn deployment(
    name: &str,
    ns: &String,
    image: &str,
    port: i32,
    service_account: Option<&str>,
) -> (m: Deployment)
    ensures
        m.deep_view() == deployment_view(
            name@,
            ns@,
            image@,
            port,
            match service_account {
                Some(sa) => Some(sa@),
                None => None,
            },
        ),
{
    let mut ports: Vec<ContainerPort> = Vec::new();
    ports.push(
        ContainerPort { container_port: port, name: Some(text("http")), protocol: Some(text("TCP")) },
    );
    let mut containers: Vec<Container> = Vec::new();
    containers.push(Container { name: text(name), image: Some(text(image)), ports: Some(ports) });
    let service_account_name = match service_account {
        Some(sa) => Some(text(sa)),
        None => None,
    };
    let m = Deployment {
        metadata: named(name, Some(ns)),
        spec: Some(
            DeploymentSpec {
                replicas: Some(1),
                selector: LabelSelector { match_labels: Some(app_label(name)) },
                template: PodTemplateSpec {
                    metadata: Some(
                        ObjectMeta { name: None, namespace: None, labels: Some(app_label(name)) },
                    ),
                    spec: Some(PodSpec { service_account_name, containers }),
                },
            },
        ),
    };
    let ghost expected = deployment_view(
        name@,
        ns@,
        image@,
        port,
        match service_account {
            Some(sa) => Some(sa@),
            None => None,
        },
    );
    assert(m.deep_view().spec->0.template.spec->0.containers[0].ports->0
        =~= expected.spec->0.template.spec->0.containers[0].ports->0);
    assert(m.deep_view().spec->0.template.spec->0.containers
        =~= expected.spec->0.template.spec->0.containers);
    m
}

/// Appends the service account, the cluster role and its binding, and the definitions
/// of the application and command resources.
pub fn generate_crds(settings: &Settings, values: &mut Vec<Manifest>)
    ensures
        final(values).deep_view() == old(values).deep_view() + crd_manifests(settings.namespace@),
{
    let ns = &settings.namespace;
    let ghost start = values@;
    values.push(Manifest::ServiceAccount(service_account(ns)));
    values.push(Manifest::ClusterRole(cluster_role()));
    values.push(Manifest::ClusterRoleBinding(cluster_role_binding(ns)));
    values.push(
        Manifest::ResourceDefinition(
            ResourceDefinition { kind: ResourceKind::Application, namespace: Some(ns.clone()) },
        ),
    );
    values.push(
        Manifest::ResourceDefinition(
            ResourceDefinition { kind: ResourceKind::Command, namespace: Some(ns.clone()) },
        ),
    );
    assert(values.deep_view() =~= start.map_values(|x: Manifest| x.deep_view()) + crd_manifests(ns@));
}

/// Appends the services of the controller and of the web front end.
pub fn generate_services(settings: &Settings, values: &mut Vec<Manifest>)
    ensures
        final(values).deep_view() == old(values).deep_view() + service_manifests(settings.namespace@),
{
    let ns = &settings.namespace;
    let ghost start = values@;
    values.push(Manifest::Service(service("hubifier-controller", ns, 3000)));
    values.push(Manifest::Service(service("hubifier-web", ns, 80)));
    assert(values.deep_view() =~= start.map_values(|x: Manifest| x.deep_view()) + service_manifests(ns@));
}

/// Appends the deployments of the controller and of the web front end.
pub fn generate_deployment(settings: &Settings, values: &mut Vec<Manifest>)
    ensures
        final(values).deep_view() == old(values).deep_view() + deployment_manifests(settings.namespace@),
{
    let ns = &settings.namespace;
    let ghost start = values@;
    values.push(
        Manifest::Deployment(
            deployment(
                "hubifier-controller",
                ns,
                "hubifier.io/hubifier-controller",
                3000,
                Some("hubifier-sa"),
            ),
        ),
    );
    values.push(
        Manifest::Deployment(deployment("hubifier-web", ns, "hubifier.io/hubifier-web", 80, None)),
    );
    assert(values.deep_view() =~= start.map_values(|x: Manifest| x.deep_view()) + deployment_manifests(ns@));
}

/// Every object of the installation, in the given settings or, without them, in the
/// default ones.
pub fn generate_resources(settings: Option<Settings>) -> (values: Vec<Manifest>)
    ensures
        values.deep_view() == resource_manifests(
            match settings {
                Some(s) => s.namespace@,
                None => default_namespace(),
            },
        ),
{
    let settings = match settings {
        Some(s) => s,
        None => Settings::default(),
    };
    let mut values: Vec<Manifest> = Vec::new();
    assert(values.deep_view() =~= Seq::<ManifestView>::empty());
    generate_crds(&settings, &mut values);
    generate_services(&settings, &mut values);
    generate_deployment(&settings, &mut values);
    assert(values.deep_view() =~= resource_manifests(settings.namespace@));
    values
}

/// Joins YAML documents into one stream, each preceded by a "---" line.
pub fn join_documents(docs: &Vec<String>) -> (text: String)
    ensures
        text@ == documents_text(docs.deep_view()),
{
    let mut acc = String::new();
    let mut i: usize = 0;
    while i < docs.len()
        invariant
            i <= docs@.len(),
            acc@ == documents_text(docs.deep_view().take(i as int)),
        decreases docs@.len() - i,
    {
        acc.append("---\n");
        acc.append(docs[i].as_str());
        proof {
            let dv = docs.deep_view();
            assert(dv.take(i + 1).drop_last() =~= dv.take(i as int));
            assert(dv.take(i + 1).last() == docs@[i as int]@);
        }
        i = i + 1;
    }
    assert(docs.deep_view().take(docs@.len() as int) =~= docs.deep_view());
    acc
}

/// Whether a binding grants the cluster role to the service account.
pub open spec fn binding_grants(
    binding: ClusterRoleBindingView,
    role: ClusterRoleView,
    account: ServiceAccountView,
) -> bool {
    &&& binding.role_ref.kind == "ClusterRole"@
    &&& role.metadata.name == Some(binding.role_ref.name)
    &&& account.metadata.name is Some
    &&& binding.subjects == Some(
        seq![
            SubjectView {
                api_group: None,
                kind: "ServiceAccount"@,
                name: account.metadata.name->0,
                namespace: account.metadata.namespace,
            },
        ],
    )
}

/// Whether a deployment's selector picks out exactly the labels of its own pods.
pub open spec fn selects_own_pods(d: DeploymentView) -> bool {
    &&& d.spec is Some
    &&& d.spec->0.template.metadata is Some
    &&& d.spec->0.selector.match_labels is Some
    &&& d.spec->0.selector.match_labels == d.spec->0.template.metadata->0.labels
}

/// Whether a service sends its traffic to the pods of a deployment: it selects the labels
/// of the deployment's pods, and each port it targets is a port of the deployment's
/// containers.
pub open spec fn service_reaches(s: ServiceView, d: DeploymentView) -> bool {
    &&& s.spec is Some
    &&& d.spec is Some
    &&& d.spec->0.template.metadata is Some
    &&& s.spec->0.selector is Some
    &&& s.spec->0.selector == d.spec->0.template.metadata->0.labels
    &&& s.spec->0.ports is Some
    &&& d.spec->0.template.spec is Some
    &&& forall|p: int|
        0 <= p < s.spec->0.ports->0.len() ==> exposes_port(d, #[trigger] s.spec->0.ports->0[p])
}

/// Whether a container of the deployment's pods exposes the port that a service port
/// targets.
pub open spec fn exposes_port(d: DeploymentView, port: ServicePortView) -> bool {
    exists|c: int, q: int|
        0 <= c < d.spec->0.template.spec->0.containers.len()
            && d.spec->0.template.spec->0.containers[c].ports is Some
            && 0 <= q < d.spec->0.template.spec->0.containers[c].ports->0.len()
            && port.target_port == Some(
            #[trigger] d.spec->0.template.spec->0.containers[c].ports->0[q].container_port,
        )
}

/// Every namespaced object of the installation is placed in the namespace of the
/// settings; the cluster role and its binding, which are cluster wide, in none.
pub proof fn lemma_objects_in_settings_namespace(ns: Seq<char>)
    ensures
        forall|i: int|
            0 <= i < resource_manifests(ns).len() ==> match #[trigger] resource_manifests(ns)[i] {
                ManifestView::ServiceAccount(m) => m.metadata.namespace == Some(ns),
                ManifestView::ClusterRole(m) => m.metadata.namespace is None,
                ManifestView::ClusterRoleBinding(m) => m.metadata.namespace is None,
                ManifestView::ResourceDefinition(m) => m.namespace == Some(ns),
                ManifestView::Service(m) => m.metadata.namespace == Some(ns),
                ManifestView::Deployment(m) => m.metadata.namespace == Some(ns),
            },
{
    let ms = resource_manifests(ns);
    assert(ms =~= crd_manifests(ns) + service_manifests(ns) + deployment_manifests(ns));
    assert(ms.len() == 9);
}

/// The binding of the installation grants its cluster role to its service account.
pub proof fn lemma_binding_grants_role_to_account(ns: Seq<char>)
    ensures
        ({
            let ms = resource_manifests(ns);
            &&& ms[0] matches ManifestView::ServiceAccount(account)
            &&& ms[1] matches ManifestView::ClusterRole(role)
            &&& ms[2] matches ManifestView::ClusterRoleBinding(binding)
            &&& binding_grants(binding, role, account)
        }),
{
    let ms = resource_manifests(ns);
    assert(ms[0] == ManifestView::ServiceAccount(service_account_view(ns)));
    assert(ms[1] == ManifestView::ClusterRole(cluster_role_view()));
    assert(ms[2] == ManifestView::ClusterRoleBinding(cluster_role_binding_view(ns)));
}

/// Every deployment of the installation selects exactly its own pods.
pub proof fn lemma_deployments_select_own_pods(ns: Seq<char>)
    ensures
        forall|i: int|
            0 <= i < resource_manifests(ns).len() && #[trigger] resource_manifests(ns)[i] is Deployment
                ==> selects_own_pods(resource_manifests(ns)[i]->Deployment_0),
{
    let ms = resource_manifests(ns);
    assert(ms.len() == 9);
    assert forall|i: int| 0 <= i < ms.len() && #[trigger] ms[i] is Deployment implies selects_own_pods(
        ms[i]->Deployment_0,
    ) by {
        if i < 5 {
            assert(ms[i] == crd_manifests(ns)[i]);
        } else if i < 7 {
            assert(ms[i] == service_manifests(ns)[i - 5]);
        } else {
            assert(ms[i] == deployment_manifests(ns)[i - 7]);
        }
    }
}

/// The pods of each deployment are labelled with the deployment's own name, which its
/// selector picks; each service selects the label of its own name; so a service selects
/// the pods of a deployment only when the two share their name, and the services select
/// disjoint sets of pods.
pub proof fn lemma_pods_labelled_with_own_name(ns: Seq<char>)
    ensures
        forall|i: int|
            0 <= i < resource_manifests(ns).len() && #[trigger] resource_manifests(ns)[i] is Service
                ==> {
                let s = resource_manifests(ns)[i]->Service_0;
                &&& s.metadata.name is Some
                &&& s.spec is Some
                &&& s.spec->0.selector == Some(seq![("app"@, s.metadata.name->0)])
            },
        forall|i: int|
            0 <= i < resource_manifests(ns).len() && #[trigger] resource_manifests(ns)[i] is Deployment
                ==> {
                let d = resource_manifests(ns)[i]->Deployment_0;
                &&& d.metadata.name is Some
                &&& d.spec is Some
                &&& d.spec->0.selector.match_labels == Some(seq![("app"@, d.metadata.name->0)])
                &&& d.spec->0.template.metadata is Some
                &&& d.spec->0.template.metadata->0.labels == Some(seq![("app"@, d.metadata.name->0)])
            },
        forall|i: int, j: int|
            0 <= i < resource_manifests(ns).len() && 0 <= j < resource_manifests(ns).len()
                && #[trigger] resource_manifests(ns)[i] is Service
                && #[trigger] resource_manifests(ns)[j] is Deployment
                && resource_manifests(ns)[i]->Service_0.spec->0.selector
                == resource_manifests(ns)[j]->Deployment_0.spec->0.template.metadata->0.labels
                ==> resource_manifests(ns)[i]->Service_0.metadata.name
                == resource_manifests(ns)[j]->Deployment_0.metadata.name,
{
    let ms = resource_manifests(ns);
    assert(ms.len() == 9);
    reveal_strlit("hubifier-controller");
    reveal_strlit("hubifier-web");
    assert("hubifier-controller"@ != "hubifier-web"@) by {
        assert("hubifier-controller"@.len() != "hubifier-web"@.len());
    }
    assert forall|i: int| 0 <= i < ms.len() implies ms[i] == (if i < 5 {
        crd_manifests(ns)[i]
    } else if i < 7 {
        service_manifests(ns)[i - 5]
    } else {
        deployment_manifests(ns)[i - 7]
    }) by {}
    assert forall|i: int, j: int|
        0 <= i < ms.len() && 0 <= j < ms.len() && #[trigger] ms[i] is Service && #[trigger] ms[j] is Deployment
            && ms[i]->Service_0.spec->0.selector == ms[j]->Deployment_0.spec->0.template.metadata->0.labels
        implies ms[i]->Service_0.metadata.name == ms[j]->Deployment_0.metadata.name by {
        let a = ms[i]->Service_0.spec->0.selector->0;
        let b = ms[j]->Deployment_0.spec->0.template.metadata->0.labels->0;
        assert(a[0].1 == b[0].1);
    }
}

/// Every service of the installation sends its traffic to the pods of one of its
/// deployments, on a port that the deployment's container exposes.
pub proof fn lemma_services_reach_deployments(ns: Seq<char>)
    ensures
        forall|i: int|
            0 <= i < resource_manifests(ns).len() && #[trigger] resource_manifests(ns)[i] is Service
                ==> exists|j: int|
                0 <= j < resource_manifests(ns).len() && resource_manifests(ns)[j] is Deployment
                    && #[trigger] service_reaches(
                    resource_manifests(ns)[i]->Service_0,
                    resource_manifests(ns)[j]->Deployment_0,
                ),
{
    let ms = resource_manifests(ns);
    assert(ms.len() == 9);
    assert forall|i: int| 0 <= i < ms.len() && #[trigger] ms[i] is Service implies exists|j: int|
        0 <= j < ms.len() && ms[j] is Deployment && #[trigger] service_reaches(
            ms[i]->Service_0,
            ms[j]->Deployment_0,
        ) by {
        if i < 5 {
            assert(ms[i] == crd_manifests(ns)[i]);
        } else {
            assert(ms[i] == service_manifests(ns)[i - 5]);
            let j = i + 2;
            assert(ms[j] == deployment_manifests(ns)[j - 7]);
            let s = ms[i]->Service_0;
            let d = ms[j]->Deployment_0;
            let containers = d.spec->0.template.spec->0.containers;
            assert forall|p: int| 0 <= p < s.spec->0.ports->0.len() implies exposes_port(
                d,
                #[trigger] s.spec->0.ports->0[p],
            ) by {
                assert(containers[0].ports->0[0].container_port == s.spec->0.ports->0[0].port);
            }
            assert(service_reaches(s, d));
        }
    }
}

} // verus!
