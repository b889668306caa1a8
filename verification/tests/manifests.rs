use hubify::cli::k8s::{generate_crds, generate_resources, join_documents, Settings};
use hubify::cli::manifest::{Manifest, ResourceKind};

fn namespace_of(m: &Manifest) -> Option<String> {
    match m {
        Manifest::ServiceAccount(x) => x.metadata.namespace.clone(),
        Manifest::ClusterRole(x) => x.metadata.namespace.clone(),
        Manifest::ClusterRoleBinding(x) => x.metadata.namespace.clone(),
        Manifest::ResourceDefinition(x) => x.namespace.clone(),
        Manifest::Service(x) => x.metadata.namespace.clone(),
        Manifest::Deployment(x) => x.metadata.namespace.clone(),
    }
}

#[test]
fn default_settings_install_into_hubifier() {
    assert_eq!(Settings::default().namespace, "hubifier");
    let ms = generate_resources(None);
    assert_eq!(ms.len(), 9);
    for (i, m) in ms.iter().enumerate() {
        if i == 1 || i == 2 {
            assert_eq!(namespace_of(m), None);
        } else {
            assert_eq!(namespace_of(m).as_deref(), Some("hubifier"));
        }
    }
}

#[test]
fn given_namespace_is_used() {
    let ms = generate_resources(Some(Settings { namespace: "hub".to_string() }));
    assert_eq!(namespace_of(&ms[0]).as_deref(), Some("hub"));
    assert_eq!(namespace_of(&ms[8]).as_deref(), Some("hub"));
    match &ms[2] {
        Manifest::ClusterRoleBinding(b) => {
            let s = &b.subjects.as_ref().unwrap()[0];
            assert_eq!(s.namespace.as_deref(), Some("hub"));
            assert_eq!(s.kind, "ServiceAccount");
            assert_eq!(s.name, "hubifier");
            assert_eq!(b.role_ref.kind, "ClusterRole");
            assert_eq!(b.role_ref.name, "hubifier");
            assert_eq!(b.role_ref.api_group, "rbac.authorization.k8s.io");
        }
        _ => panic!("expected the binding"),
    }
}

#[test]
fn order_and_kinds_of_objects() {
    let ms = generate_resources(None);
    assert!(matches!(ms[0], Manifest::ServiceAccount(_)));
    assert!(matches!(ms[1], Manifest::ClusterRole(_)));
    assert!(matches!(ms[2], Manifest::ClusterRoleBinding(_)));
    assert!(matches!(&ms[3], Manifest::ResourceDefinition(d) if d.kind == ResourceKind::Application));
    assert!(matches!(&ms[4], Manifest::ResourceDefinition(d) if d.kind == ResourceKind::Command));
    assert!(matches!(ms[5], Manifest::Service(_)));
    assert!(matches!(ms[6], Manifest::Service(_)));
    assert!(matches!(ms[7], Manifest::Deployment(_)));
    assert!(matches!(ms[8], Manifest::Deployment(_)));
}

#[test]
fn cluster_role_rules() {
    let ms = generate_resources(None);
    match &ms[1] {
        Manifest::ClusterRole(r) => {
            let rule = &r.rules.as_ref().unwrap()[0];
            assert_eq!(rule.api_groups, Some(vec!["".to_string(), "hubify.io".to_string()]));
            assert_eq!(rule.verbs, vec!["get", "watch", "list"]);
            assert_eq!(
                rule.resources,
                Some(vec![
                    "deployments".to_string(),
                    "services".to_string(),
                    "applications".to_string(),
                    "commands".to_string()
                ])
            );
        }
        _ => panic!("expected the cluster role"),
    }
}

#[test]
fn services_reach_their_deployments() {
    let ms = generate_resources(None);
    for (si, di, port) in [(5usize, 7usize, 3000), (6, 8, 80)] {
        let (s, d) = match (&ms[si], &ms[di]) {
            (Manifest::Service(s), Manifest::Deployment(d)) => (s, d),
            _ => panic!("expected a service and a deployment"),
        };
        let sspec = s.spec.as_ref().unwrap();
        let dspec = d.spec.as_ref().unwrap();
        let pod_labels = dspec.template.metadata.as_ref().unwrap().labels.clone();
        assert_eq!(sspec.selector, pod_labels);
        assert_eq!(dspec.selector.match_labels, pod_labels);
        let sport = &sspec.ports.as_ref().unwrap()[0];
        assert_eq!(sport.port, port);
        assert_eq!(sport.target_port, Some(port));
        let cport = &dspec.template.spec.as_ref().unwrap().containers[0].ports.as_ref().unwrap()[0];
        assert_eq!(cport.container_port, port);
        assert_eq!(dspec.replicas, Some(1));
    }
}

#[test]
fn controller_pods_run_as_named_account() {
    let ms = generate_resources(None);
    match (&ms[7], &ms[8]) {
        (Manifest::Deployment(c), Manifest::Deployment(w)) => {
            let cs = c.spec.as_ref().unwrap().template.spec.as_ref().unwrap();
            assert_eq!(cs.service_account_name.as_deref(), Some("hubifier-sa"));
            assert_eq!(cs.containers[0].image.as_deref(), Some("hubifier.io/hubifier-controller"));
            assert_eq!(cs.containers[0].name, "hubifier-controller");
            let ws = w.spec.as_ref().unwrap().template.spec.as_ref().unwrap();
            assert!(ws.service_account_name.is_none());
            assert_eq!(ws.containers[0].image.as_deref(), Some("hubifier.io/hubifier-web"));
        }
        _ => panic!("expected the deployments"),
    }
}

#[test]
fn crds_are_appended() {
    let mut values = generate_resources(None);
    generate_crds(&Settings::default(), &mut values);
    assert_eq!(values.len(), 14);
    assert!(matches!(values[9], Manifest::ServiceAccount(_)));
}

#[test]
fn documents_are_joined_with_separators() {
    assert_eq!(join_documents(&vec![]), "");
    assert_eq!(
        join_documents(&vec!["a: 1\n".to_string(), "b: 2\n".to_string()]),
        "---\na: 1\n---\nb: 2\n"
    );
}

#[test]
fn joining_runs_of_documents_concatenates_them() {
    let first = vec!["a: 1\n".to_string()];
    let second = vec!["b: 2\n".to_string(), "c: 3\n".to_string()];
    let all: Vec<String> = first.iter().chain(second.iter()).cloned().collect();
    assert_eq!(join_documents(&all), join_documents(&first) + &join_documents(&second));
}
