use hubify::xtask::process::{Action, CommandLine, Event, XtaskError};
use hubify::xtask::scripts::{create_cluster, generate_config_map, kind_config, parse, Scripts, SetupStage};
use hubify::xtask::utils::{has_cluster, has_registry_name, list_clusters, list_registries};
use hubify::xtask::{watch, WatchArgs, WatchStage};

fn line(c: &CommandLine) -> String {
    let mut s = c.program.clone();
    for a in &c.args {
        s.push(' ');
        s.push_str(a);
    }
    s
}

#[test]
fn kind_configuration_text() {
    assert_eq!(
        kind_config("registry", "5000"),
        "kind: Cluster\napiVersion: kind.x-k8s.io/v1alpha4\ncontainerdConfigPatches:\n- |-\n  [plugins.\"io.containerd.grpc.v1.cri\".registry.mirrors.\"localhost:5000\"]\n    endpoint = [\"http://registry:5000\"]"
    );
}

#[test]
fn config_map_text() {
    assert_eq!(
        generate_config_map("5001"),
        "apiVersion: v1\nkind: ConfigMap\nmetadata:\n  name: local-registry-hosting\n  namespace: kube-public\ndata:\n  localRegistryHosting.v1: |\n    host: \"localhost:5001\"\n    help: \"https://kind.sigs.k8s.io/docs/user/local-registry/\""
    );
}

#[test]
fn listings() {
    assert_eq!(line(&list_clusters()), "kind get clusters");
    assert_eq!(line(&list_registries("reg")), "docker ps -f name=reg --format {{.Names}}");
    assert!(has_cluster("hubify", b"kind\nhubify\n"));
    assert!(!has_cluster("hubify", b"hubify2\n"));
    assert!(has_registry_name("registry", b"registry\n"));
    assert!(!has_registry_name("registry", b"other-registry\n"));
}

#[test]
fn full_cluster_setup() {
    let setup = create_cluster("dev", "reg", "5001");
    let (setup, a) = setup.step(&Event::Start);
    match a {
        Action::Capture(c) => assert_eq!(line(&c), "docker ps -f name=reg --format {{.Names}}"),
        _ => panic!("expected the registry listing"),
    }
    let (setup, a) = setup.step(&Event::Output(b"other\n".to_vec()));
    match a {
        Action::Run(c) => {
            assert_eq!(line(&c), "docker run -d -p 5001:5000 --restart=always --name=reg registry:2");
            assert!(c.stdin.is_none());
        }
        _ => panic!("expected the registry start"),
    }
    let (setup, a) = setup.step(&Event::Exited);
    match a {
        Action::Capture(c) => assert_eq!(line(&c), "kind get clusters"),
        _ => panic!("expected the cluster listing"),
    }
    let (setup, a) = setup.step(&Event::Output(b"kind\n".to_vec()));
    match a {
        Action::Run(c) => {
            assert_eq!(line(&c), "kind create cluster --name dev --config=-");
            assert_eq!(c.stdin, Some(kind_config("reg", "5001")));
        }
        _ => panic!("expected the cluster creation"),
    }
    let (setup, a) = setup.step(&Event::Exited);
    match a {
        Action::Run(c) => {
            assert_eq!(line(&c), "kubectl apply -f -");
            assert_eq!(c.stdin, Some(generate_config_map("5001")));
        }
        _ => panic!("expected the config map"),
    }
    let (setup, a) = setup.step(&Event::Exited);
    match a {
        Action::Run(c) => assert_eq!(line(&c), "docker network connect kind reg"),
        _ => panic!("expected the network connection"),
    }
    let (setup, a) = setup.step(&Event::Exited);
    assert!(matches!(a, Action::Finish(Ok(()))));
    assert_eq!(setup.stage, SetupStage::Finished);
}

#[test]
fn existing_registry_and_cluster_are_kept() {
    let setup = parse(Scripts::CreateCluster {
        name: "tenement".to_string(),
        registry_name: "registry".to_string(),
        registry_port: "5000".to_string(),
    });
    let (setup, _) = setup.step(&Event::Start);
    let (setup, a) = setup.step(&Event::Output(b"registry\n".to_vec()));
    assert!(matches!(a, Action::Capture(_)));
    assert_eq!(setup.stage, SetupStage::ListingClusters);
    let (setup, a) = setup.step(&Event::Output(b"tenement\n".to_vec()));
    assert!(matches!(a, Action::Finish(Ok(()))));
    assert_eq!(setup.stage, SetupStage::Finished);
}

#[test]
fn unexpected_report_repeats_the_request() {
    let setup = create_cluster("dev", "reg", "5001");
    let (setup, _) = setup.step(&Event::Start);
    let (setup, a) = setup.step(&Event::Exited);
    assert_eq!(setup.stage, SetupStage::ListingRegistry);
    assert!(matches!(a, Action::Capture(_)));
}

#[test]
fn watch_with_cluster_runs_tilt() {
    let w = watch(WatchArgs::Tilt);
    let (w, a) = w.step(&Event::Start);
    assert!(matches!(a, Action::Capture(_)));
    let (w, a) = w.step(&Event::Output(b"hubify\n".to_vec()));
    match a {
        Action::CheckFile(p) => assert_eq!(p, "./Tiltfile"),
        _ => panic!("expected the Tilt file check"),
    }
    let (w, a) = w.step(&Event::FileChecked(true));
    match a {
        Action::Run(c) => assert_eq!(line(&c), "tilt up -f ./Tiltfile"),
        _ => panic!("expected Tilt"),
    }
    let (w, a) = w.step(&Event::Exited);
    assert!(matches!(a, Action::Finish(Ok(()))));
    assert!(matches!(w.stage, WatchStage::Finished(Ok(()))));
}

#[test]
fn watch_without_tiltfile_fails() {
    let w = watch(WatchArgs::Tilt);
    let (w, _) = w.step(&Event::Start);
    let (w, _) = w.step(&Event::Output(b"hubify\n".to_vec()));
    let (_, a) = w.step(&Event::FileChecked(false));
    match a {
        Action::Finish(Err(e)) => {
            assert!(matches!(e, XtaskError::TiltfileNotFound));
            assert_eq!(e.message(), "Tiltfile not found");
        }
        _ => panic!("expected the failure"),
    }
}

#[test]
fn watch_without_cluster_sets_it_up() {
    let w = watch(WatchArgs::Tilt);
    let (w, _) = w.step(&Event::Start);
    let (w, a) = w.step(&Event::Output(b"other\n".to_vec()));
    match a {
        Action::Capture(c) => assert_eq!(line(&c), "docker ps -f name=registry --format {{.Names}}"),
        _ => panic!("expected the registry listing"),
    }
    let (w, _) = w.step(&Event::Output(b"registry\n".to_vec()));
    let (w, a) = w.step(&Event::Output(b"".to_vec()));
    match a {
        Action::Run(c) => assert_eq!(line(&c), "kind create cluster --name hubify --config=-"),
        _ => panic!("expected the cluster creation"),
    }
    let (w, _) = w.step(&Event::Exited);
    let (w, _) = w.step(&Event::Exited);
    let (_, a) = w.step(&Event::Exited);
    match a {
        Action::CheckFile(p) => assert_eq!(p, "./Tiltfile"),
        _ => panic!("expected the Tilt file check"),
    }
}

#[test]
fn failed_listing_ends_the_setup() {
    let setup = create_cluster("dev", "reg", "5001");
    let (setup, _) = setup.step(&Event::Start);
    let (setup, a) = setup.step(&Event::Failed("No such file or directory".to_string()));
    assert_eq!(setup.stage, SetupStage::Failed);
    match a {
        Action::Finish(Err(e)) => {
            assert!(matches!(&e, XtaskError::CommandFailed(m) if m == "No such file or directory"));
            assert_eq!(e.message(), "No such file or directory");
        }
        _ => panic!("expected the failure"),
    }
    let (setup, a) = setup.step(&Event::Exited);
    assert_eq!(setup.stage, SetupStage::Failed);
    assert!(matches!(a, Action::Finish(Err(XtaskError::CommandFailed(_)))));
}

#[test]
fn failed_cluster_creation_ends_the_setup() {
    let setup = create_cluster("dev", "reg", "5001");
    let (setup, _) = setup.step(&Event::Start);
    let (setup, _) = setup.step(&Event::Output(b"reg\n".to_vec()));
    let (setup, a) = setup.step(&Event::Output(b"".to_vec()));
    assert!(matches!(a, Action::Run(_)));
    let (setup, a) = setup.step(&Event::Failed("kind failed".to_string()));
    assert_eq!(setup.stage, SetupStage::Failed);
    assert_eq!(setup.failure, "kind failed");
    assert!(matches!(a, Action::Finish(Err(XtaskError::CommandFailed(m))) if m == "kind failed"));
}

#[test]
fn failed_commands_end_watching() {
    let w = watch(WatchArgs::Tilt);
    let (w, _) = w.step(&Event::Start);
    let (w, a) = w.step(&Event::Failed("kind missing".to_string()));
    assert!(matches!(a, Action::Finish(Err(XtaskError::CommandFailed(ref m))) if m == "kind missing"));
    let (_, a) = w.step(&Event::Exited);
    assert!(matches!(a, Action::Finish(Err(XtaskError::CommandFailed(_)))));

    let w = watch(WatchArgs::Tilt);
    let (w, _) = w.step(&Event::Start);
    let (w, _) = w.step(&Event::Output(b"other\n".to_vec()));
    let (w, a) = w.step(&Event::Failed("docker missing".to_string()));
    assert!(matches!(w.stage, WatchStage::Finished(Err(XtaskError::CommandFailed(_)))));
    assert!(matches!(a, Action::Finish(Err(XtaskError::CommandFailed(m))) if m == "docker missing"));

    let w = watch(WatchArgs::Tilt);
    let (w, _) = w.step(&Event::Start);
    let (w, _) = w.step(&Event::Output(b"hubify\n".to_vec()));
    let (w, _) = w.step(&Event::FileChecked(true));
    let (_, a) = w.step(&Event::Failed("tilt crashed".to_string()));
    assert!(matches!(a, Action::Finish(Err(XtaskError::CommandFailed(m))) if m == "tilt crashed"));
}
