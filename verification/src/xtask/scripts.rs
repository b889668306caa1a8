//! The creation of a local kind cluster with a container registry: the registry is
//! started unless it runs already; the cluster is created unless it exists, told to
//! pull from the registry, given the config map that announces the registry, and
//! connected to the registry's network.
use crate::text::{has_line, push_str};
use crate::xtask::process::{Action, ActionView, CommandLine, CommandLineView, Event, EventView, XtaskError, XtaskErrorView};
use crate::xtask::utils::{cluster_listing, has_cluster, has_registry_name, list_clusters, list_registries, registry_listing};
use vstd::prelude::*;
use vstd::utf8::encode_utf8;

verus! {

/// The kind configuration of the cluster: containerd mirrors `localhost:<port>` from
/// the registry's host.
pub open spec fn kind_config_text(registry_host: Seq<char>, registry_port: Seq<char>) -> Seq<char> {
    "kind: Cluster\napiVersion: kind.x-k8s.io/v1alpha4\ncontainerdConfigPatches:\n- |-\n  [plugins.\"io.containerd.grpc.v1.cri\".registry.mirrors.\"localhost:"@
        + registry_port + "\"]\n    endpoint = [\"http://"@ + registry_host + ":5000\"]"@
}

/// Whatever port the registry is published on, the cluster reaches the registry at
/// port 5000 of its host, where the registry container listens: the configuration ends
/// with the mirror endpoint "http://<host>:5000"; the port shows only in the mirrored
/// name "localhost:<port>".
pub proof fn lemma_mirror_endpoint_ignores_published_port(host: Seq<char>, port: Seq<char>)
    ensures
        exists|head: Seq<char>| kind_config_text(host, port) == head + "    endpoint = [\"http://"@ + host + ":5000\"]"@,
        exists|before: Seq<char>, after: Seq<char>|
            kind_config_text(host, port) == before + "localhost:"@ + port + after,
{
    reveal_strlit("kind: Cluster\napiVersion: kind.x-k8s.io/v1alpha4\ncontainerdConfigPatches:\n- |-\n  [plugins.\"io.containerd.grpc.v1.cri\".registry.mirrors.\"localhost:");
    reveal_strlit("\"]\n    endpoint = [\"http://");
    reveal_strlit("    endpoint = [\"http://");
    reveal_strlit(":5000\"]");
    reveal_strlit("\"]\n");
    reveal_strlit("localhost:");
    let start = "kind: Cluster\napiVersion: kind.x-k8s.io/v1alpha4\ncontainerdConfigPatches:\n- |-\n  [plugins.\"io.containerd.grpc.v1.cri\".registry.mirrors.\"localhost:"@;
    let middle = "\"]\n    endpoint = [\"http://"@;
    let tail = ":5000\"]"@;
    let head = start + port + "\"]\n"@;
    assert(middle =~= "\"]\n"@ + "    endpoint = [\"http://"@);
    assert(kind_config_text(host, port) =~= head + "    endpoint = [\"http://"@ + host + tail);
    let before = start.subrange(0, start.len() - 10);
    assert(start =~= before + "localhost:"@);
    assert(kind_config_text(host, port) =~= before + "localhost:"@ + port + (middle + host + tail));
}

/// The config map that announces the local registry to the cluster.
pub open spec fn config_map_text(registry_port: Seq<char>) -> Seq<char> {
    "apiVersion: v1\nkind: ConfigMap\nmetadata:\n  name: local-registry-hosting\n  namespace: kube-public\ndata:\n  localRegistryHosting.v1: |\n    host: \"localhost:"@
        + registry_port + "\"\n    help: \"https://kind.sigs.k8s.io/docs/user/local-registry/\""@
}

/// The kind configuration of the cluster.
pub fn kind_config(registry_host: &str, registry_port: &str) -> (text: String)
    ensures
        text@ == kind_config_text(registry_host@, registry_port@),
{
    String::from_str(
        "kind: Cluster\napiVersion: kind.x-k8s.io/v1alpha4\ncontainerdConfigPatches:\n- |-\n  [plugins.\"io.containerd.grpc.v1.cri\".registry.mirrors.\"localhost:",
    ).concat(registry_port).concat("\"]\n    endpoint = [\"http://").concat(registry_host).concat(
        ":5000\"]",
    )
}

/// The config map that announces the local registry.
pub fn generate_config_map(registry_port: &str) -> (text: String)
    ensures
        text@ == config_map_text(registry_port@),
{
    String::from_str(
        "apiVersion: v1\nkind: ConfigMap\nmetadata:\n  name: local-registry-hosting\n  namespace: kube-public\ndata:\n  localRegistryHosting.v1: |\n    host: \"localhost:",
    ).concat(registry_port).concat(
        "\"\n    help: \"https://kind.sigs.k8s.io/docs/user/local-registry/\"",
    )
}

/// The scripts of the development tasks.
#[derive(Debug)]
pub enum Scripts {
    /// Create a kind cluster and a container registry.
    CreateCluster { name: String, registry_name: String, registry_port: String },
}

/// The command that starts the registry, published on the port.
pub open spec fn registry_start(registry_name: Seq<char>, registry_port: Seq<char>) -> CommandLineView {
    CommandLineView {
        program: "docker"@,
        args: seq![
            "run"@,
            "-d"@,
            "-p"@,
            registry_port + ":5000"@,
            "--restart=always"@,
            "--name="@ + registry_name,
            "registry:2"@,
        ],
        stdin: None,
    }
}

/// The command that creates the cluster from the configuration on its standard input.
pub open spec fn cluster_creation(name: Seq<char>, registry_name: Seq<char>, registry_port: Seq<char>) -> CommandLineView {
    CommandLineView {
        program: "kind"@,
        args: seq!["create"@, "cluster"@, "--name"@, name, "--config=-"@],
        stdin: Some(kind_config_text(registry_name, registry_port)),
    }
}

/// The command that applies the registry's config map from its standard input.
pub open spec fn config_map_apply(registry_port: Seq<char>) -> CommandLineView {
    CommandLineView {
        program: "kubectl"@,
        args: seq!["apply"@, "-f"@, "-"@],
        stdin: Some(config_map_text(registry_port)),
    }
}

/// The command that connects the registry to the cluster's network.
pub open spec fn network_connect(registry_name: Seq<char>) -> CommandLineView {
    CommandLineView {
        program: "docker"@,
        args: seq!["network"@, "connect"@, "kind"@, registry_name],
        stdin: None,
    }
}

/// How far the creation of the cluster has gone.
#[derive(Debug, Clone, Copy, PartialEq, Eq, Structural)]
pub enum SetupStage {
    Start,
    ListingRegistry,
    StartingRegistry,
    ListingClusters,
    CreatingCluster,
    ApplyingConfigMap,
    ConnectingNetwork,
    Finished,
    /// A command failed; the setup is over with that failure.
    Failed,
}

/// The creation of a cluster, as far as it has gone.
#[derive(Debug)]
pub struct ClusterSetup {
    pub name: String,
    pub registry_name: String,
    pub registry_port: String,
    pub stage: SetupStage,
    /// Why a command failed, once one has (empty before).
    pub failure: String,
}

#[verifier::ext_equal]
pub struct ClusterSetupView {
    pub name: Seq<char>,
    pub registry_name: Seq<char>,
    pub registry_port: Seq<char>,
    pub stage: SetupStage,
    pub failure: Seq<char>,
}

impl DeepView for ClusterSetup {
    type V = ClusterSetupView;

    open spec fn deep_view(&self) -> ClusterSetupView {
        ClusterSetupView {
            name: self.name@,
            registry_name: self.registry_name@,
            registry_port: self.registry_port@,
            stage: self.stage,
            failure: self.failure@,
        }
    }
}

/// The setup at another stage.
pub open spec fn at_stage(s: ClusterSetupView, stage: SetupStage) -> ClusterSetupView {
    ClusterSetupView { stage, ..s }
}

/// What the setup waits on at its stage: the action that led there.
pub open spec fn pending_action(s: ClusterSetupView) -> ActionView {
    match s.stage {
        SetupStage::Start => ActionView::Capture(registry_listing(s.registry_name)),
        SetupStage::ListingRegistry => ActionView::Capture(registry_listing(s.registry_name)),
        SetupStage::StartingRegistry => ActionView::Run(registry_start(s.registry_name, s.registry_port)),
        SetupStage::ListingClusters => ActionView::Capture(cluster_listing()),
        SetupStage::CreatingCluster => ActionView::Run(
            cluster_creation(s.name, s.registry_name, s.registry_port),
        ),
        SetupStage::ApplyingConfigMap => ActionView::Run(config_map_apply(s.registry_port)),
        SetupStage::ConnectingNetwork => ActionView::Run(network_connect(s.registry_name)),
        SetupStage::Finished => ActionView::Finish(Ok(())),
        SetupStage::Failed => ActionView::Finish(Err(XtaskErrorView::CommandFailed(s.failure))),
    }
}

/// Whether the setup waits on a command at its stage.
pub open spec fn waits_on_command(stage: SetupStage) -> bool {
    !(stage is Start || stage is Finished || stage is Failed)
}

/// The setup ended by a failed command.
pub open spec fn failed_setup(s: ClusterSetupView, failure: Seq<char>) -> ClusterSetupView {
    ClusterSetupView { stage: SetupStage::Failed, failure, ..s }
}

/// One step of the setup: the next stage and the action that it asks for. A failed
/// command ends the setup with its failure. An event that the stage does not wait on
/// leaves the stage as it is and asks again for what it waits on.
pub open spec fn setup_step(s: ClusterSetupView, e: EventView) -> (ClusterSetupView, ActionView) {
    if waits_on_command(s.stage) && e is Failed {
        (failed_setup(s, e->Failed_0), pending_action(failed_setup(s, e->Failed_0)))
    } else {
        setup_progress(s, e)
    }
}

/// A step of the setup on an event other than a failure of the awaited command.
pub open spec fn setup_progress(s: ClusterSetupView, e: EventView) -> (ClusterSetupView, ActionView) {
    let next = match (s.stage, e) {
        (SetupStage::Start, _) => Some(SetupStage::ListingRegistry),
        (SetupStage::ListingRegistry, EventView::Output(listing)) => if has_line(
            listing,
            encode_utf8(s.registry_name),
        ) {
            Some(SetupStage::ListingClusters)
        } else {
            Some(SetupStage::StartingRegistry)
        },
        (SetupStage::StartingRegistry, EventView::Exited) => Some(SetupStage::ListingClusters),
        (SetupStage::ListingClusters, EventView::Output(listing)) => if has_line(
            listing,
            encode_utf8(s.name),
        ) {
            Some(SetupStage::Finished)
        } else {
            Some(SetupStage::CreatingCluster)
        },
        (SetupStage::CreatingCluster, EventView::Exited) => Some(SetupStage::ApplyingConfigMap),
        (SetupStage::ApplyingConfigMap, EventView::Exited) => Some(SetupStage::ConnectingNetwork),
        (SetupStage::ConnectingNetwork, EventView::Exited) => Some(SetupStage::Finished),
        _ => None,
    };
    match next {
        Some(stage) => (at_stage(s, stage), pending_action(at_stage(s, stage))),
        None => (s, pending_action(s)),
    }
}

/// The actions that a run of the setup asks for, event by event.
pub open spec fn setup_actions(s: ClusterSetupView, events: Seq<EventView>) -> Seq<ActionView>
    decreases events.len(),
{
    if events.len() == 0 {
        Seq::empty()
    } else {
        let (next, action) = setup_step(s, events[0]);
        seq![action] + setup_actions(next, events.drop_first())
    }
}

/// The setup of a cluster, before its first step.
pub fn create_cluster(name: &str, registry_name: &str, registry_port: &str) -> (s: ClusterSetup)
    ensures
        s.deep_view() == (ClusterSetupView {
            name: name@,
            registry_name: registry_name@,
            registry_port: registry_port@,
            stage: SetupStage::Start,
            failure: Seq::<char>::empty(),
        }),
{
    ClusterSetup {
        name: String::from_str(name),
        registry_name: String::from_str(registry_name),
        registry_port: String::from_str(registry_port),
        stage: SetupStage::Start,
        failure: String::new(),
    }
}

/// The setup that a script asks for.
pub fn parse(args: Scripts) -> (s: ClusterSetup)
    ensures
        match args {
            Scripts::CreateCluster { name, registry_name, registry_port } => s.deep_view() == (
            ClusterSetupView {
                name: name@,
                registry_name: registry_name@,
                registry_port: registry_port@,
                stage: SetupStage::Start,
                failure: Seq::<char>::empty(),
            }),
        },
{
    match args {
        Scripts::CreateCluster { name, registry_name, registry_port } => create_cluster(
            name.as_str(),
            registry_name.as_str(),
            registry_port.as_str(),
        ),
    }
}

fn start_registry(registry_name: &str, registry_port: &str) -> (c: CommandLine)
    ensures
        c.deep_view() == registry_start(registry_name@, registry_port@),
{
    let mut args: Vec<String> = Vec::new();
    push_str(&mut args, "run");
    push_str(&mut args, "-d");
    push_str(&mut args, "-p");
    let published = String::from_str(registry_port).concat(":5000");
    let ghost before = args.deep_view();
    args.push(published);
    assert(args.deep_view() =~= before.push(registry_port@ + ":5000"@));
    push_str(&mut args, "--restart=always");
    let named = String::from_str("--name=").concat(registry_name);
    let ghost before2 = args.deep_view();
    args.push(named);
    assert(args.deep_view() =~= before2.push("--name="@ + registry_name@));
    push_str(&mut args, "registry:2");
    let c = CommandLine { program: String::from_str("docker"), args, stdin: None };
    assert(c.deep_view().args =~= registry_start(registry_name@, registry_port@).args);
    c
}

fn create_kind_cluster(name: &str, registry_name: &str, registry_port: &str) -> (c: CommandLine)
    ensures
        c.deep_view() == cluster_creation(name@, registry_name@, registry_port@),
{
    let mut args: Vec<String> = Vec::new();
    push_str(&mut args, "create");
    push_str(&mut args, "cluster");
    push_str(&mut args, "--name");
    push_str(&mut args, name);
    push_str(&mut args, "--config=-");
    let c = CommandLine {
        program: String::from_str("kind"),
        args,
        stdin: Some(kind_config(registry_name, registry_port)),
    };
    assert(c.deep_view().args =~= cluster_creation(name@, registry_name@, registry_port@).args);
    c
}

fn apply_config_map(registry_port: &str) -> (c: CommandLine)
    ensures
        c.deep_view() == config_map_apply(registry_port@),
{
    let mut args: Vec<String> = Vec::new();
    push_str(&mut args, "apply");
    push_str(&mut args, "-f");
    push_str(&mut args, "-");
    let c = CommandLine {
        program: String::from_str("kubectl"),
        args,
        stdin: Some(generate_config_map(registry_port)),
    };
    assert(c.deep_view().args =~= config_map_apply(registry_port@).args);
    c
}

fn connect_network(registry_name: &str) -> (c: CommandLine)
    ensures
        c.deep_view() == network_connect(registry_name@),
{
    let mut args: Vec<String> = Vec::new();
    push_str(&mut args, "network");
    push_str(&mut args, "connect");
    push_str(&mut args, "kind");
    push_str(&mut args, registry_name);
    let c = CommandLine { program: String::from_str("docker"), args, stdin: None };
    assert(c.deep_view().args =~= network_connect(registry_name@).args);
    c
}

impl ClusterSetup {
    /// What the setup waits on at its stage.
    pub fn pending(&self) -> (a: Action)
        ensures
            a.deep_view() == pending_action(self.deep_view()),
    {
        match self.stage {
            SetupStage::Start => Action::Capture(list_registries(self.registry_name.as_str())),
            SetupStage::ListingRegistry => Action::Capture(list_registries(self.registry_name.as_str())),
            SetupStage::StartingRegistry => Action::Run(
                start_registry(self.registry_name.as_str(), self.registry_port.as_str()),
            ),
            SetupStage::ListingClusters => Action::Capture(list_clusters()),
            SetupStage::CreatingCluster => Action::Run(
                create_kind_cluster(
                    self.name.as_str(),
                    self.registry_name.as_str(),
                    self.registry_port.as_str(),
                ),
            ),
            SetupStage::ApplyingConfigMap => Action::Run(apply_config_map(self.registry_port.as_str())),
            SetupStage::ConnectingNetwork => Action::Run(connect_network(self.registry_name.as_str())),
            SetupStage::Finished => Action::Finish(Ok(())),
            SetupStage::Failed => Action::Finish(Err(XtaskError::CommandFailed(self.failure.clone()))),
        }
    }

    /// Takes one step on what the runner reported: the setup moves to its next stage
    /// and asks for the next action.
    pub fn step(self, event: &Event) -> (r: (ClusterSetup, Action))
        ensures
            (r.0.deep_view(), r.1.deep_view()) == setup_step(self.deep_view(), event.deep_view()),
    {
        let waiting = match self.stage {
            SetupStage::Start | SetupStage::Finished | SetupStage::Failed => false,
            _ => true,
        };
        if waiting {
            if let Event::Failed(m) = event {
                let s = ClusterSetup { stage: SetupStage::Failed, failure: m.clone(), ..self };
                let action = s.pending();
                return (s, action);
            }
        }
        let next = match (self.stage, event) {
            (SetupStage::Start, _) => Some(SetupStage::ListingRegistry),
            (SetupStage::ListingRegistry, Event::Output(listing)) => {
                if has_registry_name(self.registry_name.as_str(), listing.as_slice()) {
                    Some(SetupStage::ListingClusters)
                } else {
                    Some(SetupStage::StartingRegistry)
                }
            },
            (SetupStage::StartingRegistry, Event::Exited) => Some(SetupStage::ListingClusters),
            (SetupStage::ListingClusters, Event::Output(listing)) => {
                if has_cluster(self.name.as_str(), listing.as_slice()) {
                    Some(SetupStage::Finished)
                } else {
                    Some(SetupStage::CreatingCluster)
                }
            },
            (SetupStage::CreatingCluster, Event::Exited) => Some(SetupStage::ApplyingConfigMap),
            (SetupStage::ApplyingConfigMap, Event::Exited) => Some(SetupStage::ConnectingNetwork),
            (SetupStage::ConnectingNetwork, Event::Exited) => Some(SetupStage::Finished),
            _ => None,
        };
        let s = match next {
            Some(stage) => ClusterSetup { stage, ..self },
            None => self,
        };
        let action = s.pending();
        (s, action)
    }
}

/// A cluster that is listed already is left alone: the setup ends right after the
/// listing, asking for nothing more.
pub proof fn lemma_existing_cluster_is_kept(s: ClusterSetupView, listing: Seq<u8>)
    requires
        s.stage == SetupStage::ListingClusters,
        has_line(listing, encode_utf8(s.name)),
    ensures
        setup_step(s, EventView::Output(listing)).0.stage == SetupStage::Finished,
        setup_step(s, EventView::Output(listing)).1 == ActionView::Finish(Ok(())),
{
}

/// The registry is started exactly when the listing of containers lacks it.
pub proof fn lemma_registry_started_only_when_missing(s: ClusterSetupView, listing: Seq<u8>)
    requires
        s.stage == SetupStage::ListingRegistry,
    ensures
        (setup_step(s, EventView::Output(listing)).1 == ActionView::Run(
            registry_start(s.registry_name, s.registry_port),
        )) <==> !has_line(listing, encode_utf8(s.registry_name)),
{
    let r = setup_step(s, EventView::Output(listing));
    if has_line(listing, encode_utf8(s.registry_name)) {
        assert(r.1 == ActionView::Capture(cluster_listing()));
    }
}

/// Once finished, the setup stays finished, whatever is reported.
pub proof fn lemma_finished_setup_stays_finished(s: ClusterSetupView, e: EventView)
    requires
        s.stage == SetupStage::Finished,
    ensures
        setup_step(s, e) == (s, ActionView::Finish(Ok(()))),
{
}

/// The commands of the setup carry its settings: the registry container is named after
/// the registry and publishes the given port onto the registry's port 5000; the cluster is
/// created under its name from the kind configuration of the registry's host and port;
/// the config map announces the given port; and it is the registry that joins the
/// cluster's network.
pub proof fn lemma_commands_carry_settings(name: Seq<char>, registry: Seq<char>, port: Seq<char>)
    ensures
        registry_start(registry, port).program == "docker"@,
        registry_start(registry, port).args.contains(port + ":5000"@),
        registry_start(registry, port).args.contains("--name="@ + registry),
        cluster_creation(name, registry, port).program == "kind"@,
        cluster_creation(name, registry, port).args.contains(name),
        cluster_creation(name, registry, port).stdin == Some(kind_config_text(registry, port)),
        config_map_apply(port).stdin == Some(config_map_text(port)),
        network_connect(registry).args.last() == registry,
{
    assert(registry_start(registry, port).args[3] == port + ":5000"@);
    assert(registry_start(registry, port).args[5] == "--name="@ + registry);
    assert(cluster_creation(name, registry, port).args[3] == name);
}

/// A command that fails ends the setup with its failure, and nothing is asked for after
/// it: every later step repeats the same outcome.
pub proof fn lemma_failed_command_ends_setup(s: ClusterSetupView, failure: Seq<char>, later: EventView)
    requires
        waits_on_command(s.stage),
    ensures
        setup_step(s, EventView::Failed(failure)).1 == ActionView::Finish(
            Err(XtaskErrorView::CommandFailed(failure)),
        ),
        setup_step(setup_step(s, EventView::Failed(failure)).0, later) == (
            setup_step(s, EventView::Failed(failure)).0,
            ActionView::Finish(Err(XtaskErrorView::CommandFailed(failure))),
        ),
{
}

/// A run on a machine with neither the registry nor the cluster: the registry is
/// started, the cluster created with the kind configuration, the registry's config map
/// applied, the registry connected to the cluster's network, in that order.
pub proof fn lemma_full_setup_run(
    name: Seq<char>,
    registry_name: Seq<char>,
    registry_port: Seq<char>,
    registries: Seq<u8>,
    clusters: Seq<u8>,
)
    requires
        !has_line(registries, encode_utf8(registry_name)),
        !has_line(clusters, encode_utf8(name)),
    ensures
        setup_actions(
            ClusterSetupView {
                name,
                registry_name,
                registry_port,
                stage: SetupStage::Start,
                failure: Seq::<char>::empty(),
            },
            seq![
                EventView::Start,
                EventView::Output(registries),
                EventView::Exited,
                EventView::Output(clusters),
                EventView::Exited,
                EventView::Exited,
                EventView::Exited,
            ],
        ) == seq![
            ActionView::Capture(registry_listing(registry_name)),
            ActionView::Run(registry_start(registry_name, registry_port)),
            ActionView::Capture(cluster_listing()),
            ActionView::Run(cluster_creation(name, registry_name, registry_port)),
            ActionView::Run(config_map_apply(registry_port)),
            ActionView::Run(network_connect(registry_name)),
            ActionView::Finish(Ok(())),
        ],
{
    let s0 = ClusterSetupView {
        name,
        registry_name,
        registry_port,
        stage: SetupStage::Start,
        failure: Seq::<char>::empty(),
    };
    let events = seq![
        EventView::Start,
        EventView::Output(registries),
        EventView::Exited,
        EventView::Output(clusters),
        EventView::Exited,
        EventView::Exited,
        EventView::Exited,
    ];
    let s1 = at_stage(s0, SetupStage::ListingRegistry);
    let s2 = at_stage(s0, SetupStage::StartingRegistry);
    let s3 = at_stage(s0, SetupStage::ListingClusters);
    let s4 = at_stage(s0, SetupStage::CreatingCluster);
    let s5 = at_stage(s0, SetupStage::ApplyingConfigMap);
    let s6 = at_stage(s0, SetupStage::ConnectingNetwork);
    let s7 = at_stage(s0, SetupStage::Finished);
    assert(setup_actions(s7, events.skip(7)) == Seq::<ActionView>::empty());
    assert(events.skip(6).drop_first() =~= events.skip(7));
    assert(events.skip(5).drop_first() =~= events.skip(6));
    assert(events.skip(4).drop_first() =~= events.skip(5));
    assert(events.skip(3).drop_first() =~= events.skip(4));
    assert(events.skip(2).drop_first() =~= events.skip(3));
    assert(events.skip(1).drop_first() =~= events.skip(2));
    assert(events.drop_first() =~= events.skip(1));
    assert(setup_actions(s6, events.skip(6)) =~= seq![ActionView::Finish(Ok(()))]);
    assert(setup_actions(s5, events.skip(5)) =~= seq![
        ActionView::Run(network_connect(registry_name)),
        ActionView::Finish(Ok(())),
    ]);
    assert(setup_actions(s4, events.skip(4)) =~= seq![
        ActionView::Run(config_map_apply(registry_port)),
        ActionView::Run(network_connect(registry_name)),
        ActionView::Finish(Ok(())),
    ]);
    assert(setup_actions(s3, events.skip(3)) =~= seq![
        ActionView::Run(cluster_creation(name, registry_name, registry_port)),
        ActionView::Run(config_map_apply(registry_port)),
        ActionView::Run(network_connect(registry_name)),
        ActionView::Finish(Ok(())),
    ]);
    assert(setup_actions(s2, events.skip(2)) =~= seq![
        ActionView::Capture(cluster_listing()),
        ActionView::Run(cluster_creation(name, registry_name, registry_port)),
        ActionView::Run(config_map_apply(registry_port)),
        ActionView::Run(network_connect(registry_name)),
        ActionView::Finish(Ok(())),
    ]);
    assert(setup_actions(s1, events.skip(1)) =~= seq![
        ActionView::Run(registry_start(registry_name, registry_port)),
        ActionView::Capture(cluster_listing()),
        ActionView::Run(cluster_creation(name, registry_name, registry_port)),
        ActionView::Run(config_map_apply(registry_port)),
        ActionView::Run(network_connect(registry_name)),
        ActionView::Finish(Ok(())),
    ]);
}

} // verus!
