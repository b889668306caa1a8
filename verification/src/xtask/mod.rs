//! The development tasks: watching the project under Tilt on a local kind cluster,
//! and the scripts that prepare the cluster.
use crate::text::{has_line, push_str};
use crate::xtask::process::{
    copy_outcome, outcome_view, Action, ActionView, CommandLine, CommandLineView, Event, EventView,
    XtaskError, XtaskErrorView,
};
use crate::xtask::scripts::{
    create_cluster, setup_step, waits_on_command, ClusterSetup, ClusterSetupView, SetupStage,
};
use crate::xtask::utils::{cluster_listing, has_cluster, list_clusters};
use vstd::prelude::*;
use vstd::utf8::encode_utf8;

pub mod process;
pub mod scripts;
pub mod utils;

verus! {

/// What to watch.
#[derive(Debug, Clone, Copy, PartialEq, Eq, Structural)]
pub enum WatchArgs {
    Tilt,
    Web,
}

/// The arguments of a build.
#[derive(Debug)]
pub struct BuildArgs {}

/// The arguments of a deployment.
#[derive(Debug)]
pub struct DeployArgs {}

/// The commands of the tasks.
#[derive(Debug)]
pub enum Cli {
    /// Watch the project.
    Watch { args: WatchArgs },
    /// Build the project.
    Build(BuildArgs),
    Deploy(DeployArgs),
    /// Run scripts.
    Scripts { args: scripts::Scripts },
}

#[derive(Debug)]
pub enum Commands {
    Build(BuildArgs),
    Deploy(DeployArgs),
}

/// The cluster that the project is watched on.
pub open spec fn watched_cluster() -> Seq<char> {
    "hubify"@
}

/// The setup of the watched cluster, with its registry, before its first step.
pub open spec fn watched_setup() -> ClusterSetupView {
    ClusterSetupView {
        name: "hubify"@,
        registry_name: "registry"@,
        registry_port: "5000"@,
        stage: SetupStage::Start,
        failure: Seq::<char>::empty(),
    }
}

/// The Tilt file that describes the project.
pub open spec fn tiltfile() -> Seq<char> {
    "./Tiltfile"@
}

/// The command that runs Tilt on the project.
pub open spec fn tilt_up() -> CommandLineView {
    CommandLineView { program: "tilt"@, args: seq!["up"@, "-f"@, tiltfile()], stdin: None }
}

/// How far watching has gone.
#[derive(Debug)]
pub enum WatchStage {
    Start,
    ListingClusters,
    SettingUp(ClusterSetup),
    CheckingTiltfile,
    RunningTilt,
    Finished(Result<(), XtaskError>),
}

pub enum WatchStageView {
    Start,
    ListingClusters,
    SettingUp(ClusterSetupView),
    CheckingTiltfile,
    RunningTilt,
    Finished(Result<(), XtaskErrorView>),
}

impl DeepView for WatchStage {
    type V = WatchStageView;

    open spec fn deep_view(&self) -> WatchStageView {
        match self {
            WatchStage::Start => WatchStageView::Start,
            WatchStage::ListingClusters => WatchStageView::ListingClusters,
            WatchStage::SettingUp(s) => WatchStageView::SettingUp(s.deep_view()),
            WatchStage::CheckingTiltfile => WatchStageView::CheckingTiltfile,
            WatchStage::RunningTilt => WatchStageView::RunningTilt,
            WatchStage::Finished(r) => WatchStageView::Finished(outcome_view(*r)),
        }
    }
}

/// Watching the project under Tilt, as far as it has gone.
#[derive(Debug)]
pub struct Watch {
    pub stage: WatchStage,
}

/// What watching waits on at its stage: the action that led there.
pub open spec fn watch_pending(w: WatchStageView) -> ActionView {
    match w {
        WatchStageView::Start => ActionView::Capture(cluster_listing()),
        WatchStageView::ListingClusters => ActionView::Capture(cluster_listing()),
        WatchStageView::SettingUp(s) => crate::xtask::scripts::pending_action(s),
        WatchStageView::CheckingTiltfile => ActionView::CheckFile(tiltfile()),
        WatchStageView::RunningTilt => ActionView::Run(tilt_up()),
        WatchStageView::Finished(r) => ActionView::Finish(r),
    }
}

/// The stage after the setup of the cluster took a step: the Tilt file is checked once
/// the setup is over; a failed setup ends watching with its error.
pub open spec fn after_setup(step: (ClusterSetupView, ActionView)) -> (WatchStageView, ActionView) {
    match step.1 {
        ActionView::Finish(Ok(())) => (WatchStageView::CheckingTiltfile, ActionView::CheckFile(tiltfile())),
        ActionView::Finish(Err(e)) => (WatchStageView::Finished(Err(e)), ActionView::Finish(Err(e))),
        _ => (WatchStageView::SettingUp(step.0), step.1),
    }
}

/// Watching ended by a failed command.
pub open spec fn watch_failed(failure: Seq<char>) -> (WatchStageView, ActionView) {
    (
        WatchStageView::Finished(Err(XtaskErrorView::CommandFailed(failure))),
        ActionView::Finish(Err(XtaskErrorView::CommandFailed(failure))),
    )
}

/// One step of watching: the clusters are listed; a missing cluster is set up first;
/// then the Tilt file must exist, and Tilt runs on it. A failed command ends watching
/// with its failure. An event that the stage does not wait on leaves the stage as it is
/// and asks again for what it waits on.
pub open spec fn watch_step(w: WatchStageView, e: EventView) -> (WatchStageView, ActionView) {
    match (w, e) {
        (WatchStageView::ListingClusters, EventView::Failed(m)) => watch_failed(m),
        (WatchStageView::RunningTilt, EventView::Failed(m)) => watch_failed(m),
        (WatchStageView::Start, _) => (
            WatchStageView::ListingClusters,
            ActionView::Capture(cluster_listing()),
        ),
        (WatchStageView::ListingClusters, EventView::Output(listing)) => if has_line(
            listing,
            encode_utf8(watched_cluster()),
        ) {
            (WatchStageView::CheckingTiltfile, ActionView::CheckFile(tiltfile()))
        } else {
            after_setup(setup_step(watched_setup(), EventView::Start))
        },
        (WatchStageView::SettingUp(s), _) => after_setup(setup_step(s, e)),
        (WatchStageView::CheckingTiltfile, EventView::FileChecked(found)) => if found {
            (WatchStageView::RunningTilt, ActionView::Run(tilt_up()))
        } else {
            (
                WatchStageView::Finished(Err(XtaskErrorView::TiltfileNotFound)),
                ActionView::Finish(Err(XtaskErrorView::TiltfileNotFound)),
            )
        },
        (WatchStageView::RunningTilt, EventView::Exited) => (
            WatchStageView::Finished(Ok(())),
            ActionView::Finish(Ok(())),
        ),
        _ => (w, watch_pending(w)),
    }
}

fn run_tilt() -> (c: CommandLine)
    ensures
        c.deep_view() == tilt_up(),
{
    let mut args: Vec<String> = Vec::new();
    push_str(&mut args, "up");
    push_str(&mut args, "-f");
    push_str(&mut args, "./Tiltfile");
    let c = CommandLine { program: String::from_str("tilt"), args, stdin: None };
    assert(c.deep_view().args =~= tilt_up().args);
    c
}

/// Watching the project; only Tilt can be watched (the web front end cannot yet).
pub fn watch(args: WatchArgs) -> (w: Watch)
    requires
        args == WatchArgs::Tilt,
    ensures
        w.stage.deep_view() == WatchStageView::Start,
{
    Watch { stage: WatchStage::Start }
}

impl Watch {
    /// What watching waits on at its stage.
    pub fn pending(&self) -> (a: Action)
        ensures
            a.deep_view() == watch_pending(self.stage.deep_view()),
    {
        match &self.stage {
            WatchStage::Start => Action::Capture(list_clusters()),
            WatchStage::ListingClusters => Action::Capture(list_clusters()),
            WatchStage::SettingUp(s) => s.pending(),
            WatchStage::CheckingTiltfile => Action::CheckFile(String::from_str("./Tiltfile")),
            WatchStage::RunningTilt => Action::Run(run_tilt()),
            WatchStage::Finished(r) => Action::Finish(copy_outcome(r)),
        }
    }

    fn failed(failure: &String) -> (r: (Watch, Action))
        ensures
            (r.0.stage.deep_view(), r.1.deep_view()) == watch_failed(failure@),
    {
        (
            Watch { stage: WatchStage::Finished(Err(XtaskError::CommandFailed(failure.clone()))) },
            Action::Finish(Err(XtaskError::CommandFailed(failure.clone()))),
        )
    }

    fn continue_setup(setup: ClusterSetup, event: &Event) -> (r: (Watch, Action))
        ensures
            (r.0.stage.deep_view(), r.1.deep_view()) == after_setup(
                setup_step(setup.deep_view(), event.deep_view()),
            ),
    {
        let (next, action) = setup.step(event);
        match action {
            Action::Finish(Ok(())) => (
                Watch { stage: WatchStage::CheckingTiltfile },
                Action::CheckFile(String::from_str("./Tiltfile")),
            ),
            Action::Finish(Err(e)) => {
                let outcome = Err(e);
                let copy = copy_outcome(&outcome);
                (Watch { stage: WatchStage::Finished(copy) }, Action::Finish(outcome))
            },
            _ => (Watch { stage: WatchStage::SettingUp(next) }, action),
        }
    }

    /// Takes one step on what the runner reported.
    pub fn step(self, event: &Event) -> (r: (Watch, Action))
        ensures
            (r.0.stage.deep_view(), r.1.deep_view()) == watch_step(
                self.stage.deep_view(),
                event.deep_view(),
            ),
    {
        match (self.stage, event) {
            (WatchStage::ListingClusters, Event::Failed(m)) => Watch::failed(m),
            (WatchStage::RunningTilt, Event::Failed(m)) => Watch::failed(m),
            (WatchStage::Start, _) => (
                Watch { stage: WatchStage::ListingClusters },
                Action::Capture(list_clusters()),
            ),
            (WatchStage::ListingClusters, Event::Output(listing)) => {
                if has_cluster("hubify", listing.as_slice()) {
                    (
                        Watch { stage: WatchStage::CheckingTiltfile },
                        Action::CheckFile(String::from_str("./Tiltfile")),
                    )
                } else {
                    let setup = create_cluster("hubify", "registry", "5000");
                    Watch::continue_setup(setup, &Event::Start)
                }
            },
            (WatchStage::SettingUp(s), _) => Watch::continue_setup(s, event),
            (WatchStage::CheckingTiltfile, Event::FileChecked(found)) => {
                if *found {
                    (Watch { stage: WatchStage::RunningTilt }, Action::Run(run_tilt()))
                } else {
                    (
                        Watch { stage: WatchStage::Finished(Err(XtaskError::TiltfileNotFound)) },
                        Action::Finish(Err(XtaskError::TiltfileNotFound)),
                    )
                }
            },
            (WatchStage::RunningTilt, Event::Exited) => (
                Watch { stage: WatchStage::Finished(Ok(())) },
                Action::Finish(Ok(())),
            ),
            (stage, _) => {
                let w = Watch { stage };
                let a = w.pending();
                (w, a)
            },
        }
    }
}

/// Without the Tilt file, watching fails with its error and runs nothing.
pub proof fn lemma_missing_tiltfile_fails()
    ensures
        watch_step(WatchStageView::CheckingTiltfile, EventView::FileChecked(false)).1
            == ActionView::Finish(Err(XtaskErrorView::TiltfileNotFound)),
{
}

/// When the watched cluster is listed, no cluster is set up: the Tilt file is checked
/// next.
pub proof fn lemma_listed_cluster_skips_setup(listing: Seq<u8>)
    requires
        has_line(listing, encode_utf8(watched_cluster())),
    ensures
        watch_step(WatchStageView::ListingClusters, EventView::Output(listing)) == (
            WatchStageView::CheckingTiltfile,
            ActionView::CheckFile(tiltfile()),
        ),
{
}

/// A command that fails while watching, in the listing of clusters, in the setup of
/// the cluster or in Tilt, ends watching with its failure; nothing runs after it.
pub proof fn lemma_failed_command_ends_watch(w: WatchStageView, failure: Seq<char>, later: EventView)
    requires
        match w {
            WatchStageView::ListingClusters => true,
            WatchStageView::RunningTilt => true,
            WatchStageView::SettingUp(s) => waits_on_command(s.stage),
            _ => false,
        },
    ensures
        watch_step(w, EventView::Failed(failure)) == watch_failed(failure),
        watch_step(watch_step(w, EventView::Failed(failure)).0, later) == watch_failed(failure),
{
}

} // verus!
