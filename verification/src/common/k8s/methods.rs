//! The listing of applications and commands from their custom resources: the client
//! lists the resources, and each listed specification becomes its model here.
use crate::common::k8s::crd::{
    application_model, command_model, keeps_application_fields, keeps_command_fields,
    lemma_application_model_keeps_fields, lemma_command_model_keeps_fields, ApplicationSpec, CommandSpec,
};
use crate::common::models::{Application, Command};
use vstd::prelude::*;

verus! {

/// Why a listing through the Kubernetes client failed.
#[derive(Debug)]
pub enum CommonError {
    ClientError(kube::Error),
}

impl CommonError {
    /// The text of the error, as it is displayed.
    pub fn message(&self) -> (s: String)
        ensures
            s@ == "k8s error"@,
    {
        String::from_str("k8s error")
    }
}

/// The listing serves one model for each listed resource, in the order listed, and each
/// model keeps every field of its resource.
pub proof fn lemma_listing_keeps_every_field(apps: Seq<ApplicationSpec>, cmds: Seq<CommandSpec>)
    ensures
        apps.map_values(|a: ApplicationSpec| application_model(a)).len() == apps.len(),
        forall|i: int|
            0 <= i < apps.len() ==> keeps_application_fields(
                apps.map_values(|a: ApplicationSpec| application_model(a))[i],
                #[trigger] apps[i],
            ),
        cmds.map_values(|c: CommandSpec| command_model(c)).len() == cmds.len(),
        forall|i: int|
            0 <= i < cmds.len() ==> keeps_command_fields(
                cmds.map_values(|c: CommandSpec| command_model(c))[i],
                #[trigger] cmds[i],
            ),
{
    assert forall|i: int| 0 <= i < apps.len() implies keeps_application_fields(
        apps.map_values(|a: ApplicationSpec| application_model(a))[i],
        #[trigger] apps[i],
    ) by {
        lemma_application_model_keeps_fields(apps[i]);
    }
    assert forall|i: int| 0 <= i < cmds.len() implies keeps_command_fields(
        cmds.map_values(|c: CommandSpec| command_model(c))[i],
        #[trigger] cmds[i],
    ) by {
        lemma_command_model_keeps_fields(cmds[i]);
    }
}

/// The models of the listed application resources, in the order listed.
pub fn get_applications(listed: Vec<ApplicationSpec>) -> (apps: Vec<Application>)
    ensures
        apps@ == listed@.map_values(|a: ApplicationSpec| application_model(a)),
{
    let mut rest = listed;
    let mut apps: Vec<Application> = Vec::new();
    let ghost all = rest@;
    while rest.len() > 0
        invariant
            apps@.len() + rest@.len() == all.len(),
            rest@ == all.skip(apps@.len() as int),
            apps@ == all.take(apps@.len() as int).map_values(|a: ApplicationSpec| application_model(a)),
        decreases rest@.len(),
    {
        let spec = rest.remove(0);
        let ghost k = apps@.len() as int;
        apps.push(Application::from(spec));
        proof {
            assert(all.take(k + 1) =~= all.take(k).push(all[k]));
            assert(rest@ =~= all.skip(k + 1));
            assert(apps@ =~= all.take(k + 1).map_values(|a: ApplicationSpec| application_model(a)));
        }
    }
    assert(all.take(all.len() as int) =~= all);
    apps
}

/// The models of the listed command resources, in the order listed.
pub fn get_commnads(listed: Vec<CommandSpec>) -> (cmds: Vec<Command>)
    ensures
        cmds@ == listed@.map_values(|c: CommandSpec| command_model(c)),
{
    let mut rest = listed;
    let mut cmds: Vec<Command> = Vec::new();
    let ghost all = rest@;
    while rest.len() > 0
        invariant
            cmds@.len() + rest@.len() == all.len(),
            rest@ == all.skip(cmds@.len() as int),
            cmds@ == all.take(cmds@.len() as int).map_values(|c: CommandSpec| command_model(c)),
        decreases rest@.len(),
    {
        let spec = rest.remove(0);
        let ghost k = cmds@.len() as int;
        cmds.push(Command::from(spec));
        proof {
            assert(all.take(k + 1) =~= all.take(k).push(all[k]));
            assert(rest@ =~= all.skip(k + 1));
            assert(cmds@ =~= all.take(k + 1).map_values(|c: CommandSpec| command_model(c)));
        }
    }
    assert(all.take(all.len() as int) =~= all);
    cmds
}

} // verus!
