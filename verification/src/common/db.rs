//! The fixed listing of applications and commands used when no cluster is at hand.
use crate::common::models::{Application, Command};
use crate::foreign::{parse_url, parsed_url, url_parses};
use vstd::prelude::*;

verus! {

/// Why a listing failed.
#[derive(Debug)]
pub enum CommonError {
    ClientError(String),
}

impl CommonError {
    /// The text of the error, as it is displayed.
    pub fn message(&self) -> (s: String)
        ensures
            s@ == "Base error"@,
    {
        String::from_str("Base error")
    }
}

/// The address of the one application in the fixed listing.
pub open spec fn local_application_address() -> Seq<char> {
    "http://localhost:8080"@
}

/// The fixed listing of applications: one unnamed application, with nothing but its
/// address set.
pub open spec fn fixed_applications(apps: Seq<Application>) -> bool {
    &&& apps.len() == 1
    &&& apps[0].name@ == Seq::<char>::empty()
    &&& apps[0].version is None
    &&& apps[0].description is None
    &&& apps[0].icon is None
    &&& apps[0].categories is None
    &&& apps[0].openapi_endpoint is None
    &&& apps[0].repository is None
}

/// The fixed listing of commands: one unnamed command with an empty version.
pub open spec fn fixed_commands(cmds: Seq<Command>) -> bool {
    &&& cmds.len() == 1
    &&& cmds[0].name@ == Seq::<char>::empty()
    &&& cmds[0].version matches Some(v) && v@ == Seq::<char>::empty()
    &&& cmds[0].description is None
}

/// Whether the fixed listing of applications succeeds: its address parses as a URL.
pub open spec fn get_applications_succeeds() -> bool {
    url_parses(local_application_address())
}

/// The fixed listing of applications: one unnamed application at the URL parsed from the
/// local address, with nothing else set. The address is parsed as a URL; where that fails the listing
/// fails with a client error.
pub fn get_applications() -> (r: Result<Vec<Application>, CommonError>)
    ensures
        r is Ok <==> get_applications_succeeds(),
        r matches Ok(apps) ==> fixed_applications(apps@),
        r matches Ok(apps) ==> apps@[0].url == parsed_url(local_application_address()),
        r matches Err(e) ==> e is ClientError,
{
    let parsed = parse_url("http://localhost:8080");
    match parsed {
        Ok(url) => {
            let app = Application {
                url,
                name: String::new(),
                version: None,
                description: None,
                icon: None,
                categories: None,
                openapi_endpoint: None,
                repository: None,
            };
            let mut apps: Vec<Application> = Vec::new();
            apps.push(app);
            Ok(apps)
        },
        Err(_) => Err(CommonError::ClientError(String::from_str("invalid application address"))),
    }
}

/// The fixed listing of commands: one unnamed command with an empty version.
pub fn get_commnads() -> (r: Result<Vec<Command>, CommonError>)
    ensures
        r is Ok,
        r matches Ok(cmds) ==> fixed_commands(cmds@),
{
    let command = Command {
        name: String::new(),
        version: Some(String::new()),
        description: None,
    };
    let mut cmds: Vec<Command> = Vec::new();
    cmds.push(command);
    Ok(cmds)
}

} // verus!
