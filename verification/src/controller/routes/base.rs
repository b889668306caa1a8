//! The listing API served from the fixed listing.
use crate::common::db;
use crate::common::models::{Application, Command};
use crate::controller::routes::{route, routes_view, Handler, Route};
use vstd::prelude::*;

verus! {

/// Why a request of the listing API failed.
#[derive(Debug)]
pub enum BaseError {
    BaseError(db::CommonError),
}

impl BaseError {
    /// The text of the error, as it is displayed.
    pub fn message(&self) -> (s: String)
        ensures
            s@ == "Common error:"@,
    {
        String::from_str("Common error:")
    }

    /// The HTTP status of the answer: an internal server error.
    pub fn status_code(&self) -> (code: u16)
        ensures
            code == 500,
    {
        500
    }
}

impl From<db::CommonError> for BaseError {
    fn from(e: db::CommonError) -> (r: BaseError) {
        BaseError::BaseError(e)
    }
}

impl vstd::std_specs::convert::FromSpecImpl<db::CommonError> for BaseError {
    open spec fn obeys_from_spec() -> bool {
        true
    }

    open spec fn from_spec(e: db::CommonError) -> BaseError {
        BaseError::BaseError(e)
    }
}

/// The applications of the fixed listing; a failed listing is answered with its error.
pub fn get_services() -> (r: Result<Vec<Application>, BaseError>)
    ensures
        r is Ok <==> db::get_applications_succeeds(),
        r matches Ok(apps) ==> db::fixed_applications(apps@),
        r matches Ok(apps) ==> apps@[0].url == crate::foreign::parsed_url(db::local_application_address()),
        r matches Err(e) ==> e matches BaseError::BaseError(inner) && inner is ClientError,
{
    match db::get_applications() {
        Ok(apps) => Ok(apps),
        Err(e) => Err(BaseError::from(e)),
    }
}

/// The commands of the fixed listing.
pub fn get_commands() -> (r: Result<Vec<Command>, BaseError>)
    ensures
        r is Ok,
        r matches Ok(cmds) ==> db::fixed_commands(cmds@),
{
    match db::get_commnads() {
        Ok(cmds) => Ok(cmds),
        Err(e) => Err(BaseError::from(e)),
    }
}

/// The routes of the listing API.
pub open spec fn router_view() -> Seq<(Seq<char>, Handler)> {
    seq![("/services"@, Handler::BaseServices), ("/commands"@, Handler::BaseCommands)]
}

/// The routes of the listing API: applications at "/services", commands at "/commands".
pub fn router() -> (routes: Vec<Route>)
    ensures
        routes_view(routes@) == router_view(),
{
    let mut routes: Vec<Route> = Vec::new();
    routes.push(route("/services", Handler::BaseServices));
    routes.push(route("/commands", Handler::BaseCommands));
    assert(routes_view(routes@) =~= router_view());
    routes
}

} // verus!
