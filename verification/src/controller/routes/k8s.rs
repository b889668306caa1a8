//! The listing API served from the custom resources of the cluster.
use crate::common::k8s::methods;
use crate::controller::routes::{route, routes_view, Handler, Route};
use vstd::prelude::*;

verus! {

/// Why a request of the listing API failed.
#[derive(Debug)]
pub enum K8SERROR {
    ClientError(kube::Error),
    CommonError(methods::CommonError),
}

impl K8SERROR {
    /// The text of the error, as it is displayed.
    pub fn message(&self) -> (s: String)
        ensures
            s@ == (match self {
                K8SERROR::ClientError(_) => "k8s error"@,
                K8SERROR::CommonError(_) => "Common error: "@ + "k8s error"@,
            }),
    {
        match self {
            K8SERROR::ClientError(_) => String::from_str("k8s error"),
            K8SERROR::CommonError(e) => String::from_str("Common error: ").concat(e.message().as_str()),
        }
    }

    /// The HTTP status of the answer: an internal server error when the client failed,
    /// a bad request when the listing failed.
    pub fn status_code(&self) -> (code: u16)
        ensures
            code == (match self {
                K8SERROR::ClientError(_) => 500u16,
                K8SERROR::CommonError(_) => 400u16,
            }),
    {
        match self {
            K8SERROR::ClientError(_) => 500,
            K8SERROR::CommonError(_) => 400,
        }
    }
}

/// The routes of the listing API.
pub open spec fn router_view() -> Seq<(Seq<char>, Handler)> {
    seq![("/"@, Handler::K8sServices), ("/commands"@, Handler::K8sCommands)]
}

/// The routes of the listing API: applications at "/", commands at "/commands".
pub fn router() -> (routes: Vec<Route>)
    ensures
        routes_view(routes@) == router_view(),
{
    let mut routes: Vec<Route> = Vec::new();
    routes.push(route("/", Handler::K8sServices));
    routes.push(route("/commands", Handler::K8sCommands));
    assert(routes_view(routes@) =~= router_view());
    routes
}

} // verus!
