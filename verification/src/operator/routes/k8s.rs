//! The operator's Kubernetes API.
use crate::controller::routes::{route, routes_view, Handler, Route};
use vstd::prelude::*;

verus! {

/// Why a request of the Kubernetes API failed.
#[derive(Debug)]
pub enum K8SERROR {
    ClientError(kube::Error),
}

impl K8SERROR {
    /// The text of the error, as it is displayed.
    pub fn message(&self) -> (s: String)
        ensures
            s@ == "k8s error"@,
    {
        String::from_str("k8s error")
    }

    /// The HTTP status of the answer: an internal server error.
    pub fn status_code(&self) -> (code: u16)
        ensures
            code == 500,
    {
        500
    }
}

/// The answer about the services: a greeting.
pub fn get_services() -> (r: Result<String, K8SERROR>)
    ensures
        r matches Ok(s) && s@ == "Hello k8s"@,
{
    Ok(String::from_str("Hello k8s"))
}

/// The routes of the Kubernetes API: the services at "/".
pub fn router() -> (routes: Vec<Route>)
    ensures
        routes_view(routes@) == seq![("/"@, Handler::K8sServices)],
{
    let mut routes: Vec<Route> = Vec::new();
    routes.push(route("/", Handler::K8sServices));
    assert(routes_view(routes@) =~= seq![("/"@, Handler::K8sServices)]);
    routes
}

} // verus!
