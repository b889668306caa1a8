//! The server's Kubernetes API.
use crate::controller::routes::{route, routes_view, Handler, Route};
use vstd::prelude::*;

verus! {

/// The answer about the services, once the service metadata has been read: the list
/// holding "k8s".
pub fn get_services() -> (names: Vec<String>)
    ensures
        names.deep_view() == seq!["k8s"@],
{
    let mut names: Vec<String> = Vec::new();
    names.push(String::from_str("k8s"));
    assert(names.deep_view() =~= seq!["k8s"@]);
    names
}

/// The routes of the Kubernetes API.
pub open spec fn router_view() -> Seq<(Seq<char>, crate::controller::routes::Handler)> {
    seq![("/"@, Handler::ServiceNames)]
}

/// The routes of the Kubernetes API: the services at "/".
pub fn router() -> (routes: Vec<Route>)
    ensures
        routes_view(routes@) == router_view(),
{
    let mut routes: Vec<Route> = Vec::new();
    routes.push(route("/", Handler::ServiceNames));
    assert(routes_view(routes@) =~= router_view());
    routes
}

} // verus!
