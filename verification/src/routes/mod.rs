//! The routes of the hub's server: a greeting, a health check, and the Kubernetes API
//! under "/k8s".
use crate::controller::routes::{route, routes_view, Handler, Nest, RouteTable, nests_view};
use vstd::prelude::*;

pub mod k8s;

verus! {

/// The server's routes: the greeting at "/", the health check at "/health", and the
/// Kubernetes API under "/k8s".
pub fn configure_routes() -> (table: RouteTable)
    ensures
        routes_view(table.routes@) == seq![("/"@, Handler::Root), ("/health"@, Handler::HealthCheck)],
        nests_view(table.nests@) == seq![("/k8s"@, k8s::router_view())],
{
    let mut routes = Vec::new();
    routes.push(route("/", Handler::Root));
    routes.push(route("/health", Handler::HealthCheck));
    let mut nests: Vec<Nest> = Vec::new();
    nests.push(Nest { prefix: String::from_str("/k8s"), routes: k8s::router() });
    let table = RouteTable { routes, nests };
    assert(routes_view(table.routes@) =~= seq![("/"@, Handler::Root), ("/health"@, Handler::HealthCheck)]);
    assert(nests_view(table.nests@) =~= seq![("/k8s"@, k8s::router_view())]);
    table
}

} // verus!
