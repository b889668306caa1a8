//! The controller's routes: a greeting at the root, a health check, and the listing of
//! applications and commands under "/api", served from the cluster or from the fixed
//! listing.
use vstd::prelude::*;

pub mod base;
pub mod k8s;

verus! {

/// What answers a request.
#[derive(Debug, Clone, Copy, PartialEq, Eq, Structural)]
pub enum Handler {
    /// The greeting.
    Root,
    /// The health check.
    HealthCheck,
    /// The applications of the fixed listing.
    BaseServices,
    /// The commands of the fixed listing.
    BaseCommands,
    /// The applications listed in the cluster.
    K8sServices,
    /// The commands listed in the cluster.
    K8sCommands,
    /// The names of the services, once their metadata has been read from the cluster.
    ServiceNames,
}

/// A path answered by a handler on GET requests.
#[derive(Debug)]
pub struct Route {
    pub path: String,
    pub handler: Handler,
}

pub open spec fn route_view(r: Route) -> (Seq<char>, Handler) {
    (r.path@, r.handler)
}

/// Routes mounted under a common prefix.
#[derive(Debug)]
pub struct Nest {
    pub prefix: String,
    pub routes: Vec<Route>,
}

pub open spec fn routes_view(routes: Seq<Route>) -> Seq<(Seq<char>, Handler)> {
    routes.map_values(|r: Route| route_view(r))
}

/// The routes of a server: its own, and those nested under prefixes.
#[derive(Debug)]
pub struct RouteTable {
    pub routes: Vec<Route>,
    pub nests: Vec<Nest>,
}

pub open spec fn nests_view(nests: Seq<Nest>) -> Seq<(Seq<char>, Seq<(Seq<char>, Handler)>)> {
    nests.map_values(|n: Nest| (n.prefix@, routes_view(n.routes@)))
}

/// Where the listing of applications and commands comes from.
#[derive(Debug, Clone, Copy, PartialEq, Eq, Structural)]
pub enum ApiBackend {
    /// The custom resources of the cluster.
    Kubernetes,
    /// The fixed listing.
    Database,
}

/// A route from a path and a handler.
pub fn route(path: &str, handler: Handler) -> (r: Route)
    ensures
        route_view(r) == (path@, handler),
{
    Route { path: String::from_str(path), handler }
}

/// The answer of the root.
pub fn root() -> (s: &'static str)
    ensures
        s@ == "Hello, World!"@,
{
    "Hello, World!"
}

/// The answer of the health check.
pub fn health_check() -> (s: &'static str)
    ensures
        s@ == "OK"@,
{
    "OK"
}

/// The routes of the listing API of a backend.
pub open spec fn api_routes(backend: ApiBackend) -> Seq<(Seq<char>, Handler)> {
    match backend {
        ApiBackend::Kubernetes => k8s::router_view(),
        ApiBackend::Database => base::router_view(),
    }
}

/// The controller's routes: the greeting at "/", the health check at "/health", and the
/// listing API of the backend under "/api".
pub fn configure_routes(backend: ApiBackend) -> (table: RouteTable)
    ensures
        routes_view(table.routes@) == seq![("/"@, Handler::Root), ("/health"@, Handler::HealthCheck)],
        nests_view(table.nests@) == seq![("/api"@, api_routes(backend))],
{
    let mut routes: Vec<Route> = Vec::new();
    routes.push(route("/", Handler::Root));
    routes.push(route("/health", Handler::HealthCheck));
    let api = match backend {
        ApiBackend::Kubernetes => k8s::router(),
        ApiBackend::Database => base::router(),
    };
    let mut nests: Vec<Nest> = Vec::new();
    nests.push(Nest { prefix: String::from_str("/api"), routes: api });
    let table = RouteTable { routes, nests };
    assert(routes_view(table.routes@) =~= seq![("/"@, Handler::Root), ("/health"@, Handler::HealthCheck)]);
    assert(nests_view(table.nests@) =~= seq![("/api"@, api_routes(backend))]);
    table
}

} // verus!
