//! The operator: a controller started from its own command line, which watches the
//! deployments of the cluster while it serves.
pub mod cli;
pub mod config;
pub mod crd;
pub mod routes;
