//! A hub of applications and commands on Kubernetes: the resource models, the
//! manifests that install the hub, the controller's configuration, routes and tracing
//! settings, and the steps of the development tasks.
pub mod cli;
pub mod common;
pub mod controller;
pub mod foreign;
pub mod operator;
pub mod routes;
pub mod text;
pub mod xtask;
