//! The controller: its configuration, the level of its logs, its routes and the
//! settings of its tracing.
pub mod config;
pub mod logger;
pub mod routes;
pub mod tracer;
