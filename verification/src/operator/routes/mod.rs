//! The operator's routes.
pub mod k8s;
