//! The custom resources as the Kubernetes API holds them, and their listing.
pub mod crd;
pub mod methods;
