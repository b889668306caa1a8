//! The command line tool: it writes out the objects that install the hub.
use vstd::prelude::*;

pub mod k8s;
pub mod manifest;

verus! {

/// The commands of the tool.
#[derive(Debug)]
pub enum Cli {
    /// Create a new resource.
    Create(CreateCommands),
}

/// What can be created.
#[derive(Debug)]
pub enum CreateCommands {
    CRD,
    Application(ApplicationArgs),
}

/// An application to create.
#[derive(Debug)]
pub struct ApplicationArgs {
    pub name: String,
    pub url: url::Url,
}

} // verus!
