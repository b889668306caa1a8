//! The resource models that the controller serves.
use vstd::prelude::*;

verus! {

/// A source repository of an application.
#[derive(Debug, Clone)]
pub struct Repository {
    pub name: String,
    pub url: url::Url,
    pub access_token: Option<String>,
    pub docs_url: Option<url::Url>,
    pub docs_dir: Option<String>,
}

/// An application offered by the hub.
#[derive(Debug, Clone)]
pub struct Application {
    pub name: String,
    pub version: Option<String>,
    pub description: Option<String>,
    pub icon: Option<String>,
    pub url: url::Url,
    pub categories: Option<Vec<String>>,
    pub openapi_endpoint: Option<url::Url>,
    pub repository: Option<Repository>,
}

/// A command offered by the hub.
#[derive(Debug, Clone)]
pub struct Command {
    pub name: String,
    pub version: Option<String>,
    pub description: Option<String>,
}

} // verus!
