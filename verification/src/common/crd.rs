//! The custom resource specifications of applications and commands.
use vstd::prelude::*;

verus! {

/// Specification of an `Application` custom resource.
#[derive(Debug, Clone)]
pub struct ApplicationSpec {
    pub name: String,
    pub version: Option<String>,
    pub description: Option<String>,
    pub icon: Option<String>,
    pub url: url::Url,
    pub categories: Option<Vec<String>>,
    pub openapi_endpoint: Option<url::Url>,
    pub repository: Option<Repository>,
}

/// Specification of a `Command` custom resource.
#[derive(Debug, Clone)]
pub struct CommandSpec {
    pub name: String,
    pub version: Option<String>,
    pub description: Option<String>,
}

/// A source repository named by an application resource.
#[derive(Debug, Clone)]
pub struct Repository {
    pub name: String,
    pub url: url::Url,
    pub access_token: Option<String>,
    pub docs_url: Option<url::Url>,
    pub docs_dir: Option<String>,
}

/// Status of an `Application` custom resource.
#[derive(Debug, Clone)]
pub struct ApplicationStatus {
    pub status: String,
}

impl Default for ApplicationStatus {
    fn default() -> (s: Self)
        ensures
            s.status@ == Seq::<char>::empty(),
    {
        ApplicationStatus { status: String::new() }
    }
}

} // verus!
