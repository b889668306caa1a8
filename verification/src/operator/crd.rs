//! The operator's custom resource of applications.
use vstd::prelude::*;

verus! {

/// Specification of an `Application` custom resource.
#[derive(Debug, Clone)]
pub struct ApplicationSpec {
    pub name: String,
    pub version: Option<String>,
    pub description: Option<String>,
    pub icon: Option<String>,
    pub url: String,
    pub categories: Option<Vec<String>>,
}

/// Status of an `Application` custom resource.
#[derive(Debug, Clone)]
pub struct ApplicationStatus {
    pub status: String,
}

impl Default for ApplicationStatus {
    fn default() -> (s: Self)
        ensures
            s.status@ == Seq::<char>::empty(),
    {
        ApplicationStatus { status: String::new() }
    }
}

} // verus!
