//! Data shared by the command line tool and the controller: the resource models,
//! their custom resource forms and the ways to list them.
use vstd::prelude::*;

pub mod crd;
pub mod db;
pub mod k8s;
pub mod models;

verus! {

/// Sum of two sizes.
pub fn add(left: usize, right: usize) -> (sum: usize)
    requires
        left + right <= usize::MAX,
    ensures
        sum == left + right,
{
    left + right
}

} // verus!
