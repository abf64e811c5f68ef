//! A deployment target.

use vstd::prelude::*;

verus! {

/// Where a deployed album can be reached.
pub struct DeploymentResult {
    pub site_url: String,
    pub feed_url: String,
}

/// A hosting platform that an album can be deployed to.
pub trait Deployer {
    fn deploy(&self) -> Result<DeploymentResult, String>;
}

} // verus!
