//! Output of the site generator.

use vstd::prelude::*;

verus! {

/// A generated site: pages as (path, HTML) and assets as (path, bytes).
pub struct GeneratedSite {
    pub pages: Vec<(String, String)>,
    pub assets: Vec<(String, Vec<u8>)>,
}

/// An empty site, to which pages and assets are added.
pub fn generate_site() -> (r: GeneratedSite)
    ensures
        r.pages@.len() == 0,
        r.assets@.len() == 0,
{
    GeneratedSite { pages: Vec::new(), assets: Vec::new() }
}

} // verus!
