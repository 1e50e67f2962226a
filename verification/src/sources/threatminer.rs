use vstd::prelude::*;
use vstd::string::StringExecFns;

use crate::text::{clone_strings, string_views};

verus! {

/// The body this source answers with.
pub struct ThreatminerResult {
    pub results: Vec<String>,
}

impl ThreatminerResult {
    /// Extracts the discovered names: the results as they came.
    pub fn subdomains(&self) -> (r: Vec<String>)
        ensures
            string_views(r@) == string_views(self.results@),
    {
        clone_strings(&self.results)
    }
}

/// The query that asks ThreatMiner for the subdomains of `host`.
pub fn build_url(host: &str) -> (r: String)
    ensures
        r@ == "https://api.threatminer.org/v2/domain.php?q="@ + host@ + "&api=True&rt=5"@,
{
    String::from_str("https://api.threatminer.org/v2/domain.php?q=").concat(host).concat(
        "&api=True&rt=5",
    )
}

} // verus!
